//! Text helpers shared by the chat core: whitespace trimming for outgoing
//! messages, the label put in front of rendered lines, stripping the zero
//! padding that the fixed-size handshake buffer leaves behind, and finding
//! the sender/text separator of a rendered line.
//!
//! The only operations taken on trust here are four std primitives that
//! vstd gives no specification for: `char::is_whitespace`, `String::push`,
//! `String::pop` and `core::str::from_utf8`.

use vstd::prelude::*;
use vstd::string::StrSliceExecFns;
use vstd::string::StringExecFns;
use vstd::utf8::decode_utf8;
use vstd::utf8::valid_utf8;

verus! {

/// Whether `char::is_whitespace` holds of `c`: membership in Unicode's
/// White_Space set, a fixed list of characters this crate does not restate.
pub uninterp spec fn is_space_char(c: char) -> bool;

/// Relies on char::is_whitespace: a pure classifier, its result depends on
/// the character alone.
pub assume_specification[ char::is_whitespace ](c: char) -> (b: bool)
    ensures
        b == is_space_char(c),
;

/// Relies on String::push: appends the given character to the end of the
/// string.
pub assume_specification[ String::push ](s: &mut String, c: char)
    ensures
        final(s)@ == old(s)@.push(c),
;

/// Relies on String::pop: removes the last character and returns it, or
/// returns None and leaves the string alone when it is empty.
pub assume_specification[ String::pop ](s: &mut String) -> (r: Option<char>)
    ensures
        old(s)@.len() == 0 ==> r is None && final(s)@ == old(s)@,
        old(s)@.len() > 0 ==> r == Some(old(s)@.last()) && final(s)@ == old(s)@.drop_last(),
;

/// Relies on core::str::from_utf8: succeeds exactly on a valid UTF-8
/// encoding and decodes it; vstd's `valid_utf8` / `decode_utf8` are its
/// specification.
#[verifier::external_body]
pub(crate) fn utf8_to_string(bytes: &[u8]) -> (r: Option<String>)
    ensures
        r is Some <==> valid_utf8(bytes@),
        r matches Some(s) ==> s@ == decode_utf8(bytes@),
{
    match core::str::from_utf8(bytes) {
        Ok(s) => Some(s.to_string()),
        Err(_) => None,
    }
}

/// The separator rendered between a sender label and the message text.
pub open spec fn label_sep() -> Seq<char> {
    seq![':', ' ']
}

/// The sender label under which local echoes are stored.
pub open spec fn you_name() -> Seq<char> {
    seq!['Y', 'o', 'u']
}

/// How a line of the log is rendered: sender, separator, text.
pub open spec fn chat_line(sender: Seq<char>, text: Seq<char>) -> Seq<char> {
    sender + label_sep() + text
}

/// The prefix of the live input row: the local sender label and separator.
pub open spec fn you_label() -> Seq<char> {
    you_name() + label_sep()
}

/// Renders one log line from a sender label and a message text.
pub fn format_line(sender: &str, text: &str) -> (line: String)
    ensures
        line@ == chat_line(sender@, text@),
{
    let with_sep = String::from_str(sender).concat(": ");
    proof {
        reveal_strlit(": ");
        assert(": "@ =~= label_sep());
    }
    let line = with_sep.concat(text);
    proof {
        assert(line@ =~= chat_line(sender@, text@));
    }
    line
}

/// `s` with its leading whitespace characters removed.
pub open spec fn drop_leading_spaces(s: Seq<char>) -> Seq<char>
    decreases s.len(),
{
    if s.len() > 0 && is_space_char(s[0]) {
        drop_leading_spaces(s.drop_first())
    } else {
        s
    }
}

/// `s` with its trailing whitespace characters removed.
pub open spec fn drop_trailing_spaces(s: Seq<char>) -> Seq<char>
    decreases s.len(),
{
    if s.len() > 0 && is_space_char(s.last()) {
        drop_trailing_spaces(s.drop_last())
    } else {
        s
    }
}

/// `s` with leading and trailing whitespace removed: what remains of an
/// input buffer when it is sent.
pub open spec fn spec_trim(s: Seq<char>) -> Seq<char> {
    drop_trailing_spaces(drop_leading_spaces(s))
}

proof fn lemma_drop_leading_at(s: Seq<char>, k: int)
    requires
        0 <= k <= s.len(),
        forall|i: int| 0 <= i < k ==> is_space_char(s[i]),
        k < s.len() ==> !is_space_char(s[k]),
    ensures
        drop_leading_spaces(s) =~= s.subrange(k, s.len() as int),
    decreases k,
{
    if k == 0 {
        assert(s.subrange(0, s.len() as int) =~= s);
    } else {
        let t = s.drop_first();
        assert(forall|i: int| 0 <= i < k - 1 ==> is_space_char(t[i]));
        lemma_drop_leading_at(t, k - 1);
        assert(t.subrange(k - 1, t.len() as int) =~= s.subrange(k, s.len() as int));
    }
}

proof fn lemma_drop_trailing_at(s: Seq<char>, k: int)
    requires
        0 <= k <= s.len(),
        forall|i: int| k <= i < s.len() ==> is_space_char(s[i]),
        k > 0 ==> !is_space_char(s[k - 1]),
    ensures
        drop_trailing_spaces(s) =~= s.subrange(0, k),
    decreases s.len() - k,
{
    if k == s.len() {
        assert(s.subrange(0, s.len() as int) =~= s);
    } else {
        let t = s.drop_last();
        assert(forall|i: int| k <= i < t.len() ==> is_space_char(t[i]));
        lemma_drop_trailing_at(t, k);
        assert(t.subrange(0, k) =~= s.subrange(0, k));
    }
}

/// Removes leading and trailing whitespace, as an input buffer is trimmed
/// before it is sent.
pub fn trim_spaces(s: &str) -> (r: String)
    ensures
        r@ == spec_trim(s@),
{
    let n = s.unicode_len();
    let mut start: usize = 0;
    while start < n && s.get_char(start).is_whitespace()
        invariant
            n == s@.len(),
            start <= n,
            forall|i: int| 0 <= i < start ==> is_space_char(s@[i]),
        decreases n - start,
    {
        start = start + 1;
    }
    proof {
        lemma_drop_leading_at(s@, start as int);
    }
    let mut end: usize = n;
    while end > start && s.get_char(end - 1).is_whitespace()
        invariant
            n == s@.len(),
            start <= end <= n,
            forall|i: int| end <= i < n ==> is_space_char(s@[i]),
        decreases end,
    {
        end = end - 1;
    }
    let kept = s.substring_char(start, end);
    proof {
        let mid = s@.subrange(start as int, n as int);
        assert(forall|i: int| (end - start) <= i < mid.len() ==> is_space_char(mid[i]));
        assert(end > start ==> !is_space_char(mid[end - start - 1]));
        lemma_drop_trailing_at(mid, end - start);
        assert(mid.subrange(0, end - start) =~= s@.subrange(start as int, end as int));
    }
    String::from_str(kept)
}

/// `s` with every trailing NUL character removed: undoes the zero padding
/// of the fixed-size handshake buffer.
pub open spec fn strip_trailing_nuls(s: Seq<char>) -> Seq<char>
    decreases s.len(),
{
    if s.len() > 0 && s.last() == '\0' {
        strip_trailing_nuls(s.drop_last())
    } else {
        s
    }
}

proof fn lemma_strip_nuls_at(s: Seq<char>, k: int)
    requires
        0 <= k <= s.len(),
        forall|i: int| k <= i < s.len() ==> s[i] == '\0',
        k > 0 ==> s[k - 1] != '\0',
    ensures
        strip_trailing_nuls(s) =~= s.subrange(0, k),
    decreases s.len() - k,
{
    if k == s.len() {
        assert(s.subrange(0, s.len() as int) =~= s);
    } else {
        let t = s.drop_last();
        assert(forall|i: int| k <= i < t.len() ==> t[i] == '\0');
        lemma_strip_nuls_at(t, k);
        assert(t.subrange(0, k) =~= s.subrange(0, k));
    }
}

/// Law: stripping the padding recovers exactly the name that was sent.  A name
/// that does not itself end in NUL, followed by any run of NUL padding,
/// strips back to the name.
pub proof fn lemma_strip_nul_padding(name: Seq<char>, pad: nat)
    requires
        name.len() > 0 ==> name.last() != '\0',
    ensures
        strip_trailing_nuls(name + Seq::new(pad, |i: int| '\0')) =~= name,
{
    let padded = name + Seq::new(pad, |i: int| '\0');
    assert(forall|i: int| name.len() <= i < padded.len() ==> padded[i] == '\0');
    lemma_strip_nuls_at(padded, name.len() as int);
    assert(padded.subrange(0, name.len() as int) =~= name);
}

/// Removes trailing NUL characters, recovering a peer name from the
/// zero-filled handshake buffer it was read into.
pub fn trim_nul_padding(s: &str) -> (r: String)
    ensures
        r@ == strip_trailing_nuls(s@),
{
    let n = s.unicode_len();
    let mut end: usize = n;
    while end > 0 && s.get_char(end - 1) == '\0'
        invariant
            n == s@.len(),
            end <= n,
            forall|i: int| end <= i < n ==> s@[i] == '\0',
        decreases end,
    {
        end = end - 1;
    }
    proof {
        lemma_strip_nuls_at(s@, end as int);
    }
    let kept = s.substring_char(0, end);
    String::from_str(kept)
}

/// The index of the first space of `s`, or its length when no character is
/// a space.
pub open spec fn first_space(s: Seq<char>) -> int
    decreases s.len(),
{
    if s.len() == 0 {
        0
    } else if s[0] == ' ' {
        0
    } else {
        1 + first_space(s.drop_first())
    }
}

proof fn lemma_first_space_at(s: Seq<char>, k: int)
    requires
        0 <= k <= s.len(),
        forall|i: int| 0 <= i < k ==> s[i] != ' ',
        k < s.len() ==> s[k] == ' ',
    ensures
        first_space(s) == k,
    decreases k,
{
    if k == 0 {
    } else {
        let t = s.drop_first();
        assert(forall|i: int| 0 <= i < k - 1 ==> t[i] != ' ');
        lemma_first_space_at(t, k - 1);
    }
}

/// Finds the first space of a rendered line: the boundary between the
/// sender label and the message text.
pub fn find_space(s: &str) -> (r: Option<usize>)
    ensures
        0 <= first_space(s@),
        first_space(s@) < s@.len() ==> (r matches Some(i) && i as int == first_space(s@)),
        first_space(s@) >= s@.len() ==> r is None,
{
    let n = s.unicode_len();
    let mut i: usize = 0;
    while i < n && s.get_char(i) != ' '
        invariant
            n == s@.len(),
            i <= n,
            forall|j: int| 0 <= j < i ==> s@[j] != ' ',
        decreases n - i,
    {
        i = i + 1;
    }
    proof {
        lemma_first_space_at(s@, i as int);
    }
    if i < n {
        Some(i)
    } else {
        None
    }
}

} // verus!
