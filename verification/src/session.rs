//! The peer session's data and the wire codec.
//!
//! The wire protocol is unframed: each side writes a message's UTF-8 bytes
//! verbatim, and each read returns up to one buffer of bytes.  The handshake
//! writes the local display name the same way; the reader receives it in a
//! zero-filled 64-byte buffer, so the decoded name carries NUL padding that
//! is stripped off.  A zero-length read is the designed "peer closed"
//! signal, and bytes that are not valid UTF-8 are a protocol violation.
//!
//! The live socket is owned by the embedding binary; it hands the raw bytes
//! of each read to the functions here and writes the bytes they produce.

use vstd::prelude::*;
use vstd::string::StrSliceExecFns;
use vstd::utf8::decode_utf8;
use vstd::utf8::encode_scalar;
use vstd::utf8::encode_utf8;
use vstd::utf8::encode_utf8_decode_utf8;
use vstd::utf8::encode_utf8_valid_utf8;
use vstd::utf8::valid_utf8;

use crate::SessionError;
use crate::text::chat_line;
use crate::text::format_line;
use crate::text::strip_trailing_nuls;
use crate::text::trim_nul_padding;
use crate::text::utf8_to_string;

verus! {

/// What the chat core reads of a peer session: the peer's display name and
/// the local address shown in the status line.  The socket both were
/// obtained from stays with the embedding binary.
pub struct Peer {
    pub name: String,
    pub ip_str: String,
}

impl Peer {
    /// A session record from a decoded peer name and a local address.
    pub fn new(name: String, ip_str: String) -> (peer: Peer)
        ensures
            peer.name == name,
            peer.ip_str == ip_str,
    {
        Peer { name, ip_str }
    }

    /// The peer's display name.
    pub fn get_name(&self) -> (name: &str)
        ensures
            name@ == self.name@,
    {
        self.name.as_str()
    }

    /// The local address string.
    pub fn get_ip_str(&self) -> (addr: &str)
        ensures
            addr@ == self.ip_str@,
    {
        self.ip_str.as_str()
    }
}

/// The bytes put on the wire for a text: its UTF-8 encoding, with no length
/// prefix and no delimiter.  Both the handshake name and every message are
/// written this way.
pub fn wire_bytes(text: &str) -> (bytes: Vec<u8>)
    ensures
        bytes@ == encode_utf8(text@),
{
    text.as_bytes_vec()
}

/// The peer name carried by a handshake read: `buf` is the zero-filled
/// 64-byte buffer after the read, `n` the number of bytes the read
/// returned.  A zero-length read means the peer closed before sending a
/// name; bytes that do not decode are a protocol violation; otherwise the
/// name is the decoded buffer with its NUL padding stripped.
pub fn handshake_name(buf: &[u8], n: usize) -> (r: Result<String, SessionError>)
    ensures
        n == 0 ==> (r matches Err(e) && e == SessionError::EmptyHandshake),
        n > 0 && !valid_utf8(buf@) ==> (r matches Err(e) && e == SessionError::MalformedText),
        n > 0 && valid_utf8(buf@) ==> (r matches Ok(name) && name@ == strip_trailing_nuls(
            decode_utf8(buf@),
        )),
{
    if n == 0 {
        return Err(SessionError::EmptyHandshake);
    }
    match utf8_to_string(buf) {
        Option::None => Err(SessionError::MalformedText),
        Option::Some(padded) => Ok(trim_nul_padding(padded.as_str())),
    }
}

/// What one receive step produced.
#[derive(Debug)]
pub enum Received {
    /// A rendered log line, "<peer name>: <text>".
    Line(String),
    /// The peer shut the connection down in an orderly way.
    Closed,
    /// The peer sent bytes that are not valid UTF-8.
    Malformed,
}

/// One step of the background receiver: turns the bytes of one read into
/// what the receiver does with them.  A zero-length read closes the
/// session; undecodable bytes are a protocol violation that also ends the
/// receive loop; anything else becomes a rendered log line under the
/// peer's name.
pub fn receiver_step(peer_name: &str, bytes: &[u8]) -> (r: Received)
    ensures
        bytes@.len() == 0 ==> r is Closed,
        bytes@.len() > 0 && !valid_utf8(bytes@) ==> r is Malformed,
        bytes@.len() > 0 && valid_utf8(bytes@) ==> (r matches Received::Line(l) && l@ == chat_line(
            peer_name@,
            decode_utf8(bytes@),
        )),
{
    if bytes.len() == 0 {
        return Received::Closed;
    }
    match utf8_to_string(bytes) {
        Option::None => Received::Malformed,
        Option::Some(text) => Received::Line(format_line(peer_name, text.as_str())),
    }
}

/// Law: the wire codec round-trips.  The bytes written for a text are a
/// valid encoding, and decoding them yields exactly that text; so a
/// message whose bytes arrive in one read is reproduced verbatim on the
/// receiving side.
pub proof fn lemma_send_receive_round_trip(text: Seq<char>)
    ensures
        valid_utf8(encode_utf8(text)),
        decode_utf8(encode_utf8(text)) == text,
{
    encode_utf8_valid_utf8(text);
    encode_utf8_decode_utf8(text);
}

proof fn lemma_encode_utf8_concat(a: Seq<char>, b: Seq<char>)
    ensures
        encode_utf8(a + b) =~= encode_utf8(a) + encode_utf8(b),
    decreases a.len(),
{
    if a.len() == 0 {
        assert(a + b =~= b);
        assert(encode_utf8(a) + encode_utf8(b) =~= encode_utf8(b));
    } else {
        assert((a + b).drop_first() =~= a.drop_first() + b);
        lemma_encode_utf8_concat(a.drop_first(), b);
    }
}

proof fn lemma_encode_nul_run(pad: nat)
    ensures
        encode_utf8(Seq::new(pad, |i: int| '\0')) =~= Seq::new(pad, |i: int| 0u8),
    decreases pad,
{
    if pad > 0 {
        let nuls = Seq::new(pad, |i: int| '\0');
        assert(0u32 & 0x7F == 0u32) by (bit_vector);
        assert(encode_scalar(nuls[0] as u32) =~= seq![0u8]);
        assert(nuls.drop_first() =~= Seq::new((pad - 1) as nat, |i: int| '\0'));
        lemma_encode_nul_run((pad - 1) as nat);
        assert(seq![0u8] + Seq::new((pad - 1) as nat, |i: int| 0u8) =~= Seq::new(
            pad,
            |i: int| 0u8,
        ));
    }
}

/// Law: the handshake round-trips.  A display name that does not itself end
/// in NUL, written as its UTF-8 bytes and read into a zero-filled buffer,
/// decodes and strips back to exactly that name — whatever amount of zero
/// padding the buffer added after it.
pub proof fn lemma_handshake_round_trip(name: Seq<char>, pad: nat)
    requires
        name.len() > 0 ==> name.last() != '\0',
    ensures
        valid_utf8(encode_utf8(name) + Seq::new(pad, |i: int| 0u8)),
        strip_trailing_nuls(
            decode_utf8(encode_utf8(name) + Seq::new(pad, |i: int| 0u8)),
        ) =~= name,
{
    let nuls = Seq::new(pad, |i: int| '\0');
    let padded = name + nuls;
    lemma_encode_utf8_concat(name, nuls);
    lemma_encode_nul_run(pad);
    assert(encode_utf8(name) + Seq::new(pad, |i: int| 0u8) =~= encode_utf8(padded));
    encode_utf8_valid_utf8(padded);
    encode_utf8_decode_utf8(padded);
    crate::text::lemma_strip_nul_padding(name, pad);
}

} // verus!
