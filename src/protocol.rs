//! The wire codec: a big-endian length header followed by an autokey XOR
//! stream; the incremental reader that collects a framed reply; and the check
//! of the error code in a reply.
use crate::error::{SectionError, TpError};
use crate::json::{int_at, json_int_at, json_text_at, text_at};
use crate::models::fit_i16;
use vstd::prelude::*;
use vstd::string::{StringExecFns, StringSliceAdditionalSpecFns};
use vstd::utf8::*;

verus! {

/// The key that the autokey stream starts from.
pub const SEED_KEY: u8 = 0xAB;

/// The key under which byte `i` of cipher text `c` was produced: the seed for
/// the first byte, the previous cipher byte after that.
pub open spec fn key_before(c: Seq<u8>, i: int) -> u8 {
    if i == 0 {
        SEED_KEY
    } else {
        c[i - 1]
    }
}

/// The autokey XOR stream of plain bytes `p`.
pub open spec fn encipher(p: Seq<u8>) -> Seq<u8>
    decreases p.len(),
{
    if p.len() == 0 {
        Seq::empty()
    } else {
        let prev = encipher(p.drop_last());
        prev.push(p.last() ^ key_before(prev, p.len() - 1))
    }
}

/// Undoing the autokey XOR stream: each byte is XORed with the cipher byte
/// before it (the seed for the first).
pub open spec fn decipher(c: Seq<u8>) -> Seq<u8> {
    Seq::new(c.len(), |i: int| c[i] ^ key_before(c, i))
}

/// The four big-endian bytes of `n`.
pub open spec fn be_bytes(n: u32) -> Seq<u8> {
    seq![(n >> 24u32) as u8, (n >> 16u32) as u8, (n >> 8u32) as u8, n as u8]
}

/// The number that four big-endian bytes stand for.
pub open spec fn be_value(b: Seq<u8>) -> int {
    b[0] as int * 0x1000000 + b[1] as int * 0x10000 + b[2] as int * 0x100 + b[3] as int
}

/// A whole frame for plain bytes `p`: the length header, then the stream.
pub open spec fn frame_of(p: Seq<u8>) -> Seq<u8> {
    be_bytes(p.len() as u32) + encipher(p)
}

/// The text that `String::from_utf8_lossy` makes of bytes `b`.
pub uninterp spec fn lossy_text(b: Seq<u8>) -> Seq<char>;

/// Relies on `String::from_utf8_lossy`: valid UTF-8 is decoded as it stands,
/// and the result depends on the bytes alone.
#[verifier::external_body]
fn utf8_lossy(b: &[u8]) -> (r: String)
    ensures
        r@ == lossy_text(b@),
        valid_utf8(b@) ==> r@ == decode_utf8(b@),
{
    String::from_utf8_lossy(b).into_owned()
}

proof fn lemma_encipher_len(p: Seq<u8>)
    ensures
        encipher(p).len() == p.len(),
    decreases p.len(),
{
    if p.len() > 0 {
        lemma_encipher_len(p.drop_last());
    }
}

/// Each byte of the stream is its plain byte XORed with the key before it.
proof fn lemma_encipher_index(p: Seq<u8>)
    ensures
        encipher(p).len() == p.len(),
        forall|i: int|
            0 <= i < p.len() ==> #[trigger] encipher(p)[i] == p[i] ^ key_before(encipher(p), i),
    decreases p.len(),
{
    lemma_encipher_len(p);
    if p.len() > 0 {
        let q = p.drop_last();
        lemma_encipher_index(q);
        assert forall|i: int| 0 <= i < p.len() implies #[trigger] encipher(p)[i] == p[i]
            ^ key_before(encipher(p), i) by {
            if i < p.len() - 1 {
                assert(encipher(p)[i] == encipher(q)[i]);
                assert(p[i] == q[i]);
                if i > 0 {
                    assert(encipher(p)[i - 1] == encipher(q)[i - 1]);
                }
            }
        }
    }
}

/// Deciphering the stream of `p` gives `p` back.
pub proof fn lemma_decipher_encipher(p: Seq<u8>)
    ensures
        decipher(encipher(p)) == p,
{
    lemma_encipher_index(p);
    let c = encipher(p);
    assert forall|i: int| 0 <= i < p.len() implies #[trigger] decipher(c)[i] == p[i] by {
        let k = key_before(c, i);
        let b = p[i];
        assert(c[i] == b ^ k);
        assert((b ^ k) ^ k == b) by (bit_vector);
    }
    assert(decipher(c) =~= p);
}

/// The autokey XOR stream of `plain`, seeded with `SEED_KEY`.
pub fn encipher_bytes(plain: &[u8]) -> (r: Vec<u8>)
    ensures
        r@ == encipher(plain@),
{
    let len = plain.len();
    let mut out: Vec<u8> = Vec::new();
    let mut key: u8 = SEED_KEY;
    let mut i: usize = 0;
    while i < len
        invariant
            len == plain@.len(),
            i <= len,
            out@ == encipher(plain@.take(i as int)),
            key == key_before(out@, i as int),
        decreases len - i,
    {
        proof {
            lemma_encipher_len(plain@.take(i as int));
        }
        let c = plain[i] ^ key;
        out.push(c);
        key = c;
        proof {
            assert(plain@.take(i as int + 1).drop_last() =~= plain@.take(i as int));
            lemma_encipher_len(plain@.take(i as int + 1));
        }
        i = i + 1;
    }
    assert(plain@.take(len as int) =~= plain@);
    out
}

/// Frames `plain`: a 4-byte big-endian header that holds its byte length,
/// then its bytes under the autokey XOR stream seeded with `SEED_KEY`.
pub fn encrypt(plain: &str) -> (r: Vec<u8>)
    requires
        plain.spec_bytes().len() <= u32::MAX,
    ensures
        r@ == frame_of(plain.spec_bytes()),
{
    let msgbytes = plain.as_bytes();
    let n = msgbytes.len() as u32;
    let mut cipher: Vec<u8> = Vec::new();
    cipher.push(#[verifier::truncate] ((n >> 24u32) as u8));
    cipher.push(#[verifier::truncate] ((n >> 16u32) as u8));
    cipher.push(#[verifier::truncate] ((n >> 8u32) as u8));
    cipher.push(#[verifier::truncate] (n as u8));
    let mut payload = encipher_bytes(msgbytes);
    cipher.append(&mut payload);
    assert(cipher@ =~= frame_of(plain.spec_bytes()));
    cipher
}

/// Reverses the autokey stream in place and reads the result as UTF-8,
/// replacing invalid sequences.
pub fn decrypt(cipher: &mut [u8]) -> (r: String)
    ensures
        final(cipher)@ == decipher(old(cipher)@),
        r@ == lossy_text(decipher(old(cipher)@)),
        valid_utf8(decipher(old(cipher)@)) ==> r@ == decode_utf8(decipher(old(cipher)@)),
{
    let len = cipher.len();
    let mut key: u8 = SEED_KEY;
    let mut i: usize = 0;
    while i < len
        invariant
            len == cipher@.len(),
            cipher@.len() == old(cipher)@.len(),
            i <= len,
            forall|j: int| 0 <= j < i ==> #[trigger] cipher@[j] == decipher(old(cipher)@)[j],
            forall|j: int| i <= j < len ==> #[trigger] cipher@[j] == old(cipher)@[j],
            key == key_before(old(cipher)@, i as int),
        decreases len - i,
    {
        let next = cipher[i];
        cipher[i] = next ^ key;
        key = next;
        i = i + 1;
    }
    assert(cipher@ =~= decipher(old(cipher)@));
    utf8_lossy(cipher)
}

/// Reads the number held by the first four bytes of `b`, most significant
/// first.
pub fn read_be_u32(b: &[u8]) -> (r: u32)
    requires
        b@.len() >= 4,
    ensures
        r as int == be_value(b@),
{
    let b0 = b[0] as u32;
    let b1 = b[1] as u32;
    let b2 = b[2] as u32;
    let b3 = b[3] as u32;
    b0 * 0x1000000 + b1 * 0x10000 + b2 * 0x100 + b3
}

/// The reader takes back from a header the length that was written into it.
pub proof fn lemma_header_round_trip(n: u32)
    ensures
        be_bytes(n).len() == 4,
        be_value(be_bytes(n)) == n as int,
{
    let b0 = (n >> 24u32) as u8;
    let b1 = (n >> 16u32) as u8;
    let b2 = (n >> 8u32) as u8;
    let b3 = n as u8;
    assert(b0 as u32 * 0x1000000u32 + b1 as u32 * 0x10000u32 + b2 as u32 * 0x100u32 + b3 as u32 == n)
        by (bit_vector)
        requires
            b0 == (n >> 24u32) as u8,
            b1 == (n >> 16u32) as u8,
            b2 == (n >> 8u32) as u8,
            b3 == n as u8,
    ;
    assert(b0 as int * 0x1000000 + b1 as int * 0x10000 + b2 as int * 0x100 + b3 as int == n as int);
}

/// Whether a reply that has received `buf` so far is complete, the last read
/// having returned `last_read` bytes: the stream ended, or the header is in
/// and the whole body it declares has arrived.
pub open spec fn reply_complete(buf: Seq<u8>, last_read: nat) -> bool {
    last_read == 0 || (buf.len() >= 4 && buf.len() >= be_value(buf) + 4)
}

/// A reply framed from plain bytes `p` is complete, before the stream ends,
/// exactly when all of its header and body have arrived: however the bytes
/// are split across reads, no earlier prefix counts as complete.
pub proof fn lemma_frame_completes(p: Seq<u8>, received: nat, last_read: nat)
    requires
        p.len() <= u32::MAX,
        received <= frame_of(p).len(),
        last_read > 0,
    ensures
        frame_of(p).len() == p.len() + 4,
        reply_complete(frame_of(p).take(received as int), last_read) <==> received == frame_of(
            p,
        ).len(),
{
    let n = p.len() as u32;
    lemma_encipher_len(p);
    lemma_header_round_trip(n);
    let f = frame_of(p);
    let buf = f.take(received as int);
    if received >= 4 {
        assert(buf[0] == be_bytes(n)[0]);
        assert(buf[1] == be_bytes(n)[1]);
        assert(buf[2] == be_bytes(n)[2]);
        assert(buf[3] == be_bytes(n)[3]);
        assert(be_value(buf) == be_value(be_bytes(n)));
    }
}

/// Collects the bytes of a framed reply across reads of any size.
pub struct ResponseReader {
    buf: Vec<u8>,
}

impl View for ResponseReader {
    type V = Seq<u8>;

    /// The bytes received so far, header included.
    closed spec fn view(&self) -> Seq<u8> {
        self.buf@
    }
}

impl ResponseReader {
    pub fn new() -> (r: ResponseReader)
        ensures
            r@ == Seq::<u8>::empty(),
    {
        ResponseReader { buf: Vec::new() }
    }

    /// The body length that the header declares, once all four header bytes
    /// have arrived.
    pub fn declared_length(&self) -> (r: Option<u32>)
        ensures
            self@.len() >= 4 <==> r.is_some(),
            r matches Some(n) ==> n as int == be_value(self@),
    {
        if self.buf.len() >= 4 {
            Some(read_be_u32(self.buf.as_slice()))
        } else {
            None
        }
    }

    /// Adds the bytes of one read; an empty chunk means the stream ended.
    /// Returns whether the reply is complete.
    pub fn push(&mut self, chunk: &[u8]) -> (complete: bool)
        requires
            old(self)@.len() + chunk@.len() <= usize::MAX,
        ensures
            final(self)@ == old(self)@ + chunk@,
            complete == reply_complete(final(self)@, chunk@.len()),
    {
        let ghost start = self.buf@;
        let mut i: usize = 0;
        while i < chunk.len()
            invariant
                i <= chunk@.len(),
                self.buf@ == start + chunk@.take(i as int),
            decreases chunk@.len() - i,
        {
            self.buf.push(chunk[i]);
            i = i + 1;
            assert(self.buf@ =~= start + chunk@.take(i as int));
        }
        assert(chunk@.take(chunk@.len() as int) =~= chunk@);
        if chunk.len() == 0 {
            return true;
        }
        match self.declared_length() {
            Some(n) => self.buf.len() - 4 >= n as usize,
            None => false,
        }
    }

    /// The text of the reply: the bytes after the header, deciphered. Fails
    /// when fewer than four bytes were received.
    pub fn finish(self) -> (r: Result<String, TpError>)
        ensures
            self@.len() < 4 <==> r is Err,
            r matches Err(e) ==> e is Unknown,
            r matches Ok(t) ==> t@ == lossy_text(decipher(self@.subrange(4, self@.len() as int))),
            r matches Ok(t) ==> (valid_utf8(decipher(self@.subrange(4, self@.len() as int)))
                ==> t@ == decode_utf8(decipher(self@.subrange(4, self@.len() as int)))),
    {
        if self.buf.len() < 4 {
            return Err(TpError::Unknown("response not big enough to decrypt".to_string()));
        }
        let mut buf = self.buf;
        let mut body = buf.split_off(4);
        assert(body@ == self@.subrange(4, self@.len() as int));
        Ok(decrypt(body.as_mut_slice()))
    }
}

/// Where a section of a reply keeps its error code.
pub open spec fn code_pointer(section: Seq<char>) -> Seq<char> {
    section + "/err_code"@
}

/// Where a section of a reply keeps its error message.
pub open spec fn msg_pointer(section: Seq<char>) -> Seq<char> {
    section + "/err_msg"@
}

/// Whether a reply accepts the command of a section: the section's error
/// code is present and zero.
pub open spec fn reply_accepted(doc: Seq<char>, section: Seq<char>) -> bool {
    json_int_at(doc, code_pointer(section)) == Some(0i64)
}

/// The section error that a refused reply is reported as: the code where
/// there is one of 16 bits, and the message where there is one.
pub open spec fn section_error_matches(doc: Seq<char>, section: Seq<char>, e: SectionError) -> bool {
    &&& e.err_code == fit_i16(json_int_at(doc, code_pointer(section)))
    &&& match e.err_msg {
        Some(m) => json_text_at(doc, msg_pointer(section)) == Some(m@),
        None => json_text_at(doc, msg_pointer(section)) is None,
    }
}

/// Checks the error code of a command's section (such as
/// `/system/set_relay_state`) in the reply: zero is success; any other value,
/// or none at all, is a section error.
pub fn validate_response_code(doc: &str, section: &str) -> (r: Result<(), TpError>)
    ensures
        r is Ok <==> reply_accepted(doc@, section@),
        r matches Err(e) ==> (e matches TpError::TPLink(se) && section_error_matches(
            doc@,
            section@,
            se,
        )),
{
    let mut code_ptr = String::from_str(section);
    code_ptr.append("/err_code");
    let mut msg_ptr = String::from_str(section);
    msg_ptr.append("/err_msg");
    let code = int_at(doc, code_ptr.as_str());
    match code {
        Some(0) => Ok(()),
        _ => {
            let err_code = match code {
                Some(c) => if -32768 <= c && c <= 32767 {
                    Some(c as i16)
                } else {
                    None
                },
                None => None,
            };
            let err_msg = text_at(doc, msg_ptr.as_str());
            Err(TpError::TPLink(SectionError { err_code, err_msg }))
        },
    }
}

/// A reply as the library sees it: its text, or the error that stood in
/// its place.
pub open spec fn reply_view(reply: Result<String, TpError>) -> Result<Seq<char>, TpError> {
    match reply {
        Ok(doc) => Ok(doc@),
        Err(e) => Err(e),
    }
}

/// The outcome of checking a reply for a section: a failed exchange passes
/// its error on; a reply succeeds exactly when it accepts the section, and
/// otherwise gives the section error it holds.
pub open spec fn checked(
    reply: Result<Seq<char>, TpError>,
    section: Seq<char>,
    r: Result<(), TpError>,
) -> bool {
    match reply {
        Err(e0) => r == Err::<(), TpError>(e0),
        Ok(doc) => {
            &&& (r is Ok <==> reply_accepted(doc, section))
            &&& (r matches Err(e) ==> (e matches TpError::TPLink(se) && section_error_matches(
                doc,
                section,
                se,
            )))
        },
    }
}

/// Checks a reply that may not have come: a failed exchange passes its error
/// on, and a reply is checked as `validate_response_code` does.
pub fn check_reply(reply: Result<String, TpError>, section: &str) -> (r: Result<(), TpError>)
    ensures
        checked(reply_view(reply), section@, r),
{
    match reply {
        Ok(doc) => validate_response_code(doc.as_str(), section),
        Err(e) => Err(e),
    }
}

/// Text survives a trip through the codec: deciphering the payload of its
/// frame gives back its bytes, which decode to the text itself.
pub proof fn lemma_round_trip(s: Seq<char>)
    ensures
        frame_of(encode_utf8(s)).subrange(4, frame_of(encode_utf8(s)).len() as int)
            == encipher(encode_utf8(s)),
        decipher(encipher(encode_utf8(s))) == encode_utf8(s),
        valid_utf8(encode_utf8(s)),
        decode_utf8(encode_utf8(s)) == s,
{
    let b = encode_utf8(s);
    lemma_decipher_encipher(b);
    encode_utf8_valid_utf8(s);
    encode_utf8_decode_utf8(s);
    assert(frame_of(b).subrange(4, frame_of(b).len() as int) =~= encipher(b));
}

} // verus!
