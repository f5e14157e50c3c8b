//! Marshaling between owned text and foreign null-terminated byte buffers.
//!
//! Input buffers arrive as the bytes a caller placed before the terminator;
//! they are decoded leniently, substituting malformed UTF-8 rather than
//! failing. Output text is re-encoded as a fresh buffer: trailing zero
//! padding is stripped where the runtime produced it, a single terminator is
//! appended, and text that still holds an interior zero byte cannot be
//! terminated and yields no buffer at all.

use vstd::prelude::*;
use vstd::string::StrSliceExecFns;
use vstd::utf8::{decode_utf8, encode_utf8, valid_utf8};

verus! {

/// The bytes of `b` with every trailing zero byte removed.
pub open spec fn strip_trailing_nuls_spec(b: Seq<u8>) -> Seq<u8>
    decreases b.len(),
{
    if b.len() > 0 && b.last() == 0u8 {
        strip_trailing_nuls_spec(b.drop_last())
    } else {
        b
    }
}

/// The null-terminated buffer for `b`: its bytes followed by one zero byte,
/// or nothing when `b` itself holds a zero byte and so cannot be terminated.
pub open spec fn c_buffer_spec(b: Seq<u8>) -> Option<Seq<u8>> {
    if b.contains(0u8) {
        Option::None
    } else {
        Option::Some(b.push(0u8))
    }
}

/// Whether an executable buffer result carries exactly the modeled buffer.
pub open spec fn buffer_matches(r: Option<Vec<u8>>, m: Option<Seq<u8>>) -> bool {
    match (r, m) {
        (Option::Some(v), Option::Some(s)) => v@ == s,
        (Option::None, Option::None) => true,
        _ => false,
    }
}

/// The buffer built for owned result text `t`: its UTF-8 bytes with trailing
/// zero padding stripped and a terminator appended, when that is possible.
pub open spec fn owned_buffer_spec(t: Seq<char>) -> Option<Seq<u8>> {
    c_buffer_spec(strip_trailing_nuls_spec(encode_utf8(t)))
}

/// Removes every trailing zero byte of `b`.
pub fn strip_trailing_nuls(b: Vec<u8>) -> (r: Vec<u8>)
    ensures
        r@ == strip_trailing_nuls_spec(b@),
{
    let mut v = b;
    while v.len() > 0 && v[v.len() - 1] == 0
        invariant
            strip_trailing_nuls_spec(v@) == strip_trailing_nuls_spec(b@),
        decreases v.len(),
    {
        v.pop();
    }
    v
}

/// Appends the terminator to `b`, refusing bytes that hold an interior zero.
pub fn to_c_buffer(b: Vec<u8>) -> (r: Option<Vec<u8>>)
    ensures
        buffer_matches(r, c_buffer_spec(b@)),
{
    let mut i: usize = 0;
    while i < b.len()
        invariant
            0 <= i <= b@.len(),
            forall|j: int| 0 <= j < i ==> b@[j] != 0u8,
        decreases b@.len() - i,
    {
        if b[i] == 0 {
            proof {
                assert(b@.contains(0u8)) by {
                    assert(b@[i as int] == 0u8);
                }
            }
            return Option::None;
        }
        i += 1;
    }
    let mut v = b;
    v.push(0u8);
    Option::Some(v)
}

/// What `String::from_utf8_lossy` returns on the given bytes.
pub uninterp spec fn lossy_decoded(bytes: Seq<u8>) -> Seq<char>;

/// Relies on `String::from_utf8_lossy`: the result is a function of the bytes
/// alone, a valid UTF-8 input decodes to exactly its characters, and an empty
/// input decodes to the empty string.
#[verifier::external_body]
fn from_utf8_lossy_owned(bytes: &Vec<u8>) -> (r: String)
    ensures
        r@ == lossy_decoded(bytes@),
        valid_utf8(bytes@) ==> r@ == decode_utf8(bytes@),
        bytes@.len() == 0 ==> r@.len() == 0,
{
    String::from_utf8_lossy(bytes.as_slice()).into_owned()
}

/// Decodes a borrowed foreign text buffer into owned text, substituting
/// malformed UTF-8 rather than failing.
pub fn decode_foreign_text(bytes: &Vec<u8>) -> (r: String)
    ensures
        r@ == lossy_decoded(bytes@),
        valid_utf8(bytes@) ==> r@ == decode_utf8(bytes@),
        bytes@.len() == 0 ==> r@.len() == 0,
{
    from_utf8_lossy_owned(bytes)
}

/// The UTF-8 bytes of owned text.
pub fn text_bytes(s: &String) -> (r: Vec<u8>)
    ensures
        r@ == encode_utf8(s@),
{
    s.as_str().as_bytes_vec()
}

/// Builds the boundary-owned buffer for successful result text: trailing zero
/// padding stripped, one terminator appended; nothing when an interior zero
/// byte remains.
pub fn encode_result_text(s: &String) -> (r: Option<Vec<u8>>)
    ensures
        buffer_matches(r, owned_buffer_spec(s@)),
{
    let b = text_bytes(s);
    let stripped = strip_trailing_nuls(b);
    to_c_buffer(stripped)
}

/// Builds the boundary-owned buffer for text that is passed on as it stands:
/// its bytes with one terminator appended, or nothing on an interior zero.
pub fn encode_text(s: &String) -> (r: Option<Vec<u8>>)
    ensures
        buffer_matches(r, c_buffer_spec(encode_utf8(s@))),
{
    let b = text_bytes(s);
    to_c_buffer(b)
}

} // verus!
