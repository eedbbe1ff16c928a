//! Text renderings of captured standard output and standard error.
use vstd::prelude::*;
use vstd::utf8::*;

use crate::text::{hex_text, push_hex};

verus! {

/// What `String::from_utf8_lossy` makes of a byte sequence.
pub uninterp spec fn lossy_text(bytes: Seq<u8>) -> Seq<char>;

/// Relies on `std::str::from_utf8`: it succeeds exactly on valid UTF-8, with the
/// characters that the bytes encode.
#[verifier::external_body]
pub(crate) fn utf8_text(bytes: &[u8]) -> (r: Option<String>)
    ensures
        r is Some <==> valid_utf8(bytes@),
        r matches Some(t) ==> t@ == decode_utf8(bytes@),
{
    match std::str::from_utf8(bytes) {
        Ok(t) => Some(t.to_string()),
        Err(_) => None,
    }
}

/// Relies on `String::from_utf8_lossy`: the bytes with each invalid sequence replaced.
#[verifier::external_body]
fn lossy_utf8(bytes: &[u8]) -> (r: String)
    ensures
        r@ == lossy_text(bytes@),
{
    String::from_utf8_lossy(bytes).into_owned()
}

/// The text shown for a capture that is not valid UTF-8, given its lossy decoding.
pub open spec fn invalid_capture_text(lossy: Seq<char>, bytes: Seq<u8>) -> Seq<char> {
    "utf8 error, lossy string: '"@ + lossy + "', bytes: 0x"@ + hex_text(bytes)
}

/// The text shown for an optional capture.
pub open spec fn capture_text(v: Option<Seq<u8>>) -> Seq<char> {
    match v {
        None => "Did not observe anything"@,
        Some(bytes) => if valid_utf8(bytes) {
            decode_utf8(bytes)
        } else {
            invalid_capture_text(lossy_text(bytes), bytes)
        },
    }
}

/// The view of an optional byte buffer.
pub open spec fn opt_bytes(v: Option<Vec<u8>>) -> Option<Seq<u8>> {
    match v {
        None => None,
        Some(b) => Some(b@),
    }
}

/// Renders a capture that is not valid UTF-8 from its lossy decoding and its bytes.
pub fn render_invalid_capture(lossy: &str, bytes: &[u8]) -> (r: String)
    ensures
        r@ == invalid_capture_text(lossy@, bytes@),
{
    let mut s = String::from_str("utf8 error, lossy string: '");
    s.append(lossy);
    s.append("', bytes: 0x");
    push_hex(&mut s, bytes);
    s
}

/// Renders a capture as text: the text itself when it is valid UTF-8, else a lossy
/// decoding and the bytes in hexadecimal; a fixed note when nothing was captured.
pub fn vec_string_mapper(v: &Option<Vec<u8>>) -> (r: String)
    ensures
        r@ == capture_text(opt_bytes(*v)),
{
    match v {
        None => String::from_str("Did not observe anything"),
        Some(bytes) => match utf8_text(bytes.as_slice()) {
            Some(t) => t,
            None => {
                let lossy = lossy_utf8(bytes.as_slice());
                render_invalid_capture(lossy.as_str(), bytes.as_slice())
            },
        },
    }
}

/// Whether a capture holds anything: `None` when nothing was captured.
pub fn has_stderr(o: &Option<Vec<u8>>) -> (r: Option<bool>)
    ensures
        r == match opt_bytes(*o) {
            None => None,
            Some(b) => Some(b.len() > 0),
        },
{
    match o {
        None => None,
        Some(e) => Some(e.len() > 0),
    }
}

} // verus!
