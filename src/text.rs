use vstd::prelude::*;
use vstd::utf8::*;

verus! {

/// Relies on std::str::from_utf8: it succeeds exactly when the bytes are valid
/// UTF-8, and the text it returns is those same bytes.
#[verifier::external_body]
fn from_utf8(b: &[u8]) -> (r: Option<&str>)
    ensures
        r is Some <==> valid_utf8(b@),
        r matches Some(s) ==> encode_utf8(s@) == b@,
{
    std::str::from_utf8(b).ok()
}

/// Reads a platform string as text: `Some` exactly when its bytes are valid
/// UTF-8, and then the characters those bytes encode.
pub fn decode(b: &[u8]) -> (r: Option<&str>)
    ensures
        r is Some <==> valid_utf8(b@),
        r matches Some(s) ==> encode_utf8(s@) == b@ && s@ == decode_utf8(b@),
{
    let r = from_utf8(b);
    if let Some(s) = r {
        proof {
            encode_utf8_decode_utf8(s@);
        }
    }
    r
}

} // verus!
