//! From the raw bytes of a request to the path of the file to serve.
use vstd::prelude::*;
use vstd::utf8::{decode_utf8, valid_utf8};

use crate::request::{parse_http_request, requested_path};
use crate::resolve::{resolve_path, resolved_path};

verus! {

/// The text that lossy UTF-8 decoding makes of a byte sequence.
pub uninterp spec fn lossy_text(b: Seq<u8>) -> Seq<char>;

/// Relies on String::from_utf8_lossy: the text depends on the bytes alone,
/// and valid UTF-8 is decoded unchanged.
#[verifier::external_body]
fn decode_lossy(b: &[u8]) -> (r: String)
    ensures
        r@ == lossy_text(b@),
        valid_utf8(b@) ==> r@ == decode_utf8(b@),
{
    String::from_utf8_lossy(b).into_owned()
}

/// The path of the file that a request asks for: the request is decoded
/// lossily, its requested path extracted and resolved under the root
/// directory.
pub fn resolve_request(buffer: &[u8]) -> (r: String)
    ensures
        r@ == resolved_path(requested_path(lossy_text(buffer@))),
        valid_utf8(buffer@) ==> r@ == resolved_path(requested_path(decode_utf8(buffer@))),
{
    let text = decode_lossy(buffer);
    let path = parse_http_request(text.as_str());
    resolve_path(path)
}

} // verus!
