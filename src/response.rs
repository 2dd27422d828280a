//! The response sent back for the outcome of reading the requested file.
use vstd::prelude::*;
use vstd::string::StringSliceAdditionalSpecFns;
use vstd::utf8::valid_utf8;

verus! {

/// What precedes the file's contents in a successful response.
pub const OK_STATUS: &'static str = "HTTP/1.1 200 OK\r\n\r\n";

/// The whole response sent when the file cannot be served.
pub const NOT_FOUND_RESPONSE: &'static str = "HTTP/1.1 404 Not Found\r\n\r\n404 Not Found";

/// The contents read from the file, if the read succeeded.
pub open spec fn contents_view(file: Option<&[u8]>) -> Option<Seq<u8>> {
    match file {
        Some(b) => Some(b@),
        None => None,
    }
}

/// The response bytes: the success status followed by the file's raw contents
/// when the file was read and holds valid UTF-8 text, else the fixed
/// not-found response, whatever the cause.
pub open spec fn response_bytes(file: Option<Seq<u8>>) -> Seq<u8> {
    match file {
        Some(c) => if valid_utf8(c) {
            OK_STATUS.spec_bytes() + c
        } else {
            NOT_FOUND_RESPONSE.spec_bytes()
        },
        None => NOT_FOUND_RESPONSE.spec_bytes(),
    }
}

/// Relies on std::str::from_utf8: it succeeds exactly when the bytes are
/// valid UTF-8.
#[verifier::external_body]
fn is_text(b: &[u8]) -> (r: bool)
    ensures
        r == valid_utf8(b@),
{
    std::str::from_utf8(b).is_ok()
}

/// The UTF-8 encoding of `s`, in a vector of its own.
fn bytes_of(s: &str) -> (r: Vec<u8>)
    ensures
        r@ == s.spec_bytes(),
{
    let mut r: Vec<u8> = Vec::new();
    r.extend_from_slice(s.as_bytes());
    r
}

/// Builds the response for the outcome of reading the requested file:
/// `None` when the read failed, else the bytes that were read.
pub fn build_response(file: Option<&[u8]>) -> (r: Vec<u8>)
    ensures
        r@ == response_bytes(contents_view(file)),
{
    match file {
        Some(contents) => {
            if is_text(contents) {
                let mut out = bytes_of(OK_STATUS);
                out.extend_from_slice(contents);
                out
            } else {
                bytes_of(NOT_FOUND_RESPONSE)
            }
        },
        None => bytes_of(NOT_FOUND_RESPONSE),
    }
}

} // verus!
