//! Resolution of a requested path against the server's root directory.
use vstd::prelude::*;
use vstd::string::{StrSliceExecFns, StringExecFns};

verus! {

/// The directory under which every requested path is resolved.
pub const ROOT_DIRECTORY: &'static str = "./webserver/";

/// The file served for a request that names a directory.
pub const INDEX_FILE: &'static str = "index.html";

/// Whether a requested path names a directory, that is ends in `/`.
pub open spec fn names_directory(p: Seq<char>) -> bool {
    p.len() > 0 && p.last() == '/'
}

/// The root directory, whose trailing slash separates it from what follows,
/// and the requested path, verbatim; followed by the index file's name when
/// the path names a directory.
pub open spec fn resolved_path(p: Seq<char>) -> Seq<char> {
    let joined = ROOT_DIRECTORY@ + p;
    if names_directory(p) {
        joined + INDEX_FILE@
    } else {
        joined
    }
}

/// Joins a requested path onto the root directory, appending the index
/// file's name to a path that ends in `/`.
pub fn resolve_path(requested: &str) -> (r: String)
    ensures
        r@ == resolved_path(requested@),
{
    let mut full = String::from_str(ROOT_DIRECTORY);
    full.append(requested);
    let len = requested.unicode_len();
    if len > 0 && requested.get_char(len - 1) == '/' {
        full.append(INDEX_FILE);
    }
    full
}

} // verus!
