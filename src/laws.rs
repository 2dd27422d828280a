//! Properties that relate the path extraction, resolution and response.
use vstd::prelude::*;
use vstd::string::StringSliceAdditionalSpecFns;
use vstd::utf8::valid_utf8;

use crate::request::{next_space, path_start, requested_path};
use crate::resolve::{resolved_path, ROOT_DIRECTORY};
use crate::response::{response_bytes, OK_STATUS};

verus! {

/// Whether no character of `s` is a space.
pub open spec fn has_no_space(s: Seq<char>) -> bool {
    forall|k: int| 0 <= k < s.len() ==> s[k] != ' '
}

/// `next_space` from an index at which a stretch of non-space characters
/// begins lands on its end, when a space or the end of text follows it.
proof fn lemma_next_space_after_run(s: Seq<char>, from: int, to: int)
    requires
        0 <= from <= to <= s.len(),
        forall|k: int| from <= k < to ==> s[k] != ' ',
        to == s.len() || s[to] == ' ',
    ensures
        next_space(s, from) == to,
    decreases to - from,
{
    if from < to {
        lemma_next_space_after_run(s, from + 1, to);
    }
}

/// Text that holds no space at all is taken whole as the requested path: it
/// starts at index 0.
pub proof fn lemma_no_space_whole_text(s: Seq<char>)
    requires
        has_no_space(s),
    ensures
        path_start(s) == 0,
        requested_path(s) == s,
{
    lemma_next_space_after_run(s, 0, s.len() as int);
    assert(s.subrange(0, s.len() as int) =~= s);
}

/// A request `GET /<file> <rest>`, where `<file>` holds no space, asks for
/// `/<file>`, which resolves to the root directory followed by `/<file>`
/// (with the index file's name for a directory); when the file reads as
/// valid text, the response is the success status followed by exactly its
/// contents.
pub proof fn lemma_served_file(file: Seq<char>, rest: Seq<char>, contents: Seq<u8>)
    requires
        has_no_space(file),
    ensures
        requested_path(seq!['G', 'E', 'T', ' ', '/'] + file + seq![' '] + rest) == seq!['/']
            + file,
        resolved_path(requested_path(seq!['G', 'E', 'T', ' ', '/'] + file + seq![' '] + rest))
            == resolved_path(seq!['/'] + file),
        resolved_path(seq!['/'] + file).subrange(0, ROOT_DIRECTORY@.len() as int + 1)
            == ROOT_DIRECTORY@ + seq!['/'],
        valid_utf8(contents) ==> response_bytes(Some(contents)) == OK_STATUS.spec_bytes()
            + contents,
{
    let req = seq!['G', 'E', 'T', ' ', '/'] + file + seq![' '] + rest;
    let end: int = 5 + file.len() as int;
    assert(req[3] == ' ');
    lemma_next_space_after_run(req, 0, 3);
    assert forall|k: int| 4 <= k < end implies req[k] != ' ' by {
        if k > 4 {
            assert(req[k] == file[k - 5]);
        }
    }
    assert(req[end] == ' ');
    lemma_next_space_after_run(req, 4, end);
    assert(req.subrange(4, end) =~= seq!['/'] + file);
    let p = seq!['/'] + file;
    assert(resolved_path(p).subrange(0, ROOT_DIRECTORY@.len() as int + 1) =~= ROOT_DIRECTORY@
        + seq!['/']);
}

} // verus!
