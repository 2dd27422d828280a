//! Extraction of the requested path from the text of a request.
use vstd::prelude::*;
use vstd::string::StrSliceExecFns;

verus! {

/// The first index at or after `from` that holds a space, or the length of
/// `s` when there is none.
pub open spec fn next_space(s: Seq<char>, from: int) -> int
    decreases s.len() - from,
{
    if from >= s.len() {
        s.len() as int
    } else if s[from] == ' ' {
        from
    } else {
        next_space(s, from + 1)
    }
}

/// Where the requested path begins: one past the first space, or at the very
/// start when the text holds no space at all.
pub open spec fn path_start(s: Seq<char>) -> int {
    let first = next_space(s, 0);
    if first < s.len() {
        first + 1
    } else {
        0
    }
}

/// The requested path: the text from `path_start` up to the next space after
/// it, or up to the end of the text.
pub open spec fn requested_path(s: Seq<char>) -> Seq<char> {
    let start = path_start(s);
    s.subrange(start, next_space(s, start))
}

/// `next_space` lands within bounds, on a space or at the end, and every
/// character it skipped is not a space.
proof fn lemma_next_space(s: Seq<char>, from: int)
    requires
        0 <= from <= s.len(),
    ensures
        from <= next_space(s, from) <= s.len(),
        next_space(s, from) < s.len() ==> s[next_space(s, from)] == ' ',
        forall|k: int| from <= k < next_space(s, from) ==> s[k] != ' ',
    decreases s.len() - from,
{
    if from < s.len() && s[from] != ' ' {
        lemma_next_space(s, from + 1);
    }
}

/// Scans `s` from `from` for a space, returning its index or the length.
fn find_space(s: &str, len: usize, from: usize) -> (r: usize)
    requires
        len == s@.len(),
        from <= len,
    ensures
        r == next_space(s@, from as int),
{
    let mut i: usize = from;
    while i < len
        invariant
            from <= i <= len,
            len == s@.len(),
            next_space(s@, from as int) == next_space(s@, i as int),
        decreases len - i,
    {
        if s.get_char(i) == ' ' {
            return i;
        }
        i = i + 1;
    }
    i
}

/// Extracts the requested path from the text of a request: the text between
/// the first space and the next space after it (or the end of the text).
/// Where the text holds no space at all, the path starts at its beginning.
pub fn parse_http_request(request: &str) -> (r: &str)
    ensures
        r@ == requested_path(request@),
{
    let len = request.unicode_len();
    let first = find_space(request, len, 0);
    let start: usize = if first < len { first + 1 } else { 0 };
    let end = find_space(request, len, start);
    proof {
        lemma_next_space(request@, start as int);
    }
    request.substring_char(start, end)
}

} // verus!
