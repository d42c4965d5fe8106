//! Naming the local file that a generated image is saved under.

use vstd::prelude::*;

verus! {

/// The file name used when the asset URL names no path segment.
pub const DEFAULT_IMAGE_FILENAME: &'static str = "1minAI_output.png";

/// Index of the first `?` at or after `i`, or the length when there is none.
pub open spec fn query_from(s: Seq<char>, i: int) -> int
    decreases s.len() - i,
{
    if i >= s.len() {
        s.len() as int
    } else if s[i] == '?' {
        i
    } else {
        query_from(s, i + 1)
    }
}

/// The URL without its query string: everything before the first `?`.
pub open spec fn url_path_part(url: Seq<char>) -> Seq<char> {
    url.take(query_from(url, 0))
}

/// Index of the last `/` before position `j`, or -1 when there is none.
pub open spec fn slash_before(s: Seq<char>, j: int) -> int
    decreases j,
{
    if j <= 0 {
        -1
    } else if s[j - 1] == '/' {
        j - 1
    } else {
        slash_before(s, j - 1)
    }
}

/// Whether the slash at `k` closes the `://` that introduces an authority,
/// so that nothing after it belongs to a path.
pub open spec fn opens_authority(s: Seq<char>, k: int) -> bool {
    k >= 2 && s[k - 1] == '/' && s[k - 2] == ':'
}

/// The final path segment of a URL, when it has a nonempty one.
pub open spec fn final_segment(url: Seq<char>) -> Option<Seq<char>> {
    let p = url_path_part(url);
    let k = slash_before(p, p.len() as int);
    let seg = p.skip(k + 1);
    if seg.len() == 0 || opens_authority(p, k) {
        None
    } else {
        Some(seg)
    }
}

/// The local file name for an asset URL: its final path segment, or the
/// default name when there is none.
pub open spec fn asset_filename(url: Seq<char>) -> Seq<char> {
    match final_segment(url) {
        Some(seg) => seg,
        None => DEFAULT_IMAGE_FILENAME@,
    }
}

/// Derives the local file name for an asset URL: the query string is
/// dropped, and the text after the last `/` is used; when that text is
/// empty, or the URL has no path after its authority, the default name is
/// used.
pub fn image_filename(url: &str) -> (r: String)
    ensures
        r@ == asset_filename(url@),
{
    let n = url.unicode_len();
    let mut q: usize = 0;
    while q < n
        invariant
            n == url@.len(),
            0 <= q <= n,
            query_from(url@, q as int) == query_from(url@, 0),
        ensures
            0 <= q <= n,
            query_from(url@, q as int) == query_from(url@, 0),
            q < n ==> url@[q as int] == '?',
        decreases n - q,
    {
        if url.get_char(q) == '?' {
            break;
        }
        q = q + 1;
    }
    assert(q == query_from(url@, 0));
    let ghost p = url_path_part(url@);
    assert(p.len() == q);
    let mut j: usize = q;
    while j > 0
        invariant
            0 <= j <= q <= n,
            n == url@.len(),
            p == url@.take(q as int),
            slash_before(p, j as int) == slash_before(p, q as int),
        ensures
            0 <= j <= q,
            slash_before(p, j as int) == slash_before(p, q as int),
            j > 0 ==> p[j - 1] == '/',
        decreases j,
    {
        if url.get_char(j - 1) == '/' {
            break;
        }
        j = j - 1;
    }
    let ghost k = slash_before(p, q as int);
    assert(k == j as int - 1);
    let closes_scheme = j >= 3 && url.get_char(j - 2) == '/' && url.get_char(j - 3) == ':';
    assert(closes_scheme == opens_authority(p, k));
    if j == q || closes_scheme {
        assert(p.skip(k + 1).len() == 0 || opens_authority(p, k));
        String::from_str(DEFAULT_IMAGE_FILENAME)
    } else {
        assert(url@.subrange(j as int, q as int) =~= p.skip(k + 1));
        String::from_str(url.substring_char(j, q))
    }
}

} // verus!
