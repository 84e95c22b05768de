//! Verified text matching: substring containment, prefix tests, and the
//! image-extension rule, all stated over the character view of a string.

use vstd::prelude::*;

verus! {

/// `needle` occurs in `hay` starting at character position `i`.
pub open spec fn contains_at(hay: Seq<char>, needle: Seq<char>, i: int) -> bool {
    &&& 0 <= i
    &&& i + needle.len() <= hay.len()
    &&& hay.subrange(i, i + needle.len()) == needle
}

/// `needle` occurs somewhere in `hay` as a contiguous run of characters.
pub open spec fn contains_seq(hay: Seq<char>, needle: Seq<char>) -> bool {
    exists|i: int| contains_at(hay, needle, i)
}

/// Compares `needle` against the characters of `hay` at offset `i`.
fn match_at(hay: &str, needle: &str, i: usize) -> (r: bool)
    requires
        i + needle@.len() <= hay@.len(),
    ensures
        r == contains_at(hay@, needle@, i as int),
{
    let n = hay.unicode_len();
    let m = needle.unicode_len();
    let mut j: usize = 0;
    while j < m
        invariant
            n == hay@.len(),
            m == needle@.len(),
            i + m <= hay@.len(),
            j <= m,
            forall|t: int| 0 <= t < j ==> hay@[i + t] == needle@[t],
        decreases m - j,
    {
        if hay.get_char(i + j) != needle.get_char(j) {
            proof {
                assert(hay@.subrange(i as int, i + m) != needle@) by {
                    assert(hay@.subrange(i as int, i + m)[j as int] == hay@[i + j]);
                }
            }
            return false;
        }
        j += 1;
    }
    proof {
        assert(hay@.subrange(i as int, i + m) =~= needle@);
    }
    true
}

/// Substring search: does `needle` occur anywhere in `hay`?
pub fn contains_str(hay: &str, needle: &str) -> (r: bool)
    ensures
        r == contains_seq(hay@, needle@),
{
    let n = hay.unicode_len();
    let m = needle.unicode_len();
    if m > n {
        proof {
            assert(forall|i: int| !contains_at(hay@, needle@, i));
        }
        return false;
    }
    if m == 0 {
        proof {
            assert(hay@.subrange(0, 0) =~= needle@);
            assert(contains_at(hay@, needle@, 0));
        }
        return true;
    }
    let mut i: usize = 0;
    while i <= n - m
        invariant
            n == hay@.len(),
            m == needle@.len(),
            1 <= m <= n,
            i <= n - m + 1,
            forall|k: int| 0 <= k < i ==> !contains_at(hay@, needle@, k),
        decreases n - m + 1 - i,
    {
        if match_at(hay, needle, i) {
            return true;
        }
        i += 1;
    }
    proof {
        assert(forall|k: int| !contains_at(hay@, needle@, k));
    }
    false
}

/// Two strings hold the same characters.
pub fn str_eq(a: &str, b: &str) -> (r: bool)
    ensures
        r == (a@ == b@),
{
    let n = a.unicode_len();
    if n != b.unicode_len() {
        return false;
    }
    let r = match_at(a, b, 0);
    proof {
        assert(a@.subrange(0, n as int) =~= a@);
    }
    r
}

/// `path` lies in the subtree rooted at `dir`: it is `dir` itself, or it
/// continues `dir` across a `/` separator.
pub open spec fn in_subtree(path: Seq<char>, dir: Seq<char>) -> bool {
    ||| path == dir
    ||| (path.len() > dir.len() && contains_at(path, dir, 0) && path[dir.len() as int] == '/')
}

/// Decides whether `path` lies in the subtree rooted at `dir`.
pub fn path_in_subtree(path: &str, dir: &str) -> (r: bool)
    ensures
        r == in_subtree(path@, dir@),
{
    let n = path.unicode_len();
    let d = dir.unicode_len();
    if n < d {
        return false;
    }
    if !match_at(path, dir, 0) {
        proof {
            assert(path@.subrange(0, path@.len() as int) =~= path@);
        }
        return false;
    }
    if n == d {
        proof {
            assert(path@.subrange(0, d as int) =~= path@);
        }
        true
    } else {
        path.get_char(d) == '/'
    }
}

/// The path names a `jpg` or `png` file: it ends in `.jpg` or `.png`
/// (case-sensitive), and the file name has at least one character of stem
/// before the dot.  Paths use `/` as the separator.
pub open spec fn is_image_path(path: Seq<char>) -> bool {
    &&& path.len() >= 5
    &&& path[path.len() - 5] != '/'
    &&& path[path.len() - 4] == '.'
    &&& {
        ||| (path[path.len() - 3] == 'j' && path[path.len() - 2] == 'p' && path[path.len() - 1]
            == 'g')
        ||| (path[path.len() - 3] == 'p' && path[path.len() - 2] == 'n' && path[path.len() - 1]
            == 'g')
    }
}

/// Decides whether `path` names a `jpg` or `png` file.
pub fn path_has_image_ext(path: &str) -> (r: bool)
    ensures
        r == is_image_path(path@),
{
    let n = path.unicode_len();
    if n < 5 {
        return false;
    }
    if path.get_char(n - 5) == '/' || path.get_char(n - 4) != '.' || path.get_char(n - 1) != 'g' {
        return false;
    }
    let c3 = path.get_char(n - 3);
    let c2 = path.get_char(n - 2);
    (c3 == 'j' && c2 == 'p') || (c3 == 'p' && c2 == 'n')
}

} // verus!
