//! Textual path helpers: recognising a file extension in a path string,
//! the way a platform path API reads it (the part after the last dot of
//! the final component, where that dot neither leads the component nor is
//! the component itself).

use vstd::prelude::*;
use vstd::string::StrSliceExecFns;

verus! {

/// ASCII-case-insensitive character equality.
pub open spec fn chars_eq_ignore_case(a: char, b: char) -> bool {
    a == b || ('A' <= a && a <= 'Z' && a as u32 + 32 == b as u32) || ('A' <= b && b <= 'Z' && b
        as u32 + 32 == a as u32)
}

/// ASCII-case-insensitive sequence equality.
pub open spec fn matches_ignoring_ascii_case(a: Seq<char>, b: Seq<char>) -> bool {
    a.len() == b.len() && forall|i: int| 0 <= i < a.len() ==> chars_eq_ignore_case(a[i], b[i])
}

/// Whether position `p` holds the dot that introduces the path's
/// extension: the last dot, inside the final path component, and not that
/// component's leading character.
pub open spec fn is_extension_dot(path: Seq<char>, p: int) -> bool {
    &&& 0 < p < path.len()
    &&& path[p] == '.'
    &&& path[p - 1] != '/'
    &&& forall|j: int| p < j < path.len() ==> path[j] != '.' && path[j] != '/'
}

/// Whether the path carries `ext` as its extension, compared without
/// regard to ASCII case.
pub open spec fn has_extension(path: Seq<char>, ext: Seq<char>) -> bool {
    exists|p: int|
        is_extension_dot(path, p) && matches_ignoring_ascii_case(
            path.skip(p + 1),
            ext,
        )
}

/// The exec counterpart of [`chars_eq_ignore_case`].
fn ascii_case_eq(a: char, b: char) -> (result: bool)
    ensures
        result == chars_eq_ignore_case(a, b),
{
    a == b || ('A' <= a && a <= 'Z' && a as u32 + 32 == b as u32) || ('A' <= b && b <= 'Z' && b
        as u32 + 32 == a as u32)
}

/// Compares the tail of `path` starting at `from` against `ext`, without
/// regard to ASCII case.
fn suffix_matches(path: &str, from: usize, ext: &str) -> (result: bool)
    requires
        from <= path@.len(),
    ensures
        result == matches_ignoring_ascii_case(path@.skip(from as int), ext@),
{
    let n = path.unicode_len();
    let m = ext.unicode_len();
    if n - from != m {
        return false;
    }
    for i in 0..m
        invariant
            n == path@.len(),
            m == ext@.len(),
            from + m == n,
            forall|k: int|
                0 <= k < i ==> chars_eq_ignore_case(
                    #[trigger] path@.skip(from as int)[k],
                    ext@[k],
                ),
    {
        let a = path.get_char(from + i);
        let b = ext.get_char(i);
        if !ascii_case_eq(a, b) {
            proof {
                assert(path@.skip(from as int)[i as int] == path@[from + i]);
            }
            return false;
        }
        proof {
            assert(path@.skip(from as int)[i as int] == path@[from + i]);
        }
    }
    true
}

/// Reports whether the path's extension is `ext`, compared without regard
/// to ASCII case.
pub fn path_has_extension(path: &str, ext: &str) -> (result: bool)
    ensures
        result == has_extension(path@, ext@),
{
    let n = path.unicode_len();
    let mut j = n;
    let mut dot: Option<usize> = None;
    loop
        invariant_except_break
            dot is None,
        invariant
            n == path@.len(),
            j <= n,
            forall|k: int| j <= k < n ==> path@[k] != '.' && path@[k] != '/',
        ensures
            n == path@.len(),
            match dot {
                Some(p) => p < n && path@[p as int] == '.' && forall|k: int|
                    p < k < n ==> path@[k] != '.' && path@[k] != '/',
                None => forall|p: int|
                    0 <= p < n && path@[p] == '.' ==> exists|k: int|
                        p < k < n && (path@[k] == '.' || path@[k] == '/'),
            },
        decreases j,
    {
        if j == 0 {
            break;
        }
        let c = path.get_char(j - 1);
        if c == '/' {
            proof {
                assert forall|p: int| 0 <= p < n && path@[p] == '.' implies exists|k: int|
                    p < k < n && (path@[k] == '.' || path@[k] == '/') by {
                    assert(p < j - 1);
                    assert(path@[j - 1] == '/');
                }
            }
            break;
        }
        if c == '.' {
            dot = Some(j - 1);
            break;
        }
        j = j - 1;
    }
    match dot {
        Some(p) => {
            if p == 0 {
                proof {
                    assert(forall|q: int| !is_extension_dot(path@, q));
                }
                false
            } else if path.get_char(p - 1) == '/' {
                proof {
                    assert forall|q: int| !is_extension_dot(path@, q) by {
                        if is_extension_dot(path@, q) {
                            assert(path@[q] == '.');
                            assert(q == p as int);
                        }
                    }
                }
                false
            } else {
                let matched = suffix_matches(path, p + 1, ext);
                proof {
                    assert(is_extension_dot(path@, p as int));
                    if !matched {
                        assert forall|q: int| !(is_extension_dot(path@, q)
                            && matches_ignoring_ascii_case(path@.skip(q + 1), ext@)) by {
                            if is_extension_dot(path@, q) {
                                assert(path@[q] == '.');
                                assert(q == p as int);
                            }
                        }
                    }
                }
                matched
            }
        },
        None => {
            proof {
                assert(forall|q: int| !is_extension_dot(path@, q));
            }
            false
        },
    }
}

} // verus!
