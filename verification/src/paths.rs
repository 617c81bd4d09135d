//! A plain-string model of file paths.
//!
//! Paths are strings whose components are separated by `'/'`.  The model
//! gives each path a directory prefix (everything up to and including the
//! last separator, empty when there is none), a file name (everything after
//! the last separator), and a stem (the file name without its extension).
//! These are the pieces the output namer works from.

use vstd::prelude::*;
use vstd::string::StrSliceExecFns;

verus! {

/// The greatest index at which `c` occurs in `s`, or `-1` when it does not
/// occur at all.
pub open spec fn last_index_of(s: Seq<char>, c: char) -> int
    decreases s.len(),
{
    if s.len() == 0 {
        -1
    } else if s.last() == c {
        s.len() - 1
    } else {
        last_index_of(s.drop_last(), c)
    }
}

pub proof fn lemma_last_index_of_props(s: Seq<char>, c: char)
    ensures
        -1 <= last_index_of(s, c) < s.len(),
        last_index_of(s, c) >= 0 ==> s[last_index_of(s, c)] == c,
        forall|j: int| last_index_of(s, c) < j < s.len() ==> s[j] != c,
    decreases s.len(),
{
    if s.len() > 0 && s.last() != c {
        lemma_last_index_of_props(s.drop_last(), c);
        assert forall|j: int| last_index_of(s, c) < j < s.len() implies s[j] != c by {
            if j < s.len() - 1 {
                assert(s.drop_last()[j] == s[j]);
            }
        }
        if last_index_of(s, c) >= 0 {
            assert(s[last_index_of(s, c)] == s.drop_last()[last_index_of(s, c)]);
        }
    }
}

/// The part of `path` after the last separator; the whole path when there
/// is no separator.
pub open spec fn spec_file_name(path: Seq<char>) -> Seq<char> {
    path.subrange(last_index_of(path, '/') + 1, path.len() as int)
}

/// The part of `path` up to and including the last separator; empty when
/// there is no separator.
pub open spec fn spec_dir_prefix(path: Seq<char>) -> Seq<char> {
    path.subrange(0, last_index_of(path, '/') + 1)
}

/// The fallback stem used when a path yields an empty file name.
pub open spec fn fallback_stem() -> Seq<char> {
    seq!['c', 'o', 'n', 'v', 'e', 'r', 't', 'e', 'd']
}

/// The stem of a file name: the part before the last `'.'`, except that a
/// leading `'.'` (a hidden file) does not start an extension.  An empty
/// result falls back to a fixed placeholder stem.
pub open spec fn spec_stem_of_file_name(name: Seq<char>) -> Seq<char> {
    if last_index_of(name, '.') <= 0 {
        if name.len() == 0 {
            fallback_stem()
        } else {
            name
        }
    } else {
        name.subrange(0, last_index_of(name, '.'))
    }
}

/// The stem of a path's file name.
pub open spec fn spec_stem(path: Seq<char>) -> Seq<char> {
    spec_stem_of_file_name(spec_file_name(path))
}

/// The index of the last occurrence of `c` in `s`, if any.
pub fn find_last(s: &str, c: char) -> (r: Option<usize>)
    ensures
        s@.len() <= usize::MAX,
        match r {
            Some(i) => i == last_index_of(s@, c) && i < s@.len() && s@[i as int] == c,
            None => last_index_of(s@, c) == -1,
        },
{
    let n: usize = s.unicode_len();
    let mut i: usize = 0;
    let mut r: Option<usize> = None;
    while i < n
        invariant
            n == s@.len(),
            i <= n,
            match r {
                Some(k) => k < i && s@[k as int] == c && (forall|j: int|
                    k < j < i ==> s@[j] != c),
                None => forall|j: int| 0 <= j < i ==> s@[j] != c,
            },
        decreases n - i,
    {
        if s.get_char(i) == c {
            r = Some(i);
        }
        i += 1;
    }
    proof {
        lemma_last_index_of_props(s@, c);
    }
    r
}

/// The file name of `path`: everything after the last separator.
pub fn file_name_part<'a>(path: &'a str) -> (r: &'a str)
    ensures
        r@ == spec_file_name(path@),
{
    let n: usize = path.unicode_len();
    match find_last(path, '/') {
        Some(i) => path.substring_char(i + 1, n),
        None => {
            proof {
                assert(path@.subrange(0, n as int) =~= path@);
            }
            path.substring_char(0, n)
        },
    }
}

/// The directory prefix of `path`: everything up to and including the last
/// separator, empty when there is none.
pub fn dir_prefix_part<'a>(path: &'a str) -> (r: &'a str)
    ensures
        r@ == spec_dir_prefix(path@),
{
    match find_last(path, '/') {
        Some(i) => path.substring_char(0, i + 1),
        None => {
            proof {
                assert(path@.subrange(0, 0) =~= spec_dir_prefix(path@));
            }
            path.substring_char(0, 0)
        },
    }
}

/// The stem of `path`'s file name, falling back to a fixed placeholder when
/// the file name is empty.
pub fn stem_part<'a>(path: &'a str) -> (r: &'a str)
    ensures
        r@ == spec_stem(path@),
{
    let name = file_name_part(path);
    let n: usize = name.unicode_len();
    match find_last(name, '.') {
        Some(i) if i > 0 => name.substring_char(0, i),
        _ => {
            if n == 0 {
                proof {
                    reveal_strlit("converted");
                    assert("converted"@ =~= fallback_stem());
                }
                "converted"
            } else {
                proof {
                    assert(name@.subrange(0, n as int) =~= name@);
                }
                name.substring_char(0, n)
            }
        },
    }
}

} // verus!
