//! Helpers on HTTP request paths.

use vstd::prelude::*;

verus! {

/// Index of the last `'/'` in `s`, or `-1` when there is none.
pub open spec fn last_slash(s: Seq<char>) -> int
    decreases s.len(),
{
    if s.len() == 0 {
        -1
    } else if s.last() == '/' {
        s.len() - 1
    } else {
        last_slash(s.drop_last())
    }
}

/// The parent of a directory path that ends in `'/'`: the final character is
/// dropped, and what precedes the last remaining `'/'` is the parent.
pub open spec fn uri_path_parent(path: Seq<char>) -> Seq<char> {
    let p = path.drop_last();
    let k = last_slash(p);
    if k < 0 {
        Seq::empty()
    } else {
        p.subrange(0, k)
    }
}

/// `s` with every run of consecutive `'/'` replaced by a single `'/'`.
pub open spec fn collapse_slashes(s: Seq<char>) -> Seq<char>
    decreases s.len(),
{
    if s.len() == 0 {
        s
    } else {
        let rest = collapse_slashes(s.drop_last());
        if s.len() >= 2 && s.last() == '/' && s[s.len() - 2] == '/' {
            rest
        } else {
            rest.push(s.last())
        }
    }
}

/// Returns the parent directory of a request path, `""` for the root and for
/// the directories directly below it.
pub fn get_uri_path_parent(path: &str) -> (r: &str)
    requires
        path@.len() > 0,
    ensures
        r@ == uri_path_parent(path@),
{
    let n = path.unicode_len();
    let ghost p = path@.drop_last();
    let mut i: usize = n - 1;
    proof {
        assert(p.subrange(0, i as int) =~= p);
    }
    while i > 0
        invariant
            i < n,
            n == path@.len(),
            p == path@.drop_last(),
            last_slash(p) == last_slash(p.subrange(0, i as int)),
        decreases i,
    {
        proof {
            assert(p.subrange(0, i as int).drop_last() =~= p.subrange(0, i - 1));
        }
        if path.get_char(i - 1) == '/' {
            proof {
                assert(p.subrange(0, i as int).last() == '/');
                assert(p.subrange(0, i - 1) =~= path@.subrange(0, i - 1));
            }
            return path.substring_char(0, i - 1);
        }
        i = i - 1;
    }
    proof {
        assert(p.subrange(0, 0) =~= Seq::<char>::empty());
    }
    path.substring_char(0, 0)
}

/// Removes repeated slashes from a request path.
pub fn remove_extra_slashes(path: &str) -> (r: String)
    ensures
        r@ == collapse_slashes(path@),
{
    let n = path.unicode_len();
    let mut out = String::new();
    let mut previous_slash = false;
    let mut i: usize = 0;
    while i < n
        invariant
            i <= n,
            n == path@.len(),
            out@ == collapse_slashes(path@.subrange(0, i as int)),
            previous_slash == (i > 0 && path@[i - 1] == '/'),
        decreases n - i,
    {
        let c = path.get_char(i);
        let ghost before = path@.subrange(0, i as int);
        let ghost after = path@.subrange(0, i + 1);
        proof {
            assert(after.drop_last() =~= before);
        }
        if c == '/' && previous_slash {
            i = i + 1;
        } else {
            previous_slash = c == '/';
            out.append(path.substring_char(i, i + 1));
            proof {
                assert(path@.subrange(i as int, i + 1) =~= seq![c]);
            }
            i = i + 1;
        }
    }
    proof {
        assert(path@.subrange(0, n as int) =~= path@);
    }
    out
}

} // verus!
