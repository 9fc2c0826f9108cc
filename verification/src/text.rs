//! Character-level helpers on strings: equality and the
//! "lies under a root path" test used to enumerate datasets.

use vstd::prelude::*;

verus! {

/// A dataset name lies under a root when it extends the root with a
/// path separator and a non-empty remainder, as in `pool/a` under
/// `pool`.
pub open spec fn under_root(name: Seq<char>, root: Seq<char>) -> bool {
    &&& name.len() > root.len() + 1
    &&& name.subrange(0, root.len() as int) == root
    &&& name[root.len() as int] == '/'
}

/// Character-for-character string equality.
pub fn str_eq(a: &str, b: &str) -> (r: bool)
    ensures
        r == (a@ == b@),
{
    let n = a.unicode_len();
    if n != b.unicode_len() {
        proof {
            assert(a@.len() != b@.len());
        }
        return false;
    }
    let mut i: usize = 0;
    while i < n
        invariant
            n == a@.len(),
            n == b@.len(),
            i <= n,
            forall|j: int| 0 <= j < i ==> a@[j] == b@[j],
        decreases n - i,
    {
        if a.get_char(i) != b.get_char(i) {
            return false;
        }
        i += 1;
    }
    proof {
        assert(a@ =~= b@);
    }
    true
}

/// Decides `under_root` on the characters of the two strings.
pub fn is_under_root(name: &str, root: &str) -> (r: bool)
    ensures
        r == under_root(name@, root@),
{
    let n = name.unicode_len();
    let m = root.unicode_len();
    if n <= m {
        return false;
    }
    if n == m + 1 {
        return false;
    }
    if name.get_char(m) != '/' {
        return false;
    }
    let mut i: usize = 0;
    while i < m
        invariant
            m < n,
            n == name@.len(),
            m == root@.len(),
            i <= m,
            forall|j: int| 0 <= j < i ==> name@[j] == root@[j],
        decreases m - i,
    {
        if name.get_char(i) != root.get_char(i) {
            return false;
        }
        i += 1;
    }
    proof {
        assert(name@.subrange(0, root@.len() as int) =~= root@);
    }
    true
}

} // verus!
