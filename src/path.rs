use vstd::prelude::*;
use crate::text::{chars_of, string_of};

verus! {

/// The path separator.
pub const SEPARATOR: char = '/';

/// The position just past the last separator of `s`, or 0 when `s` holds none.
pub open spec fn split_point(s: Seq<char>) -> int
    decreases s.len(),
{
    if s.len() == 0 {
        0
    } else if s.last() == SEPARATOR {
        s.len() as int
    } else {
        split_point(s.drop_last())
    }
}

/// The directory part of a path: everything up to and including its last separator.
pub open spec fn directory_part(s: Seq<char>) -> Seq<char> {
    s.subrange(0, split_point(s))
}

/// The file name part of a path: everything after its last separator.
pub open spec fn file_name_part(s: Seq<char>) -> Seq<char> {
    s.subrange(split_point(s), s.len() as int)
}

/// The directory levels of `s`, shallowest first: each prefix of `s` that
/// ends with a separator.
pub open spec fn directory_levels(s: Seq<char>) -> Seq<Seq<char>>
    decreases s.len(),
{
    if s.len() == 0 {
        Seq::empty()
    } else if s.last() == SEPARATOR {
        directory_levels(s.drop_last()).push(s)
    } else {
        directory_levels(s.drop_last())
    }
}

proof fn lemma_split_point_bounds(s: Seq<char>)
    ensures
        0 <= split_point(s) <= s.len(),
        split_point(s) > 0 ==> s[split_point(s) - 1] == SEPARATOR,
        forall|k: int| split_point(s) <= k < s.len() ==> s[k] != SEPARATOR,
    decreases s.len(),
{
    if s.len() > 0 && s.last() != SEPARATOR {
        lemma_split_point_bounds(s.drop_last());
        assert forall|k: int| split_point(s) <= k < s.len() implies s[k] != SEPARATOR by {
            if k < s.len() - 1 {
                assert(s[k] == s.drop_last()[k]);
            }
        }
    }
}

/// Every directory that a path passes through is among its directory
/// levels: each prefix that ends with a separator is created before the file.
pub proof fn lemma_every_ancestor_is_a_level(s: Seq<char>, k: int)
    requires
        0 <= k < s.len(),
        s[k] == SEPARATOR,
    ensures
        directory_levels(s).contains(s.subrange(0, k + 1)),
    decreases s.len(),
{
    if k == s.len() - 1 {
        assert(s.subrange(0, k + 1) =~= s);
        assert(directory_levels(s).last() == s);
    } else {
        let d = s.drop_last();
        assert(d[k] == s[k]);
        lemma_every_ancestor_is_a_level(d, k);
        assert(d.subrange(0, k + 1) =~= s.subrange(0, k + 1));
        let i = choose|i: int| 0 <= i < directory_levels(d).len() && directory_levels(d)[i] == s.subrange(0, k + 1);
        if s.last() == SEPARATOR {
            assert(directory_levels(s)[i] == directory_levels(d)[i]);
        }
    }
}

/// Splits `raw` into its directory part, which is empty or ends with the
/// separator, and its file name, which holds no separator.
pub fn decompose(raw: &str) -> (r: (String, String))
    ensures
        r.0@ == directory_part(raw@),
        r.1@ == file_name_part(raw@),
        r.0@ + r.1@ == raw@,
        r.0@.len() == 0 || r.0@.last() == SEPARATOR,
        !r.1@.contains(SEPARATOR),
{
    let s = chars_of(raw);
    let n = s.len();
    let mut cut: usize = 0;
    let mut i: usize = 0;
    while i < n
        invariant
            n == s@.len(),
            i <= n,
            cut <= i,
            cut == split_point(s@.subrange(0, i as int)),
        decreases n - i,
    {
        assert(s@.subrange(0, i + 1).drop_last() =~= s@.subrange(0, i as int));
        if s[i] == SEPARATOR {
            cut = i + 1;
        }
        i = i + 1;
    }
    assert(s@.subrange(0, n as int) =~= s@);
    let mut dir: Vec<char> = Vec::new();
    let mut name: Vec<char> = Vec::new();
    let mut j: usize = 0;
    while j < n
        invariant
            n == s@.len(),
            cut <= n,
            j <= n,
            dir@ == s@.subrange(0, if j < cut { j as int } else { cut as int }),
            name@ == s@.subrange(cut as int, if j < cut { cut as int } else { j as int }),
        decreases n - j,
    {
        if j < cut {
            dir.push(s[j]);
            assert(dir@ =~= s@.subrange(0, j + 1));
        } else {
            name.push(s[j]);
            assert(name@ =~= s@.subrange(cut as int, j + 1));
        }
        j = j + 1;
    }
    proof {
        lemma_split_point_bounds(s@);
        assert(dir@ + name@ =~= s@);
        assert(!name@.contains(SEPARATOR)) by {
            if name@.contains(SEPARATOR) {
                let k = choose|k: int| 0 <= k < name@.len() && name@[k] == SEPARATOR;
                assert(s@[cut + k] == SEPARATOR);
            }
        }
    }
    (string_of(&dir), string_of(&name))
}

/// The directory levels that must exist for `directory` to exist,
/// shallowest first: each prefix of `directory` that ends with a separator.
/// For `"a/b/c/"` these are `"a/"`, `"a/b/"` and `"a/b/c/"`.
pub fn directory_chain(directory: &str) -> (r: Vec<String>)
    ensures
        r@.len() == directory_levels(directory@).len(),
        forall|k: int| 0 <= k < r@.len() ==> #[trigger] r@[k]@ == directory_levels(directory@)[k],
{
    let s = chars_of(directory);
    let n = s.len();
    let mut levels: Vec<String> = Vec::new();
    let mut acc: Vec<char> = Vec::new();
    let mut i: usize = 0;
    while i < n
        invariant
            n == s@.len(),
            i <= n,
            acc@ == s@.subrange(0, i as int),
            levels@.len() == directory_levels(acc@).len(),
            forall|k: int| 0 <= k < levels@.len() ==> #[trigger] levels@[k]@ == directory_levels(acc@)[k],
        decreases n - i,
    {
        acc.push(s[i]);
        assert(acc@ =~= s@.subrange(0, i + 1));
        assert(acc@.drop_last() =~= s@.subrange(0, i as int));
        if s[i] == SEPARATOR {
            levels.push(string_of(&acc));
        }
        i = i + 1;
    }
    assert(s@.subrange(0, n as int) =~= s@);
    levels
}

} // verus!
