//! File system paths as text, with `/` as separator (POSIX path semantics).
//!
//! The library computes paths as strings; reading and writing the file system happens
//! around it.

use vstd::prelude::*;

use crate::text::{concat2, concat3, is_last_char, rfind_char};

verus! {

/// The path separator.
pub open spec fn sep() -> char {
    '/'
}

/// A path is absolute if it starts at the root.
pub open spec fn spec_is_absolute(p: Seq<char>) -> bool {
    p.len() > 0 && p[0] == sep()
}

/// Whether `p` is absolute.
pub fn is_absolute(p: &str) -> (r: bool)
    ensures
        r == spec_is_absolute(p@),
{
    p.unicode_len() > 0 && p.get_char(0) == '/'
}

/// `rel` appended to `base` the way `Path::join` does it: an absolute `rel` replaces `base`,
/// an empty `base` yields `rel`, otherwise a separator is put between the two unless `base`
/// already ends with one.
pub open spec fn spec_path_join(base: Seq<char>, rel: Seq<char>) -> Seq<char> {
    if spec_is_absolute(rel) {
        rel
    } else if base.len() == 0 {
        rel
    } else if base.last() == sep() {
        base + rel
    } else {
        base + seq![sep()] + rel
    }
}

/// Joins `rel` onto `base`.
pub fn path_join(base: &str, rel: &str) -> (r: String)
    ensures
        r@ == spec_path_join(base@, rel@),
{
    let rel_len = rel.unicode_len();
    if rel_len > 0 && rel.get_char(0) == '/' {
        return rel.to_owned();
    }
    let base_len = base.unicode_len();
    if base_len == 0 {
        rel.to_owned()
    } else if base.get_char(base_len - 1) == '/' {
        concat2(base, rel)
    } else {
        proof {
            reveal_strlit("/");
        }
        assert("/"@ =~= seq![sep()]);
        concat3(base, "/", rel)
    }
}

/// `p` without trailing separators, except that a lone root separator stays.
pub open spec fn spec_trim_trailing_separators(p: Seq<char>) -> Seq<char>
    decreases p.len(),
{
    if p.len() > 1 && p.last() == sep() {
        spec_trim_trailing_separators(p.drop_last())
    } else {
        p
    }
}

/// Position of the last `c` in `s`, or -1.
pub open spec fn last_index_of(s: Seq<char>, c: char) -> int
    decreases s.len(),
{
    if s.len() == 0 {
        -1
    } else if s.last() == c {
        s.len() - 1
    } else {
        last_index_of(s.drop_last(), c)
    }
}

/// The parent of a path, as `Path::parent` gives it for POSIX paths: the path without its
/// last component (and without the separators before it). The root and the empty path have
/// no parent.
pub open spec fn spec_parent(p: Seq<char>) -> Option<Seq<char>> {
    let q = spec_trim_trailing_separators(p);
    if q.len() == 0 || q == seq![sep()] {
        None
    } else {
        let i = last_index_of(q, sep());
        if i < 0 {
            Some(Seq::empty())
        } else if i == 0 {
            Some(seq![sep()])
        } else {
            Some(spec_trim_trailing_separators(q.subrange(0, i)))
        }
    }
}

/// The result of taking the parent `k` times.
pub open spec fn iterate_parent(p: Seq<char>, k: nat) -> Option<Seq<char>>
    decreases k,
{
    if k == 0 {
        Some(p)
    } else {
        match iterate_parent(p, (k - 1) as nat) {
            Some(q) => spec_parent(q),
            None => None,
        }
    }
}

/// `a` is reached from `p` by taking the parent one or more times.
pub open spec fn is_proper_ancestor(p: Seq<char>, a: Seq<char>) -> bool {
    exists|k: nat| k >= 1 && #[trigger] iterate_parent(p, k) == Some(a)
}

proof fn lemma_trim_trailing(p: Seq<char>)
    ensures
        spec_trim_trailing_separators(p).len() <= p.len(),
        p.len() > 0 ==> spec_trim_trailing_separators(p).len() > 0,
        p.len() > 0 ==> spec_trim_trailing_separators(p)[0] == p[0],
        spec_trim_trailing_separators(p) == p.subrange(0, spec_trim_trailing_separators(p).len() as int),
    decreases p.len(),
{
    if p.len() > 1 && p.last() == sep() {
        lemma_trim_trailing(p.drop_last());
        assert(p.drop_last().subrange(0, spec_trim_trailing_separators(p).len() as int) =~= p.subrange(
            0,
            spec_trim_trailing_separators(p).len() as int,
        ));
    } else {
        assert(p.subrange(0, p.len() as int) =~= p);
    }
}

/// The parent of a file name joined onto a directory is that directory, when the directory
/// does not end with a separator and the file name is a single component.
pub proof fn law_parent_of_joined_name(dir: Seq<char>, name: Seq<char>)
    requires
        dir.len() > 0,
        dir.last() != sep(),
        name.len() > 0,
        !name.contains(sep()),
    ensures
        spec_parent(spec_path_join(dir, name)) == Some(dir),
{
    let j = spec_path_join(dir, name);
    assert(!spec_is_absolute(name)) by {
        assert(!(name[0] == sep()) || name.contains(sep()));
    }
    assert(j == dir + seq![sep()] + name);
    assert(j.last() == name.last()) by {
        assert(name.contains(name.last()));
    }
    assert(spec_trim_trailing_separators(j) == j);
    assert(is_last_char(j, sep(), dir.len() as int)) by {
        assert forall|k: int| dir.len() < k < j.len() implies j[k] != sep() by {
            assert(j[k] == name[k - dir.len() - 1]);
        }
    }
    lemma_last_index_of(j, sep(), dir.len() as int);
    assert(j.subrange(0, dir.len() as int) =~= dir);
    assert(spec_trim_trailing_separators(dir) == dir);
    assert(j != seq![sep()]);
}

/// The last position of `c` found by a search is [`last_index_of`].
pub proof fn lemma_last_index_of(s: Seq<char>, c: char, i: int)
    requires
        is_last_char(s, c, i),
    ensures
        last_index_of(s, c) == i,
    decreases s.len(),
{
    if s.last() != c {
        assert(is_last_char(s.drop_last(), c, i));
        lemma_last_index_of(s.drop_last(), c, i);
    }
}

/// Without `c` in `s`, [`last_index_of`] is -1.
pub proof fn lemma_last_index_of_none(s: Seq<char>, c: char)
    requires
        forall|i: int| 0 <= i < s.len() ==> s[i] != c,
    ensures
        last_index_of(s, c) == -1,
    decreases s.len(),
{
    if s.len() > 0 {
        lemma_last_index_of_none(s.drop_last(), c);
    }
}

/// A parent is always shorter than the path itself.
pub proof fn lemma_parent_shorter(p: Seq<char>)
    ensures
        spec_parent(p) matches Some(q) ==> q.len() < p.len(),
{
    let q = spec_trim_trailing_separators(p);
    lemma_trim_trailing(p);
    if !(q.len() == 0 || q == seq![sep()]) {
        let i = last_index_of(q, sep());
        if i > 0 {
            lemma_last_index_bounds(q, sep());
            lemma_trim_trailing(q.subrange(0, i));
        } else if i == 0 {
            if q.len() <= 1 {
                assert(q =~= seq![sep()]) by {
                    lemma_last_index_bounds(q, sep());
                }
            }
        }
    }
}

/// [`last_index_of`] is -1 or a position of `c` in `s`.
pub proof fn lemma_last_index_bounds(s: Seq<char>, c: char)
    ensures
        -1 <= last_index_of(s, c) < s.len(),
        last_index_of(s, c) >= 0 ==> s[last_index_of(s, c)] == c,
    decreases s.len(),
{
    if s.len() > 0 && s.last() != c {
        lemma_last_index_bounds(s.drop_last(), c);
    }
}

/// Removes trailing separators (keeping a lone root separator).
pub fn trim_trailing_separators(p: &str) -> (r: &str)
    ensures
        r@ == spec_trim_trailing_separators(p@),
{
    let mut n = p.unicode_len();
    assert(p@.subrange(0, n as int) =~= p@);
    while n > 1 && p.get_char(n - 1) == '/'
        invariant
            n <= p@.len(),
            spec_trim_trailing_separators(p@) == spec_trim_trailing_separators(p@.subrange(0, n as int)),
        decreases n,
    {
        assert(p@.subrange(0, n as int).drop_last() =~= p@.subrange(0, n - 1));
        n = n - 1;
    }
    let r = p.substring_char(0, n);
    r
}

/// The parent path, if there is one.
pub fn parent(p: &str) -> (r: Option<String>)
    ensures
        match r {
            Some(q) => spec_parent(p@) == Some(q@),
            None => spec_parent(p@) is None,
        },
{
    let q = trim_trailing_separators(p);
    let n = q.unicode_len();
    if n == 0 || (n == 1 && q.get_char(0) == '/') {
        assert(n == 1 ==> q@ =~= seq![sep()]);
        return None;
    }
    assert(q@ != seq![sep()]) by {
        if q@ == seq![sep()] {
            assert(q@[0] == sep());
        }
    }
    match rfind_char(q, '/') {
        None => {
            proof {
                lemma_last_index_of_none(q@, sep());
            }
            Some(String::new())
        },
        Some(i) => {
            proof {
                lemma_last_index_of(q@, sep(), i as int);
            }
            if i == 0 {
                proof {
                    reveal_strlit("/");
                }
                assert("/"@ =~= seq![sep()]);
                Some("/".to_owned())
            } else {
                let head = q.substring_char(0, i);
                Some(trim_trailing_separators(head).to_owned())
            }
        },
    }
}

} // verus!
