//! Paths as text, with `/` between their components.

use vstd::prelude::*;
use vstd::string::*;
use crate::text::{char_len, substring};

verus! {

/// The length of `s` without the run of `c` at its end.
pub open spec fn trimmed_len(s: Seq<char>, c: char) -> int
    decreases s.len(),
{
    if s.len() > 0 && s.last() == c {
        trimmed_len(s.drop_last(), c)
    } else {
        s.len() as int
    }
}

/// Where the run of characters other than `c` at the end of `s` begins.
pub open spec fn tail_start(s: Seq<char>, c: char) -> int
    decreases s.len(),
{
    if s.len() > 0 && s.last() != c {
        tail_start(s.drop_last(), c)
    } else {
        s.len() as int
    }
}

/// The directory that holds `path`: the path without its last component
/// and the separators around it. What lies directly under the root has the
/// root as its parent. A path without a component (the empty path, the root)
/// stays as it is.
pub open spec fn parent_dir(path: Seq<char>) -> Seq<char> {
    let end = trimmed_len(path, '/');
    let start = tail_start(path.subrange(0, end), '/');
    let cut = trimmed_len(path.subrange(0, start), '/');
    if start == end {
        path
    } else if cut == 0 && start > 0 {
        path.subrange(0, 1)
    } else {
        path.subrange(0, cut)
    }
}

/// A tail without `c` does not move where the last run begins.
pub proof fn lemma_tail_start_skips(head: Seq<char>, tail: Seq<char>, c: char)
    requires
        forall|i: int| 0 <= i < tail.len() ==> tail[i] != c,
    ensures
        tail_start(head + tail, c) == tail_start(head, c),
    decreases tail.len(),
{
    if tail.len() == 0 {
        assert(head + tail =~= head);
    } else {
        assert((head + tail).last() == tail.last());
        assert((head + tail).drop_last() =~= head + tail.drop_last());
        lemma_tail_start_skips(head, tail.drop_last(), c);
    }
}

/// The parent of `dir/name` is `dir`, and the parent of `/name` is the root.
pub proof fn lemma_parent_of_child(dir: Seq<char>, name: Seq<char>)
    requires
        name.len() > 0,
        forall|i: int| 0 <= i < name.len() ==> name[i] != '/',
        dir.len() > 0 ==> dir.last() != '/',
    ensures
        dir.len() > 0 ==> parent_dir(dir + seq!['/'] + name) == dir,
        dir.len() == 0 ==> parent_dir(dir + seq!['/'] + name) == seq!['/'],
{
    let head = dir + seq!['/'];
    let path = head + name;
    assert(path.last() == name.last());
    assert(trimmed_len(path, '/') == path.len());
    assert(path.subrange(0, path.len() as int) =~= path);
    lemma_tail_start_skips(head, name, '/');
    assert(head.last() == '/');
    assert(tail_start(head, '/') == head.len());
    assert(path.subrange(0, head.len() as int) =~= head);
    assert(head.drop_last() =~= dir);
    assert(trimmed_len(dir, '/') == dir.len());
    assert(trimmed_len(head, '/') == dir.len());
    if dir.len() > 0 {
        assert(path.subrange(0, dir.len() as int) =~= dir);
    } else {
        assert(path.subrange(0, 1) =~= seq!['/']);
    }
}

/// The length of the first `len` characters of `s` without the run of `c`
/// at their end.
fn trim_end(s: &str, len: usize, c: char) -> (n: usize)
    requires
        len <= s@.len(),
    ensures
        n == trimmed_len(s@.subrange(0, len as int), c),
        n <= len,
{
    let mut i: usize = len;
    while i > 0
        invariant
            i <= len <= s@.len(),
            trimmed_len(s@.subrange(0, len as int), c) == trimmed_len(s@.subrange(0, i as int), c),
        decreases i,
    {
        let ghost part = s@.subrange(0, i as int);
        assert(part.last() == s@[i - 1]);
        assert(part.drop_last() =~= s@.subrange(0, i - 1));
        if s.get_char(i - 1) != c {
            return i;
        }
        i -= 1;
    }
    i
}

/// Where the run of characters other than `c` at the end of the first `len`
/// characters of `s` begins.
fn find_tail(s: &str, len: usize, c: char) -> (n: usize)
    requires
        len <= s@.len(),
    ensures
        n == tail_start(s@.subrange(0, len as int), c),
        n <= len,
{
    let mut i: usize = len;
    while i > 0
        invariant
            i <= len <= s@.len(),
            tail_start(s@.subrange(0, len as int), c) == tail_start(s@.subrange(0, i as int), c),
        decreases i,
    {
        let ghost part = s@.subrange(0, i as int);
        assert(part.last() == s@[i - 1]);
        assert(part.drop_last() =~= s@.subrange(0, i - 1));
        if s.get_char(i - 1) == c {
            return i;
        }
        i -= 1;
    }
    i
}

/// The directory that holds `path`.
pub fn parent(path: &str) -> (dir: String)
    ensures
        dir@ == parent_dir(path@),
{
    let len = char_len(path);
    assert(path@.subrange(0, len as int) =~= path@);
    let end = trim_end(path, len, '/');
    let start = find_tail(path, end, '/');
    let cut = trim_end(path, start, '/');
    if start == end {
        String::from_str(path)
    } else if cut == 0 && start > 0 {
        substring(path, 0, 1)
    } else {
        substring(path, 0, cut)
    }
}

} // verus!
