//! Character-level helpers on `&str`, proved against the sequence of
//! characters that a string stands for.

use vstd::prelude::*;
use vstd::string::*;

verus! {

/// The two halves of `line` around its first space: what stands before it and
/// what stands after it. `None` where `line` holds no space.
pub open spec fn split_at_space(line: Seq<char>) -> Option<(Seq<char>, Seq<char>)> {
    match line.index_of_first(' ') {
        Some(i) => Some((line.subrange(0, i), line.subrange(i + 1, line.len() as int))),
        None => None,
    }
}

/// Wherever a line is written as a space-free head, one space and a tail,
/// `split_at_space` gives back exactly that head and that tail.
pub proof fn lemma_split_at_space(head: Seq<char>, tail: Seq<char>)
    requires
        !head.contains(' '),
    ensures
        split_at_space(head + seq![' '] + tail) == Some((head, tail)),
{
    let line = head + seq![' '] + tail;
    let at = head.len() as int;
    assert(line[at] == ' ');
    line.index_of_first_ensures(' ');
    let found = line.index_of_first(' ').unwrap();
    if found < at {
        assert(head[found] == line[found]);
        assert(head.contains(' '));
    }
    assert(found == at);
    assert(line.subrange(0, at) =~= head);
    assert(line.subrange(at + 1, line.len() as int) =~= tail);
}

/// A line without a space has no halves.
pub proof fn lemma_split_needs_space(line: Seq<char>)
    ensures
        split_at_space(line) is None <==> !line.contains(' '),
{
    line.index_of_first_ensures(' ');
}

/// Whether two strings hold the same characters.
pub fn str_eq(a: &str, b: &str) -> (same: bool)
    ensures
        same == (a@ == b@),
{
    let n = a.unicode_len();
    if b.unicode_len() != n {
        return false;
    }
    let mut i: usize = 0;
    while i < n
        invariant
            i <= n,
            n == a@.len(),
            n == b@.len(),
            forall|j: int| 0 <= j < i ==> a@[j] == b@[j],
        decreases n - i,
    {
        if a.get_char(i) != b.get_char(i) {
            return false;
        }
        i = i + 1;
    }
    assert(a@ =~= b@);
    true
}

/// Whether `s` begins with the character `c`.
pub fn starts_with_char(s: &str, c: char) -> (found: bool)
    ensures
        found == (s@.len() > 0 && s@[0] == c),
{
    if s.is_empty() {
        false
    } else {
        s.get_char(0) == c
    }
}

/// Splits `line` at its first space.
pub fn split_once_space<'a>(line: &'a str) -> (halves: Option<(&'a str, &'a str)>)
    ensures
        match halves {
            Some((head, tail)) => split_at_space(line@) == Some((head@, tail@)),
            None => split_at_space(line@) is None,
        },
{
    let n = line.unicode_len();
    let mut i: usize = 0;
    for c in it: line.chars()
        invariant
            i == it.index(),
            it.seq() == line@,
            n == line@.len(),
            forall|j: int| 0 <= j < i ==> line@[j] != ' ',
    {
        if c == ' ' {
            proof {
                line@.index_of_first_ensures(' ');
                let found = line@.index_of_first(' ');
                assert(line@.contains(' '));
                assert(found == Some(i as int));
            }
            let head = line.substring_char(0, i);
            let tail = line.substring_char(i + 1, n);
            return Some((head, tail));
        }
        i = i + 1;
    }
    proof {
        line@.index_of_first_ensures(' ');
    }
    None
}

} // verus!
