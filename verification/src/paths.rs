//! Paths as the editor's settings name them: text cut at `/`.
//!
//! Two paths name the same place when they agree on being rooted and on their
//! components, where an empty component (a doubled or trailing `/`) and a
//! component `.` name nothing.

use vstd::prelude::*;
use crate::text::{chars_of, same_chars};

verus! {

/// The components so far, with the pending one added unless it names nothing.
pub open spec fn close(done: Seq<Seq<char>>, pending: Seq<char>) -> Seq<Seq<char>> {
    if pending.len() == 0 || pending == seq!['.'] {
        done
    } else {
        done.push(pending)
    }
}

/// Reading `path` from the left: the components that a `/` has ended, and the
/// characters read since the last `/`.
pub open spec fn scan(path: Seq<char>) -> (Seq<Seq<char>>, Seq<char>)
    decreases path.len(),
{
    if path.len() == 0 {
        (Seq::empty(), Seq::empty())
    } else {
        let before = scan(path.drop_last());
        if path.last() == '/' {
            (close(before.0, before.1), Seq::empty())
        } else {
            (before.0, before.1.push(path.last()))
        }
    }
}

/// The components of a path that name something, in order.
pub open spec fn components(path: Seq<char>) -> Seq<Seq<char>> {
    close(scan(path).0, scan(path).1)
}

/// Whether a path starts at the root.
pub open spec fn is_rooted(path: Seq<char>) -> bool {
    path.len() > 0 && path[0] == '/'
}

/// Whether two paths name the same place.
pub open spec fn same_place(a: Seq<char>, b: Seq<char>) -> bool {
    is_rooted(a) == is_rooted(b) && components(a) == components(b)
}

/// The rows of a table of characters.
pub open spec fn rows(table: Seq<Vec<char>>) -> Seq<Seq<char>> {
    table.map_values(|row: Vec<char>| row@)
}

/// Adds the pending component to the components so far, unless it names
/// nothing.
fn close_pending(done: &mut Vec<Vec<char>>, pending: Vec<char>)
    ensures
        rows(final(done)@) == close(rows(old(done)@), pending@),
{
    if pending.len() == 0 || (pending.len() == 1 && pending[0] == '.') {
        assert(pending@.len() == 1 ==> pending@ =~= seq!['.']);
    } else {
        done.push(pending);
    }
}

/// The components of a path that name something, in order.
pub fn path_components(path: &str) -> (r: Vec<Vec<char>>)
    ensures
        rows(r@) == components(path@),
{
    let chars = chars_of(path);
    let mut done: Vec<Vec<char>> = Vec::new();
    let mut pending: Vec<char> = Vec::new();
    let mut i: usize = 0;
    while i < chars.len()
        invariant
            i <= chars.len(),
            chars@ == path@,
            (rows(done@), pending@) == scan(chars@.subrange(0, i as int)),
        decreases chars.len() - i,
    {
        assert(chars@.subrange(0, i as int + 1).drop_last() =~= chars@.subrange(0, i as int));
        let c = chars[i];
        if c == '/' {
            close_pending(&mut done, pending);
            pending = Vec::new();
        } else {
            pending.push(c);
        }
        i += 1;
    }
    assert(chars@.subrange(0, i as int) =~= path@);
    close_pending(&mut done, pending);
    done
}

/// Whether two tables of characters have the same rows.
fn same_rows(a: &Vec<Vec<char>>, b: &Vec<Vec<char>>) -> (r: bool)
    ensures
        r == (rows(a@) == rows(b@)),
{
    if a.len() != b.len() {
        return false;
    }
    let mut i: usize = 0;
    while i < a.len()
        invariant
            i <= a.len(),
            a.len() == b.len(),
            forall|j: int| 0 <= j < i ==> a@[j]@ == b@[j]@,
        decreases a.len() - i,
    {
        if !same_chars(&a[i], &b[i]) {
            assert(rows(a@)[i as int] != rows(b@)[i as int]);
            return false;
        }
        i += 1;
    }
    assert(rows(a@) =~= rows(b@));
    true
}

/// Whether two paths name the same place.
pub fn same_path(a: &str, b: &str) -> (r: bool)
    ensures
        r == same_place(a@, b@),
{
    let a_chars = chars_of(a);
    let b_chars = chars_of(b);
    let a_rooted = a_chars.len() > 0 && a_chars[0] == '/';
    let b_rooted = b_chars.len() > 0 && b_chars[0] == '/';
    if a_rooted != b_rooted {
        return false;
    }
    let a_parts = path_components(a);
    let b_parts = path_components(b);
    same_rows(&a_parts, &b_parts)
}

/// A path names the same place as itself.
pub proof fn lemma_same_place_reflexive(a: Seq<char>)
    ensures
        same_place(a, a),
{
}

/// Naming the same place goes both ways and carries over a third path.
pub proof fn lemma_same_place_equivalence(a: Seq<char>, b: Seq<char>, c: Seq<char>)
    ensures
        same_place(a, b) ==> same_place(b, a),
        same_place(a, b) && same_place(b, c) ==> same_place(a, c),
{
}

} // verus!
