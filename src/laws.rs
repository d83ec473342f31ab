//! What holds of the store's operations taken together, stated over the
//! sequences of todos that their contracts speak of.

use vstd::prelude::*;
use crate::store::{distinct_ids, has_id, position, with_content, without};
use crate::todo::TodoView;

verus! {

/// `position` finds the one todo with the identifier.
pub proof fn lemma_position(s: Seq<TodoView>, id: Seq<char>)
    requires
        has_id(s, id),
    ensures
        0 <= position(s, id) < s.len(),
        s[position(s, id)].id == id,
        distinct_ids(s) ==> forall|j: int| 0 <= j < s.len() && #[trigger] s[j].id == id ==> j
            == position(s, id),
{
}

/// A todo added under a fresh identifier is the one todo with it, and
/// identifiers stay distinct.
pub proof fn lemma_create_fresh(s: Seq<TodoView>, t: TodoView)
    requires
        distinct_ids(s),
        !has_id(s, t.id),
    ensures
        distinct_ids(s.push(t)),
        has_id(s.push(t), t.id),
        position(s.push(t), t.id) == s.len(),
        s.push(t).last() == t,
{
    let u = s.push(t);
    assert(u[s.len() as int].id == t.id);
    lemma_position(u, t.id);
}

/// Updating a known identifier changes the content of that todo alone: its
/// identifier, its place and every other todo stay as they were.
pub proof fn lemma_update_only_that_record(s: Seq<TodoView>, id: Seq<char>, content: Seq<char>)
    requires
        distinct_ids(s),
        has_id(s, id),
    ensures
        with_content(s, id, content).len() == s.len(),
        distinct_ids(with_content(s, id, content)),
        has_id(with_content(s, id, content), id),
        position(with_content(s, id, content), id) == position(s, id),
        with_content(s, id, content)[position(s, id)] == (TodoView { id, content }),
        forall|j: int|
            0 <= j < s.len() && j != position(s, id) ==> #[trigger] with_content(s, id, content)[j]
                == s[j],
{
    lemma_position(s, id);
    let p = position(s, id);
    let u = with_content(s, id, content);
    assert forall|i: int, j: int|
        0 <= i < u.len() && 0 <= j < u.len() && #[trigger] u[i].id == #[trigger] u[j].id implies i
            == j by {
        assert(u[i].id == s[i].id);
        assert(u[j].id == s[j].id);
    }
    assert(u[p].id == id);
    lemma_position(u, id);
}

/// Deleting a known identifier leaves no todo with it (so a second delete of
/// it finds nothing), keeps identifiers distinct and keeps every other todo.
pub proof fn lemma_delete_removes(s: Seq<TodoView>, id: Seq<char>)
    requires
        distinct_ids(s),
        has_id(s, id),
    ensures
        without(s, id).len() == s.len() - 1,
        !has_id(without(s, id), id),
        distinct_ids(without(s, id)),
        forall|x: Seq<char>| x != id && has_id(s, x) ==> has_id(without(s, id), x),
{
    lemma_position(s, id);
    let p = position(s, id);
    let u = without(s, id);
    assert forall|j: int| 0 <= j < u.len() implies u[j].id != id by {
        let o = if j < p { j } else { j + 1 };
        assert(u[j] == s[o]);
    }
    assert forall|i: int, j: int|
        0 <= i < u.len() && 0 <= j < u.len() && #[trigger] u[i].id == #[trigger] u[j].id implies i
            == j by {
        let oi = if i < p { i } else { i + 1 };
        let oj = if j < p { j } else { j + 1 };
        assert(u[i] == s[oi]);
        assert(u[j] == s[oj]);
    }
    assert forall|x: Seq<char>| x != id && has_id(s, x) implies has_id(without(s, id), x) by {
        let k = choose|k: int| 0 <= k < s.len() && #[trigger] s[k].id == x;
        assert(k != p);
        let j = if k < p { k } else { k - 1 };
        assert(u[j] == s[k]);
    }
}

/// Creating a todo under a fresh identifier, updating it and deleting it
/// leaves the collection as it was.
pub proof fn lemma_round_trip(
    s: Seq<TodoView>,
    id: Seq<char>,
    content: Seq<char>,
    new_content: Seq<char>,
)
    requires
        distinct_ids(s),
        !has_id(s, id),
    ensures
        without(with_content(s.push(TodoView { id, content }), id, new_content), id) == s,
{
    let t = TodoView { id, content };
    lemma_create_fresh(s, t);
    let u = s.push(t);
    lemma_update_only_that_record(u, id, new_content);
    let w = with_content(u, id, new_content);
    assert(position(w, id) == s.len());
    assert(without(w, id) =~= s);
}

} // verus!
