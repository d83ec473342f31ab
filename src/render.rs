//! Todos as JSON text: objects `{"content":...,"id":...}` and arrays of them.

use vstd::prelude::*;
use crate::todo::{Todo, TodoView, views};

verus! {

/// The JSON text of a string: the string quoted and escaped.
pub uninterp spec fn json_string_of(s: Seq<char>) -> Seq<char>;

/// Relies on serde_json's `Display` for `Value::String`: the compact JSON
/// encoding of the string, which depends on its characters alone.
#[verifier::external_body]
pub(crate) fn json_string(s: &str) -> (r: String)
    ensures
        r@ == json_string_of(s@),
{
    serde_json::Value::String(s.to_string()).to_string()
}

/// The JSON object of one todo.
pub open spec fn todo_json(t: TodoView) -> Seq<char> {
    "{\"content\":"@ + json_string_of(t.content) + ",\"id\":"@ + json_string_of(t.id) + "}"@
}

/// The JSON objects of `s`, separated by commas.
pub open spec fn items_json(s: Seq<TodoView>) -> Seq<char>
    decreases s.len(),
{
    if s.len() == 0 {
        Seq::empty()
    } else if s.len() == 1 {
        todo_json(s[0])
    } else {
        items_json(s.drop_last()) + ","@ + todo_json(s.last())
    }
}

/// The JSON array of the todos of `s`.
pub open spec fn list_json(s: Seq<TodoView>) -> Seq<char> {
    "["@ + items_json(s) + "]"@
}

/// The JSON object of a todo, given the JSON texts of its content and its
/// identifier.
pub fn frame_todo(content_json: &str, id_json: &str) -> (r: String)
    ensures
        r@ == "{\"content\":"@ + content_json@ + ",\"id\":"@ + id_json@ + "}"@,
{
    let mut r = String::from_str("{\"content\":");
    r.append(content_json);
    r.append(",\"id\":");
    r.append(id_json);
    r.append("}");
    r
}

impl Todo {
    /// This todo as a JSON object.
    pub fn to_json(&self) -> (r: String)
        ensures
            r@ == todo_json(self@),
    {
        let c = json_string(self.content.as_str());
        let i = json_string(self.id.as_str());
        frame_todo(c.as_str(), i.as_str())
    }
}

/// The todos as a JSON array, in their order.
pub fn todos_to_json(todos: &Vec<Todo>) -> (r: String)
    ensures
        r@ == list_json(views(todos@)),
{
    let mut acc = String::new();
    let mut i: usize = 0;
    while i < todos.len()
        invariant
            i <= todos@.len(),
            acc@ == items_json(views(todos@).subrange(0, i as int)),
        decreases todos@.len() - i,
    {
        let ghost prefix = views(todos@).subrange(0, i as int);
        let ghost next = views(todos@).subrange(0, i as int + 1);
        assert(next.drop_last() =~= prefix);
        assert(next.last() == todos@[i as int]@);
        let item = todos[i].to_json();
        if i > 0 {
            acc.append(",");
        } else {
            assert(prefix.len() == 0);
            assert(acc@ =~= Seq::<char>::empty());
        }
        acc.append(item.as_str());
        assert(acc@ =~= items_json(next));
        i = i + 1;
    }
    assert(views(todos@).subrange(0, i as int) =~= views(todos@));
    let mut r = String::from_str("[");
    r.append(acc.as_str());
    r.append("]");
    r
}

} // verus!
