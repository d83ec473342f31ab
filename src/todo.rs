//! The one record of the service: an identifier and a text.

use vstd::prelude::*;

verus! {

/// A todo: `id` is assigned by the store when the record is created and never
/// changes; `content` is the text, replaced wholesale on update.
#[derive(Debug, Clone, PartialEq, Eq)]
pub struct Todo {
    pub id: String,
    pub content: String,
}

/// What a todo holds, as sequences of characters.
pub struct TodoView {
    pub id: Seq<char>,
    pub content: Seq<char>,
}

impl View for Todo {
    type V = TodoView;

    open spec fn view(&self) -> TodoView {
        TodoView { id: self.id@, content: self.content@ }
    }
}

/// The views of a sequence of todos, one for one.
pub open spec fn views(s: Seq<Todo>) -> Seq<TodoView> {
    s.map_values(|t: Todo| t@)
}

impl Todo {
    pub fn new(id: String, content: String) -> (r: Todo)
        ensures
            r.id == id,
            r.content == content,
    {
        Todo { id, content }
    }

    /// A copy of this todo, field by field.
    pub fn duplicate(&self) -> (r: Todo)
        ensures
            r == *self,
    {
        Todo { id: self.id.clone(), content: self.content.clone() }
    }
}

} // verus!
