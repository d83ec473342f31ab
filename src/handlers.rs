//! What each request makes of the document store's reply. The store itself
//! is reached outside the library; these take its reply as a value.

use vstd::prelude::*;
use crate::error::AppError;
use crate::store::NOT_FOUND_MESSAGE;
use crate::todo::Todo;

verus! {

/// The collection that todos are stored in.
pub const TODO_TABLE: &'static str = "todo";

/// The message of a create to which the store answered with no record.
pub const NO_RECORD_MESSAGE: &'static str = "the store created no record";

/// The todo that a create produced: the first record of the store's reply,
/// or a store error where the reply holds none.
pub fn created_todo(reply: Vec<Todo>) -> (r: Result<Todo, AppError>)
    ensures
        reply@.len() > 0 ==> r == Ok::<Todo, AppError>(reply@[0]),
        reply@.len() == 0 ==> r is Err && r->Err_0 is StoreError,
{
    let mut reply = reply;
    if reply.len() == 0 {
        Err(AppError::StoreError(String::from_str(NO_RECORD_MESSAGE)))
    } else {
        Ok(reply.swap_remove(0))
    }
}

/// The todo that an update or a delete of one identifier reached, or
/// `NotFound` where the store found none.
pub fn found_todo(reply: Option<Todo>) -> (r: Result<Todo, AppError>)
    ensures
        reply matches Some(t) ==> r == Ok::<Todo, AppError>(t),
        reply is None ==> r is Err && r->Err_0 is NotFound,
{
    match reply {
        Some(t) => Ok(t),
        None => Err(AppError::NotFound(String::from_str(NOT_FOUND_MESSAGE))),
    }
}

/// The contents of the todos, in their order.
pub fn contents(todos: &Vec<Todo>) -> (r: Vec<String>)
    ensures
        r@.len() == todos@.len(),
        forall|i: int| 0 <= i < todos@.len() ==> #[trigger] r@[i]@ == todos@[i].content@,
{
    let mut r: Vec<String> = Vec::new();
    let mut i: usize = 0;
    while i < todos.len()
        invariant
            i <= todos@.len(),
            r@.len() == i,
            forall|j: int| 0 <= j < i ==> #[trigger] r@[j]@ == todos@[j].content@,
        decreases todos@.len() - i,
    {
        r.push(todos[i].content.clone());
        i = i + 1;
    }
    r
}

} // verus!
