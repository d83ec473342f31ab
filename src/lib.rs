//! A todo service: a flat collection of todos addressed by identifier, with
//! list, create, update and delete, and the mapping of its outcomes to
//! responses.

pub mod error;
pub mod handlers;
pub mod ids;
pub mod laws;
pub mod render;
pub mod store;
pub mod todo;
