//! An in-memory Todo collection with a JSON contract: building a todo from
//! untrusted JSON text, partial updates, and the store operations that an
//! HTTP front end maps requests onto.

pub mod json;
pub mod render;
pub mod todo;
pub mod store;
pub mod encode;
