//! A greeting service's core: the text of a greeting, the shared cell that
//! guards the greeting prefix, and the request handlers built on it.

pub mod cell;
pub mod config;
pub mod handlers;
pub mod history;
pub mod printer;
