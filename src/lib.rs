//! Request routing and resource operations for a small todo-item HTTP service.

pub mod sanitize;
pub mod route;
pub mod store;
pub mod json;
pub mod handler;
pub mod laws;
pub mod body;
