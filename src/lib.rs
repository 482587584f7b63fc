//! Session management for a chat server's REST API: authentication state,
//! the login decision flow, room listings and the server's timestamp format.

pub mod auth;
pub mod catalog;
pub mod error;
pub mod json;
pub mod room;
pub mod session;
pub mod signal;
pub mod timestamp;
pub mod token_file;
