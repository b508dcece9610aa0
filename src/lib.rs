//! Credential resolution, request construction and response classification
//! for a command-line client of a web reading and searching service.
pub mod api;
pub mod credential;
pub mod dispatch;
pub mod error;
pub mod text;
