//! A small JSON web service: two fixed endpoints, each answering with a
//! status/message object, and the route table that dispatches to them.

pub mod json;
pub mod service;

pub use json::{status_message_json, text_eq};
pub use service::{eavs, respond, root, Method, Response};
