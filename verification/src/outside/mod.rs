//! The outside functions that the library calls, and what it takes them to do.

pub mod base64_text;
pub mod buffers;
pub mod http_text;
pub mod json;
pub mod random_id;
pub mod web_address;
