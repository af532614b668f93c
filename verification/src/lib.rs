//! A Firebase REST client whose request building, reply interpretation and
//! paging decisions are verified; the transport that sends requests lives
//! outside the library.

pub mod text;
pub mod json;
pub mod http;
pub mod firestore;
pub mod paging;
pub mod auth;
pub mod client;
pub mod cli;
pub mod laws;
