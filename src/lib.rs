//! The message layer of a small web server: a request parser, a response
//! model with its wire format, and the dispatch rule that picks a handler.

pub mod headers;
pub mod request;
pub mod response;
pub mod router;
pub mod server;
pub mod text;
