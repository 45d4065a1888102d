//! Typed client core for the Best Buy Canada marketplace REST API: request
//! construction, response decoding and retry classification. The library
//! performs no I/O; a transport sends the requests it builds and hands back
//! the responses it decodes.

pub mod client;
pub mod order;
pub mod response;
pub mod result;
pub mod text;
