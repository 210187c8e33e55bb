//! Client-side core of a remote processing service: the wire schema, its
//! encoding and strict decoding, and the decisions taken around one HTTP
//! exchange (credential header, endpoint, status interpretation).
pub mod text;
pub mod model;
pub mod json;
pub mod codec;
pub mod client;
