//! Error types shared by the parsing, I/O and transport layers of an HTTP client.
pub mod causes;
pub mod error;
