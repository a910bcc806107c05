//! A protocol-agnostic HTTP client model: requests are assembled by a fluent
//! builder, checked and laid out for the transport by a protocol, and the
//! transport's answer is gathered into a response with lazy text and JSON
//! views.  Network traffic is not performed here; the crate decides what is
//! sent and how an answer is read.

pub mod client;
pub mod error;
pub mod foreign;
pub mod protocol;
pub mod request;
pub mod response;
pub mod string_map;
pub mod text;
pub mod types;

pub use client::Client;
pub use error::{ClientError, Result};
pub use request::Request;
pub use response::Response;
