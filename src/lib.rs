pub mod client;
pub mod error;
pub mod headers;
pub mod json;
pub mod request;
pub mod response;
