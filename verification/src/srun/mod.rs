pub mod base64;
pub mod cipher;
pub mod client;
pub mod digest;
pub mod document;
pub mod envelope;
pub mod error;
pub mod flow;
pub mod interface;
pub mod reply;
pub mod response;
pub mod srbx1;
pub mod text;
pub mod words;
