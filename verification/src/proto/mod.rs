pub mod json;
pub mod v1;
pub mod response;
pub mod client_message;
pub mod render;
pub mod fmt_writer;
pub mod v1_ser;
pub mod error;
