pub mod error;
pub mod defines;
pub mod client;
pub mod demo;
pub mod host_view;
pub mod hearing;
pub mod laws;
