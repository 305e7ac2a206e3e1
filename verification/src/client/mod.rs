pub mod xfer;
pub mod defines;
pub mod worker;
pub mod frames;
pub mod endpoint;
pub mod laws;
