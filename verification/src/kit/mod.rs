pub mod text;
pub mod astr;
pub mod certs;
