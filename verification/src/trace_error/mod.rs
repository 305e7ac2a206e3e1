pub mod rewrite;
pub mod eval;
pub mod select;
