pub mod ast;
pub mod display;
pub mod expr;
pub mod item;
pub mod lits;
pub mod macaroni;
pub mod pat;
pub mod token;
pub mod types;
