//! Three-valued (SQL-style) boolean operators over a tagged runtime value.
pub mod evaluator;
pub mod laws;
pub mod logic;
pub mod operator;
pub mod value;
