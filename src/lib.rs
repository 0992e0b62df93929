//! Small language-fundamentals exercises (mutability, shadowing, ownership
//! and integer literals), each one reduced to the text lines it prints, with
//! every line proved against a mathematical description of it.

pub mod decimal;
pub mod lines;
pub mod variables;
pub mod ownership;
pub mod data_types;
