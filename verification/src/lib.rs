//! A lint rule that asks for the `**` operator in place of `Math.pow`, the
//! parenthesisation rules that keep its rewrite faithful to the program, and
//! the styled text in which its messages are shown.

pub mod engine;
pub mod grouping;
pub mod markup;
pub mod parens;
pub mod precedence;
pub mod rule;
pub mod semantic;
pub mod syntax;
