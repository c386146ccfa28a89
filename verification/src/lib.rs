//! The core of an electrical calculation wizard: Ohm's-law completion and
//! series voltage-divider analysis, over quantities that carry an asymmetric
//! tolerance in percent.
//!
//! The library decides *what* is computed. Every number in it is an
//! [`expr::Expr`]: the literals that a user typed, combined by the
//! arithmetic that leads to the result. To turn such an expression into a
//! machine number, and a number into text, is left to the caller.
//!
//! - [`parser`] splits the text of a field into tokens;
//! - [`types`] reads a field as a quantity, and combines quantities and
//!   their tolerances;
//! - [`ohm_law`] and [`voltage_divider`] are the two scenes: each takes the
//!   edits of its fields and solves for what is not given;
//! - [`table`] lays out what a scene shows;
//! - [`help`] and [`shell`] hold the help page and the switch between the
//!   scenes;
//! - [`exact`] says what the formulas are worth in exact arithmetic.

pub mod exact;
pub mod expr;
pub mod help;
pub mod ohm_law;
pub mod parser;
pub mod shell;
pub mod table;
pub mod text;
pub mod types;
pub mod voltage_divider;
