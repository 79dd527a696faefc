//! A Reverse Polish Notation calculator over 32-bit signed integers.
//!
//! A formula is a line of text whose tokens are separated by whitespace:
//! integer literals and the operators `+ - * / %`. Evaluation is a single
//! left-to-right scan over an operand stack; it yields one integer or an
//! error that names the kind of fault and the 1-based position of the token
//! at which it was found.

pub mod arith;
pub mod calculator;
pub mod error;
pub mod laws;
pub mod lexer;
pub mod machine;
pub mod number;
pub mod token;
pub mod trace;

pub use calculator::{Evaluation, RpnCalculator};
pub use error::EvalError;
pub use trace::TraceEntry;
