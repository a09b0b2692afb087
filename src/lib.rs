//! A parser for single text lines that carry a `RETRIEVE` or `PUBLISH`
//! command, with the laws it obeys proved alongside.

pub mod laws;
pub mod parser;
pub mod text;
pub mod types;

pub use parser::{parse, parse_with_prefix, MIN_INPUT_BYTES};
pub use types::{Command, Package, ParseError};
