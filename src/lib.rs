//! An S-expression front end that turns Lisp-like forms into Rust source text.
//!
//! Token trees are read into `LispExpr` trees (`parse`), and each tree is
//! expanded into the text of an equivalent Rust expression (`expand`, with
//! the text of each special form put together in `assemble`), by the rules
//! of the operation table (`table`) and of the generated text (`code`).
//! `entry` holds the two whole-invocation entry points, with the capture
//! form. `laws` proves properties of reading and expansion; `shell` and
//! `demo` hold the decisions of the demonstration shell.

pub mod assemble;
pub mod code;
pub mod demo;
pub mod entry;
pub mod expand;
pub mod expr;
pub mod laws;
pub mod parse;
pub mod shell;
pub mod table;
pub mod text;
pub mod token;

pub use entry::{lisp, lisp_fn, LispError};
pub use expand::ExpansionError;
pub use expr::LispExpr;
pub use parse::{parse_expr, SyntaxError, SyntaxErrorKind};
pub use table::Shape;
pub use token::{Delimiter, Spacing, TokenTree};
