//! The token trees the parser reads, as the host tokenizer hands them over.
use vstd::prelude::*;

verus! {

/// The bracket pair around a group of tokens.
#[derive(Debug, Clone, Copy, PartialEq, Eq, Structural)]
pub enum Delimiter {
    /// `( ... )`
    Parenthesis,
    /// `[ ... ]`
    Bracket,
    /// `{ ... }`
    Brace,
}

/// Whether a punctuation character is followed at once by another one.
#[derive(Debug, Clone, Copy, PartialEq, Eq, Structural)]
pub enum Spacing {
    Alone,
    Joint,
}

/// One token tree: a delimited group, an identifier, a punctuation
/// character or a literal, with the literal's source text kept verbatim.
#[derive(Debug)]
pub enum TokenTree {
    Group(Delimiter, Vec<TokenTree>),
    Ident(String),
    Punct(char, Spacing),
    Literal(String),
}

} // verus!
