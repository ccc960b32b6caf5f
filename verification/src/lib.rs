//! Lexical token model for a small C-like language: the closed vocabulary of
//! token kinds, rendering of each token back to its canonical source text, and
//! classification of identifier-shaped words as reserved keywords.

pub mod text;
pub mod token;
