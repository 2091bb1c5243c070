//! The lexical and syntactic front end of a small statically typed language:
//! source text to tokens, tokens to a syntax tree.
//!
//! - [`charset`] and [`text`]: character classes, and text as sequences of
//!   characters.
//! - [`tokens`]: the tokens, their spellings, and the table from spellings
//!   back to tokens under a lexical context.
//! - [`tokenizer`]: the lexical rules and the cursor that follows them.
//! - [`lexer`]: source positions, and the tokenizer with one token of
//!   lookahead that the parser reads from.
//! - [`nodes`]: the syntax tree.
//! - [`grammar`] and [`parser`]: the rules of the grammar, and the parser
//!   that follows them.
//! - [`syntax_errors`]: diagnostics.
//! - [`values`], [`scopes`] and [`interpreter`]: the evaluator's values, its
//!   scopes of names, and the evaluator itself.
//!
//! Contracts speak of mathematical values: every type that the functions
//! take or return has a view, and every rule of the lexer and of the grammar
//! is a function on such values that the code is proved to compute.

pub mod charset;
pub mod grammar;
pub mod interpreter;
pub mod lexer;
pub mod nodes;
pub mod parser;
pub mod scopes;
pub mod syntax_errors;
pub mod text;
pub mod tokenizer;
pub mod tokens;
pub mod values;
