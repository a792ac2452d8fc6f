//! A declarative notation for Discord message components, expanded into
//! constructor expressions of `twilight_model` types.
//!
//! ```text
//! Container { color: 0xFF0000 } [
//!     Text("Welcome!"),
//!     Separator,
//!     Row [ Button { style: Primary, label: "OK", custom_id: "ok" } ],
//! ]
//! ```
//!
//! Braces hold properties, brackets hold children, and parentheses hold a
//! shorthand for a component's primary field.

pub mod ast;
pub mod constructed;
pub mod emit;
pub mod expand;
pub mod field_laws;
pub mod generate;
pub mod laws;
pub mod outside;
pub mod parse;
pub mod syntax;
pub mod tokens;

use vstd::prelude::*;

use crate::expand::{
    compile_error_tokens, component_expansion, components_expansion, error_message,
    expand_component_tokens, expand_components_tokens,
};
use crate::parse::{read_component, read_components};
use crate::syntax::Syn;
use crate::tokens::{toks, TokenTree};

verus! {

/// Expands one component: the tokens of the `twilight_model` constructor
/// expression that `input` describes, or of a `compile_error!` call that
/// says why `input` could not be read.
pub fn component(input: &Vec<TokenTree>) -> (r: Vec<TokenTree>)
    ensures
        match read_component(Syn, toks(*input)) {
            Ok(n) => toks(r) == component_expansion(n),
            Err(e) => toks(r) == compile_error_tokens(error_message(e)),
        },
{
    expand_component_tokens(&Syn, input)
}

/// Expands a comma-separated list of components into an array of their
/// constructor expressions, or into a `compile_error!` call that says why
/// `input` could not be read.
pub fn components(input: &Vec<TokenTree>) -> (r: Vec<TokenTree>)
    ensures
        match read_components(Syn, toks(*input), 0) {
            Ok(ns) => toks(r) == components_expansion(ns),
            Err(e) => toks(r) == compile_error_tokens(error_message(e)),
        },
{
    expand_components_tokens(&Syn, input)
}

} // verus!
