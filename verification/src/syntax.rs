//! The two questions about Rust syntax that reading the notation asks.
use vstd::prelude::*;

use crate::outside::{
    syn_parses_expression, syn_parses_identifier, syn_reads_expression, syn_reads_identifier,
};

verus! {

/// Judges pieces of source text: whether a run of tokens is one Rust
/// expression, and whether a word may stand as an identifier.
pub trait RustSyntax {
    spec fn accepts_expression(&self, text: Seq<char>) -> bool;

    spec fn accepts_identifier(&self, text: Seq<char>) -> bool;

    fn is_expression(&self, text: &str) -> (r: bool)
        ensures
            r == self.accepts_expression(text@),
    ;

    fn is_identifier(&self, text: &str) -> (r: bool)
        ensures
            r == self.accepts_identifier(text@),
    ;
}

/// Rust syntax as the `syn` crate reads it.
#[derive(Clone, Copy, Debug)]
pub struct Syn;

impl RustSyntax for Syn {
    open spec fn accepts_expression(&self, text: Seq<char>) -> bool {
        syn_reads_expression(text)
    }

    open spec fn accepts_identifier(&self, text: Seq<char>) -> bool {
        syn_reads_identifier(text)
    }

    fn is_expression(&self, text: &str) -> (r: bool) {
        syn_parses_expression(text)
    }

    fn is_identifier(&self, text: &str) -> (r: bool) {
        syn_parses_identifier(text)
    }
}

} // verus!
