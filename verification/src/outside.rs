//! What the library takes from `syn` and from the standard library.
use vstd::prelude::*;

verus! {

/// Whether `syn` reads the whole text as one Rust expression.
pub uninterp spec fn syn_reads_expression(text: Seq<char>) -> bool;

/// Whether `syn` reads the whole text as one identifier that is not a reserved word.
pub uninterp spec fn syn_reads_identifier(text: Seq<char>) -> bool;

/// Whether a character has the Unicode `Uppercase` property.
pub uninterp spec fn is_uppercase_char(c: char) -> bool;

/// Calls `syn::parse_str::<syn::Expr>` and reports whether it succeeded. The
/// contract names the outcome and says nothing more of it.
#[verifier::external_body]
pub(crate) fn syn_parses_expression(text: &str) -> (r: bool)
    ensures
        r == syn_reads_expression(text@),
{
    syn::parse_str::<syn::Expr>(text).is_ok()
}

/// Calls `syn::parse_str::<syn::Ident>` and reports whether it succeeded:
/// `syn` refuses the reserved words of Rust there. The contract names the
/// outcome and says nothing more of it.
#[verifier::external_body]
pub(crate) fn syn_parses_identifier(text: &str) -> (r: bool)
    ensures
        r == syn_reads_identifier(text@),
{
    syn::parse_str::<syn::Ident>(text).is_ok()
}

/// Calls `char::is_uppercase`. Its documentation ties it to the Unicode
/// `Uppercase` property; within ASCII that holds of `A` to `Z` and of nothing
/// else, which the contract states.
#[verifier::external_body]
pub(crate) fn char_is_uppercase(c: char) -> (r: bool)
    ensures
        r == is_uppercase_char(c),
        ('A' <= c && c <= 'Z') ==> r,
        ((c as u32) < 128 && !('A' <= c && c <= 'Z')) ==> !r,
{
    c.is_uppercase()
}

/// Calls `String::push`, which appends one character.
#[verifier::external_body]
pub(crate) fn push_char(s: &mut String, c: char)
    ensures
        final(s)@ == old(s)@.push(c),
{
    s.push(c)
}

} // verus!
