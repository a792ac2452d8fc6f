//! Reading the notation from token trees.
//!
//! The grammar, one component at a time:
//!
//! ```text
//! component  := Name ( '(' expression ')' )? ( '{' properties '}' )? ( '[' components ']' )?
//! properties := ( property ( ',' property )* ','? )?
//! property   := key ':' ( component | expression )
//! components := ( component ( ',' component )* ','? )?
//! ```
//!
//! A property's value is read as a component when it starts with a capitalised
//! identifier (other than the names of common standard types and constructors)
//! followed by a group; otherwise it is the shortest run of tokens that ends at
//! a comma or at the end and that `syn` reads as one Rust expression.
//!
//! Where the grammar looks at a name, a key, a `:`, a `,` or a group, an
//! invisible group that holds one token tree (as macro expansion makes of a
//! single captured token) is read as that tree. An invisible group of several
//! trees (as macro expansion makes of a captured expression) standing where a
//! component may stand holds one whole component; as a property's value, it
//! is read as a component when its own tokens start one, and is otherwise one
//! expression, kept with its group.
use vstd::prelude::*;

use crate::ast::{
    kind_named, lemma_view_nodes, lemma_view_props, view_node, view_nodes, view_prop,
    view_props, ComponentKind, ComponentNode, NodeV, PropV, Property, PropertyValue, ValueV,
};
use crate::outside::{char_is_uppercase, is_uppercase_char};
use crate::syntax::RustSyntax;
use crate::tokens::{
    bare, bare_token, clone_trees, lemma_bare_group, is_group, is_punct, lemma_view_trees, lemma_view_trees_subrange, render,
    render_trees, same_text, toks, Delimiter, Tok, TokenTree,
};

verus! {

broadcast use {lemma_view_trees, lemma_view_props, lemma_view_nodes};

/// What went wrong when a piece of notation could not be read.
#[derive(Debug)]
pub enum ParseErrorKind {
    /// A component name or a property key is missing, or is a reserved word.
    ExpectedIdentifier,
    /// The name of a component is not one that the notation knows.
    UnknownComponent(String),
    /// A property key is not followed by `:`.
    ExpectedColon,
    /// Something other than `,` follows a property or a component in a list.
    ExpectedComma,
    /// A shorthand or a property value is not a Rust expression.
    ExpectedExpression,
    /// Tokens are left over after the one component that was expected.
    UnexpectedToken,
}

/// Why a piece of notation could not be read, and where.
///
/// `at` leads to the offending token: its first index is a position in the
/// tokens that were read, and each further index a position inside the group
/// that the previous one names (looking through an invisible group that holds
/// one token tree, as the grammar does). The last index may be the length of
/// its sequence: the error is then at the end of those tokens.
#[derive(Debug)]
pub struct ParseError {
    pub kind: ParseErrorKind,
    pub at: Vec<usize>,
}

/// The mathematical value of a `ParseErrorKind`.
pub enum ErrorKindV {
    ExpectedIdentifier,
    UnknownComponent(Seq<char>),
    ExpectedColon,
    ExpectedComma,
    ExpectedExpression,
    UnexpectedToken,
}

/// The mathematical value of a `ParseError`.
pub struct ParseErrorV {
    pub kind: ErrorKindV,
    pub at: Seq<int>,
}

impl View for ParseErrorKind {
    type V = ErrorKindV;

    open spec fn view(&self) -> ErrorKindV {
        match self {
            ParseErrorKind::ExpectedIdentifier => ErrorKindV::ExpectedIdentifier,
            ParseErrorKind::UnknownComponent(s) => ErrorKindV::UnknownComponent(s@),
            ParseErrorKind::ExpectedColon => ErrorKindV::ExpectedColon,
            ParseErrorKind::ExpectedComma => ErrorKindV::ExpectedComma,
            ParseErrorKind::ExpectedExpression => ErrorKindV::ExpectedExpression,
            ParseErrorKind::UnexpectedToken => ErrorKindV::UnexpectedToken,
        }
    }
}

pub open spec fn positions(at: Seq<usize>) -> Seq<int> {
    at.map_values(|x: usize| x as int)
}

impl View for ParseError {
    type V = ParseErrorV;

    open spec fn view(&self) -> ParseErrorV {
        ParseErrorV { kind: self.kind@, at: positions(self.at@) }
    }
}

/// An error of kind `kind` at position `i` of the tokens being read.
pub open spec fn fail(kind: ErrorKindV, i: int) -> ParseErrorV {
    ParseErrorV { kind, at: seq![i] }
}

/// An error found inside the group at position `j`.
pub open spec fn inside(e: ParseErrorV, j: int) -> ParseErrorV {
    ParseErrorV { kind: e.kind, at: seq![j] + e.at }
}

/// Names of standard types and constructors that never start a component.
pub open spec fn is_std_name(name: Seq<char>) -> bool {
    ||| name == "Some"@
    ||| name == "None"@
    ||| name == "Ok"@
    ||| name == "Err"@
    ||| name == "Box"@
    ||| name == "Vec"@
    ||| name == "String"@
    ||| name == "Arc"@
    ||| name == "Rc"@
    ||| name == "Cell"@
    ||| name == "RefCell"@
    ||| name == "Mutex"@
    ||| name == "RwLock"@
    ||| name == "Option"@
    ||| name == "Result"@
}

/// Whether a character counts as a capital letter: `A` to `Z` within ASCII,
/// and beyond it, whatever has the Unicode `Uppercase` property.
pub open spec fn is_capital(c: char) -> bool {
    if (c as u32) < 128 {
        'A' <= c && c <= 'Z'
    } else {
        is_uppercase_char(c)
    }
}

/// Whether the value that starts at `i` is read as a nested component: a
/// capitalised identifier, other than a standard name, followed by a group;
/// or an invisible group whose own tokens start that way.
pub open spec fn starts_component<S: RustSyntax>(syn: S, ts: Seq<Tok>, i: int) -> bool
    decreases ts,
{
    if 0 <= i < ts.len() {
        match bare(ts[i]) {
            Tok::Group(Delimiter::Invisible, inner) => {
                proof {
                    lemma_bare_group(ts[i]);
                }
                starts_component(syn, inner, 0)
            },
            Tok::Ident(name) => {
                &&& i + 1 < ts.len()
                &&& syn.accepts_identifier(name)
                &&& name.len() > 0
                &&& is_capital(name[0])
                &&& !is_std_name(name)
                &&& (is_group(bare(ts[i + 1]), Delimiter::Parenthesis) || is_group(
                    bare(ts[i + 1]),
                    Delimiter::Brace,
                ) || is_group(bare(ts[i + 1]), Delimiter::Bracket))
            },
            _ => false,
        }
    } else {
        false
    }
}

/// Whether position `e` may end an expression: the end of the tokens, or a comma.
pub open spec fn ends_expression(ts: Seq<Tok>, e: int) -> bool {
    e == ts.len() || (0 <= e < ts.len() && is_punct(bare(ts[e]), ','))
}

/// The first end `e`, from `e` on, of a Rust expression that starts at `i`.
pub open spec fn expression_end_from<S: RustSyntax>(syn: S, ts: Seq<Tok>, i: int, e: int) -> Option<
    int,
>
    decreases ts.len() + 1 - e,
{
    if e > ts.len() || e <= i || i < 0 {
        None
    } else if ends_expression(ts, e) && syn.accepts_expression(render(ts.subrange(i, e))) {
        Some(e)
    } else {
        expression_end_from(syn, ts, i, e + 1)
    }
}

/// Where the Rust expression that starts at `i` ends.
pub open spec fn expression_end<S: RustSyntax>(syn: S, ts: Seq<Tok>, i: int) -> Option<int> {
    expression_end_from(syn, ts, i, i + 1)
}

/// The kind that the name at `i` gives, or why there is none. The names that
/// the notation knows are plain words; any other name is first put to the
/// syntax as an identifier.
pub open spec fn read_kind<S: RustSyntax>(syn: S, ts: Seq<Tok>, i: int) -> Result<
    ComponentKind,
    ParseErrorV,
> {
    if i < 0 || i >= ts.len() {
        Err(fail(ErrorKindV::ExpectedIdentifier, i))
    } else {
        match bare(ts[i]) {
            Tok::Ident(name) => match kind_named(name) {
                Some(kind) => Ok(kind),
                None => if !syn.accepts_identifier(name) {
                    Err(fail(ErrorKindV::ExpectedIdentifier, i))
                } else {
                    Err(fail(ErrorKindV::UnknownComponent(name), i))
                },
            },
            _ => Err(fail(ErrorKindV::ExpectedIdentifier, i)),
        }
    }
}

/// Reads the component that starts at `i`; gives it and the position after it.
pub open spec fn read_node<S: RustSyntax>(syn: S, ts: Seq<Tok>, i: int) -> Result<
    (NodeV, int),
    ParseErrorV,
>
    decreases ts, ts.len() - i, 0int,
{
    if 0 <= i < ts.len() && bare(ts[i]) matches Tok::Group(Delimiter::Invisible, _) {
        // An invisible group of several token trees, as a macro's fragment
        // makes it, holds the whole component.
        proof {
            lemma_bare_group(ts[i]);
        }
        match read_component(syn, bare(ts[i])->Group_1) {
            Ok(n) => Ok((n, i + 1)),
            Err(e) => Err(inside(e, i)),
        }
    } else {
    match read_kind(syn, ts, i) {
        Err(e) => Err(e),
        Ok(kind) => {
            // The shorthand, in parentheses.
            let (sh, j): (Result<Option<Seq<Tok>>, ParseErrorV>, int) = if 0 <= i && i + 1
                < ts.len() {
                match bare(ts[i + 1]) {
                    Tok::Group(Delimiter::Parenthesis, inner) => {
                        if syn.accepts_expression(render(inner)) {
                            (Ok(Some(inner)), i + 2)
                        } else {
                            (Err(fail(ErrorKindV::ExpectedExpression, i + 1)), i + 2)
                        }
                    },
                    _ => (Ok(None), i + 1),
                }
            } else {
                (Ok(None), i + 1)
            };
            // The properties, in braces.
            let (props, k): (Result<Option<Seq<PropV>>, ParseErrorV>, int) = if 0 <= j < ts.len() {
                match bare(ts[j]) {
                    Tok::Group(Delimiter::Brace, inner) => {
                        proof {
                            lemma_bare_group(ts[j]);
                        }
                        match read_properties(syn, inner, 0) {
                            Ok(ps) => (Ok(Some(ps)), j + 1),
                            Err(e) => (Err(inside(e, j)), j + 1),
                        }
                    },
                    _ => (Ok(None), j),
                }
            } else {
                (Ok(None), j)
            };
            // The children, in brackets.
            let (kids, end): (Result<Option<Seq<NodeV>>, ParseErrorV>, int) = if 0 <= k < ts.len() {
                match bare(ts[k]) {
                    Tok::Group(Delimiter::Bracket, inner) => {
                        proof {
                            lemma_bare_group(ts[k]);
                        }
                        match read_components(syn, inner, 0) {
                            Ok(cs) => (Ok(Some(cs)), k + 1),
                            Err(e) => (Err(inside(e, k)), k + 1),
                        }
                    },
                    _ => (Ok(None), k),
                }
            } else {
                (Ok(None), k)
            };
            match (sh, props, kids) {
                (Err(e), _, _) => Err(e),
                (Ok(_), Err(e), _) => Err(e),
                (Ok(_), Ok(_), Err(e)) => Err(e),
                (Ok(s), Ok(p), Ok(c)) => Ok(
                    (NodeV { kind, shorthand: s, properties: p, children: c }, end),
                ),
            }
        },
    }
    }
}

/// Reads the value of a property that starts at `i`.
pub open spec fn read_value<S: RustSyntax>(syn: S, ts: Seq<Tok>, i: int) -> Result<
    (ValueV, int),
    ParseErrorV,
>
    decreases ts, ts.len() - i, 1int,
{
    if starts_component(syn, ts, i) {
        match read_node(syn, ts, i) {
            Ok((n, next)) => Ok((ValueV::Component(Box::new(n)), next)),
            Err(e) => Err(e),
        }
    } else {
        match expression_end(syn, ts, i) {
            Some(e) => Ok((ValueV::Expr(ts.subrange(i, e)), e)),
            None => Err(fail(ErrorKindV::ExpectedExpression, i)),
        }
    }
}

/// Reads the comma-separated properties from `i` to the end.
pub open spec fn read_properties<S: RustSyntax>(syn: S, ts: Seq<Tok>, i: int) -> Result<
    Seq<PropV>,
    ParseErrorV,
>
    decreases ts, ts.len() - i, 2int,
{
    if i < 0 || i >= ts.len() {
        Ok(Seq::empty())
    } else {
        match bare(ts[i]) {
            Tok::Ident(key) => {
                if !syn.accepts_identifier(key) {
                    Err(fail(ErrorKindV::ExpectedIdentifier, i))
                } else if !(i + 1 < ts.len() && is_punct(bare(ts[i + 1]), ':')) {
                    Err(fail(ErrorKindV::ExpectedColon, i + 1))
                } else {
                    match read_value(syn, ts, i + 2) {
                        Err(e) => Err(e),
                        Ok((value, next)) => {
                            // A value always takes at least one token.
                            if next <= i + 2 || next > ts.len() {
                                Err(fail(ErrorKindV::ExpectedExpression, i + 2))
                            } else if next == ts.len() {
                                Ok(seq![PropV { key, value }])
                            } else if !is_punct(bare(ts[next]), ',') {
                                Err(fail(ErrorKindV::ExpectedComma, next))
                            } else {
                                match read_properties(syn, ts, next + 1) {
                                    Ok(rest) => Ok(seq![PropV { key, value }] + rest),
                                    Err(e) => Err(e),
                                }
                            }
                        },
                    }
                }
            },
            _ => Err(fail(ErrorKindV::ExpectedIdentifier, i)),
        }
    }
}

/// Reads the comma-separated components from `i` to the end.
pub open spec fn read_components<S: RustSyntax>(syn: S, ts: Seq<Tok>, i: int) -> Result<
    Seq<NodeV>,
    ParseErrorV,
>
    decreases ts, ts.len() - i, 1int,
{
    if i < 0 || i >= ts.len() {
        Ok(Seq::empty())
    } else {
        match read_node(syn, ts, i) {
            Err(e) => Err(e),
            Ok((n, next)) => {
                // A component always takes at least one token.
                if next <= i || next > ts.len() {
                    Err(fail(ErrorKindV::ExpectedComma, next))
                } else if next == ts.len() {
                    Ok(seq![n])
                } else if !is_punct(bare(ts[next]), ',') {
                    Err(fail(ErrorKindV::ExpectedComma, next))
                } else {
                    match read_components(syn, ts, next + 1) {
                        Ok(rest) => Ok(seq![n] + rest),
                        Err(e) => Err(e),
                    }
                }
            },
        }
    }
}

/// Reads exactly one component from all of the tokens.
pub open spec fn read_component<S: RustSyntax>(syn: S, ts: Seq<Tok>) -> Result<
    NodeV,
    ParseErrorV,
>
    decreases ts, ts.len() + 1, 0int,
{
    match read_node(syn, ts, 0) {
        Ok((n, next)) => if next == ts.len() {
            Ok(n)
        } else {
            Err(fail(ErrorKindV::UnexpectedToken, next))
        },
        Err(e) => Err(e),
    }
}

pub open spec fn node_result(r: Result<(ComponentNode, usize), ParseError>) -> Result<
    (NodeV, int),
    ParseErrorV,
> {
    match r {
        Ok((n, next)) => Ok((n@, next as int)),
        Err(e) => Err(e@),
    }
}

pub open spec fn value_result(r: Result<(PropertyValue, usize), ParseError>) -> Result<
    (ValueV, int),
    ParseErrorV,
> {
    match r {
        Ok((v, next)) => Ok((v@, next as int)),
        Err(e) => Err(e@),
    }
}

pub open spec fn props_result(r: Result<Vec<Property>, ParseError>) -> Result<
    Seq<PropV>,
    ParseErrorV,
> {
    match r {
        Ok(ps) => Ok(view_props(ps@)),
        Err(e) => Err(e@),
    }
}

pub open spec fn nodes_result(r: Result<Vec<ComponentNode>, ParseError>) -> Result<
    Seq<NodeV>,
    ParseErrorV,
> {
    match r {
        Ok(ns) => Ok(view_nodes(ns@)),
        Err(e) => Err(e@),
    }
}

/// Whether a name is one of the standard names that never start a component.
pub fn is_std_name_exec(name: &str) -> (r: bool)
    ensures
        r == is_std_name(name@),
{
    same_text(name, "Some") || same_text(name, "None") || same_text(name, "Ok") || same_text(
        name,
        "Err",
    ) || same_text(name, "Box") || same_text(name, "Vec") || same_text(name, "String")
        || same_text(name, "Arc") || same_text(name, "Rc") || same_text(name, "Cell") || same_text(
        name,
        "RefCell",
    ) || same_text(name, "Mutex") || same_text(name, "RwLock") || same_text(name, "Option")
        || same_text(name, "Result")
}

/// An error of kind `kind` at position `i`.
pub fn error_at(kind: ParseErrorKind, i: usize) -> (r: ParseError)
    ensures
        r@ == fail(kind@, i as int),
{
    let mut at: Vec<usize> = Vec::new();
    at.push(i);
    proof {
        assert(positions(at@) =~= seq![i as int]);
    }
    ParseError { kind, at }
}

/// The error `e`, found inside the group at position `j`.
pub fn error_inside(e: ParseError, j: usize) -> (r: ParseError)
    ensures
        r@ == inside(e@, j as int),
{
    let ParseError { kind, at } = e;
    let ghost before = at@;
    let mut at = at;
    at.insert(0, j);
    proof {
        assert(positions(at@) =~= seq![j as int] + positions(before));
    }
    ParseError { kind, at }
}

/// Whether the token at `k` is, as the grammar sees it, the punctuation `c`.
fn punct_at(ts: &Vec<TokenTree>, k: usize, c: char) -> (r: bool)
    requires
        k < ts.len(),
    ensures
        r == is_punct(bare(toks(*ts)[k as int]), c),
{
    proof {
        lemma_view_trees(ts@);
    }
    match bare_token(&ts[k]) {
        TokenTree::Punct(d, _) => *d == c,
        _ => false,
    }
}

/// Where the Rust expression that starts at `i` ends, if it ends anywhere.
pub fn find_expression_end<S: RustSyntax>(syn: &S, ts: &Vec<TokenTree>, i: usize) -> (r: Option<
    usize,
>)
    requires
        i <= ts.len(),
    ensures
        match r {
            Some(e) => expression_end(*syn, toks(*ts), i as int) == Some(e as int) && i < e
                <= ts.len(),
            None => expression_end(*syn, toks(*ts), i as int) is None,
        },
{
    let n = ts.len();
    if i >= n {
        return None;
    }
    let ghost t = toks(*ts);
    let mut e = i + 1;
    while e < n
        invariant
            i < e <= n,
            n == ts.len(),
            t == toks(*ts),
            expression_end(*syn, t, i as int) == expression_end_from(*syn, t, i as int, e as int),
        decreases n - e,
    {
        if punct_at(ts, e, ',') {
            let text = render_trees(ts, i, e);
            proof {
                lemma_view_trees_subrange(ts@, i as int, e as int);
            }
            if syn.is_expression(text.as_str()) {
                return Some(e);
            }
        }
        e = e + 1;
    }
    let text = render_trees(ts, i, n);
    proof {
        lemma_view_trees_subrange(ts@, i as int, n as int);
        assert(expression_end_from(*syn, t, i as int, n + 1) is None);
    }
    if syn.is_expression(text.as_str()) {
        Some(n)
    } else {
        None
    }
}

/// The kind that the name at `i` gives, or why there is none.
pub fn parse_kind<S: RustSyntax>(syn: &S, ts: &Vec<TokenTree>, i: usize) -> (r: Result<
    ComponentKind,
    ParseError,
>)
    requires
        i <= ts.len(),
    ensures
        match r {
            Ok(k) => read_kind(*syn, toks(*ts), i as int) == Ok::<ComponentKind, ParseErrorV>(k),
            Err(e) => read_kind(*syn, toks(*ts), i as int) == Err::<ComponentKind, ParseErrorV>(
                e@,
            ),
        },
{
    if i >= ts.len() {
        return Err(error_at(ParseErrorKind::ExpectedIdentifier, i));
    }
    proof {
        lemma_view_trees(ts@);
    }
    match bare_token(&ts[i]) {
        TokenTree::Ident(name) => match ComponentKind::from_name(name.as_str()) {
            Some(k) => Ok(k),
            None => if !syn.is_identifier(name.as_str()) {
                Err(error_at(ParseErrorKind::ExpectedIdentifier, i))
            } else {
                Err(error_at(ParseErrorKind::UnknownComponent(name.clone()), i))
            },
        },
        _ => Err(error_at(ParseErrorKind::ExpectedIdentifier, i)),
    }
}

/// Reads the component that starts at `i`.
pub fn parse_node<S: RustSyntax>(syn: &S, ts: &Vec<TokenTree>, i: usize) -> (r: Result<
    (ComponentNode, usize),
    ParseError,
>)
    requires
        i <= ts.len(),
    ensures
        node_result(r) == read_node(*syn, toks(*ts), i as int),
        r matches Ok((_, next)) ==> i < next <= ts.len(),
    decreases ts, ts.len() - i, 0nat,
{
    if i < ts.len() {
        let t = bare_token(&ts[i]);
        if let TokenTree::Group(Delimiter::Invisible, inner) = t {
            proof {
                lemma_view_trees(ts@);
                vstd::std_specs::vec::axiom_vec_index_decreases(*ts, i as int);
                assert(decreases_to!(ts@[i as int] => *inner));
            }
            return match parse_component(syn, inner) {
                Ok(n) => Ok((n, i + 1)),
                Err(e) => Err(error_inside(e, i)),
            };
        }
    }
    let kind = match parse_kind(syn, ts, i) {
        Ok(k) => k,
        Err(e) => return Err(e),
    };
    let mut j = i + 1;
    let mut shorthand: Option<Vec<TokenTree>> = None;
    if j < ts.len() {
        if let TokenTree::Group(Delimiter::Parenthesis, inner) = bare_token(&ts[j]) {
            let text = render_trees(inner, 0, inner.len());
            proof {
                assert(inner@.subrange(0, inner@.len() as int) =~= inner@);
            }
            if !syn.is_expression(text.as_str()) {
                return Err(error_at(ParseErrorKind::ExpectedExpression, j));
            }
            shorthand = Some(clone_trees(inner, 0, inner.len()));
            j = j + 1;
        }
    }
    let mut properties: Option<Vec<Property>> = None;
    if j < ts.len() {
        let t = bare_token(&ts[j]);
        if let TokenTree::Group(Delimiter::Brace, inner) = t {
            proof {
                vstd::std_specs::vec::axiom_vec_index_decreases(*ts, j as int);
                assert(decreases_to!(ts@[j as int] => *inner));
            }
            match parse_properties(syn, inner, 0) {
                Ok(ps) => {
                    properties = Some(ps);
                },
                Err(e) => {
                    return Err(error_inside(e, j));
                },
            }
            j = j + 1;
        }
    }
    let mut children: Option<Vec<ComponentNode>> = None;
    if j < ts.len() {
        let t = bare_token(&ts[j]);
        if let TokenTree::Group(Delimiter::Bracket, inner) = t {
            proof {
                vstd::std_specs::vec::axiom_vec_index_decreases(*ts, j as int);
                assert(decreases_to!(ts@[j as int] => *inner));
            }
            match parse_components(syn, inner, 0) {
                Ok(cs) => {
                    children = Some(cs);
                },
                Err(e) => {
                    return Err(error_inside(e, j));
                },
            }
            j = j + 1;
        }
    }
    Ok((ComponentNode { kind, shorthand, properties, children }, j))
}

/// Reads exactly one component from all of `ts`.
pub fn parse_component<S: RustSyntax>(syn: &S, ts: &Vec<TokenTree>) -> (r: Result<
    ComponentNode,
    ParseError,
>)
    ensures
        match r {
            Ok(n) => read_component(*syn, toks(*ts)) == Ok::<NodeV, ParseErrorV>(n@),
            Err(e) => read_component(*syn, toks(*ts)) == Err::<NodeV, ParseErrorV>(e@),
        },
    decreases ts, ts.len() + 1, 0nat,
{
    match parse_node(syn, ts, 0) {
        Ok((n, next)) => if next == ts.len() {
            Ok(n)
        } else {
            Err(error_at(ParseErrorKind::UnexpectedToken, next))
        },
        Err(e) => Err(e),
    }
}

/// Whether the value that starts at `i` is read as a nested component.
pub fn starts_component_exec<S: RustSyntax>(syn: &S, ts: &Vec<TokenTree>, i: usize) -> (r: bool)
    ensures
        r == starts_component(*syn, toks(*ts), i as int),
    decreases ts,
{
    if i >= ts.len() {
        return false;
    }
    proof {
        lemma_view_trees(ts@);
    }
    let t = bare_token(&ts[i]);
    match t {
        TokenTree::Group(Delimiter::Invisible, inner) => {
            proof {
                vstd::std_specs::vec::axiom_vec_index_decreases(*ts, i as int);
                assert(decreases_to!(ts@[i as int] => *inner));
            }
            starts_component_exec(syn, inner, 0)
        },
        TokenTree::Ident(name) => {
            if ts.len() - i < 2 {
                return false;
            }
            let opens = match bare_token(&ts[i + 1]) {
                TokenTree::Group(Delimiter::Parenthesis, _) => true,
                TokenTree::Group(Delimiter::Brace, _) => true,
                TokenTree::Group(Delimiter::Bracket, _) => true,
                _ => false,
            };
            if !opens || !syn.is_identifier(name.as_str()) || name.as_str().unicode_len() == 0 {
                return false;
            }
            let c = name.as_str().get_char(0);
            let capital = char_is_uppercase(c);
            assert(capital == is_capital(c));
            capital && !is_std_name_exec(name.as_str())
        },
        _ => false,
    }
}

/// Reads the value of a property that starts at `i`.
pub fn parse_value<S: RustSyntax>(syn: &S, ts: &Vec<TokenTree>, i: usize) -> (r: Result<
    (PropertyValue, usize),
    ParseError,
>)
    requires
        i <= ts.len(),
    ensures
        value_result(r) == read_value(*syn, toks(*ts), i as int),
        r matches Ok((_, next)) ==> i < next <= ts.len(),
    decreases ts, ts.len() - i, 1nat,
{
    let component = starts_component_exec(syn, ts, i);
    if component {
        match parse_node(syn, ts, i) {
            Ok((n, next)) => Ok((PropertyValue::Component(Box::new(n)), next)),
            Err(e) => Err(e),
        }
    } else {
        match find_expression_end(syn, ts, i) {
            Some(e) => {
                let v = clone_trees(ts, i, e);
                proof {
                    lemma_view_trees_subrange(ts@, i as int, e as int);
                }
                Ok((PropertyValue::Expr(v), e))
            },
            None => Err(error_at(ParseErrorKind::ExpectedExpression, i)),
        }
    }
}

/// Reads the comma-separated properties from `i` to the end.
pub fn parse_properties<S: RustSyntax>(syn: &S, ts: &Vec<TokenTree>, i: usize) -> (r: Result<
    Vec<Property>,
    ParseError,
>)
    requires
        i <= ts.len(),
    ensures
        props_result(r) == read_properties(*syn, toks(*ts), i as int),
    decreases ts, ts.len() - i, 2nat,
{
    if i >= ts.len() {
        return Ok(Vec::new());
    }
    let key = match bare_token(&ts[i]) {
        TokenTree::Ident(s) => s,
        _ => return Err(error_at(ParseErrorKind::ExpectedIdentifier, i)),
    };
    if !syn.is_identifier(key.as_str()) {
        return Err(error_at(ParseErrorKind::ExpectedIdentifier, i));
    }
    let colon = i + 1 < ts.len() && punct_at(ts, i + 1, ':');
    if !colon {
        return Err(error_at(ParseErrorKind::ExpectedColon, i + 1));
    }
    let (value, next) = match parse_value(syn, ts, i + 2) {
        Ok(r) => r,
        Err(e) => return Err(e),
    };
    let p = Property { key: key.clone(), value };
    if next == ts.len() {
        let mut v = Vec::new();
        v.push(p);
        proof {
            assert(view_props(v@) =~= seq![view_prop(v@[0])]);
        }
        return Ok(v);
    }
    if !punct_at(ts, next, ',') {
        return Err(error_at(ParseErrorKind::ExpectedComma, next));
    }
    match parse_properties(syn, ts, next + 1) {
        Ok(rest) => {
            let ghost rest_v = view_props(rest@);
            let mut v = rest;
            v.insert(0, p);
            proof {
                assert(view_props(v@) =~= seq![view_prop(v@[0])] + rest_v);
            }
            Ok(v)
        },
        Err(e) => Err(e),
    }
}

/// Reads the comma-separated components from `i` to the end.
pub fn parse_components<S: RustSyntax>(syn: &S, ts: &Vec<TokenTree>, i: usize) -> (r: Result<
    Vec<ComponentNode>,
    ParseError,
>)
    requires
        i <= ts.len(),
    ensures
        nodes_result(r) == read_components(*syn, toks(*ts), i as int),
    decreases ts, ts.len() - i, 1nat,
{
    if i >= ts.len() {
        return Ok(Vec::new());
    }
    let (n, next) = match parse_node(syn, ts, i) {
        Ok(r) => r,
        Err(e) => return Err(e),
    };
    if next == ts.len() {
        let mut v = Vec::new();
        v.push(n);
        proof {
            assert(view_nodes(v@) =~= seq![view_node(v@[0])]);
        }
        return Ok(v);
    }
    if !punct_at(ts, next, ',') {
        return Err(error_at(ParseErrorKind::ExpectedComma, next));
    }
    match parse_components(syn, ts, next + 1) {
        Ok(rest) => {
            let ghost rest_v = view_nodes(rest@);
            let mut v = rest;
            v.insert(0, n);
            proof {
                assert(view_nodes(v@) =~= seq![view_node(v@[0])] + rest_v);
            }
            Ok(v)
        },
        Err(e) => Err(e),
    }
}

} // verus!
