//! From the tokens of a macro call to the tokens of the code it stands for.
use vstd::prelude::*;
use vstd::string::*;

use crate::ast::{lemma_view_nodes, ComponentNode, NodeV};
use crate::constructed::{lemma_view_gens, view_gens, Generated};
use crate::emit::{emit_gen, emit_list, path_segment, write_generated, write_list};
use crate::generate::{gen, gen_list, generate, generate_list};
use crate::outside::push_char;
use crate::parse::{
    nodes_result, parse_component, parse_components, read_component, read_components, error_at, ErrorKindV,
    ParseError, ParseErrorKind, ParseErrorV,
};
use crate::syntax::RustSyntax;
use crate::tokens::{lemma_view_trees, toks, Delimiter, Tok, TokenTree};

verus! {

broadcast use {lemma_view_trees, lemma_view_nodes, lemma_view_gens};

/// Reads the comma-separated components that make up all of `input`.
pub fn parse_component_list<S: RustSyntax>(syn: &S, input: &Vec<TokenTree>) -> (r: Result<
    Vec<ComponentNode>,
    ParseError,
>)
    ensures
        nodes_result(r) == read_components(*syn, toks(*input), 0),
{
    parse_components(syn, input, 0)
}

/// Reads one component from all of `input` and builds what it becomes.
pub fn expand_component<S: RustSyntax>(syn: &S, input: &Vec<TokenTree>) -> (r: Result<
    Generated,
    ParseError,
>)
    ensures
        match r {
            Ok(g) => read_component(*syn, toks(*input)) matches Ok(n) && g@ == gen(n),
            Err(e) => read_component(*syn, toks(*input)) == Err::<NodeV, ParseErrorV>(e@),
        },
{
    match parse_component(syn, input) {
        Ok(n) => Ok(generate(&n)),
        Err(e) => Err(e),
    }
}

/// Reads the components that make up all of `input` and builds what each becomes.
pub fn expand_components<S: RustSyntax>(syn: &S, input: &Vec<TokenTree>) -> (r: Result<
    Vec<Generated>,
    ParseError,
>)
    ensures
        match r {
            Ok(gs) => read_components(*syn, toks(*input), 0) matches Ok(ns) && view_gens(gs@)
                == gen_list(ns),
            Err(e) => read_components(*syn, toks(*input), 0) == Err::<Seq<NodeV>, ParseErrorV>(
                e@,
            ),
        },
{
    match parse_component_list(syn, input) {
        Ok(ns) => Ok(generate_list(&ns)),
        Err(e) => Err(e),
    }
}

/// What a call of `component!` expands to, when its input reads as component `n`.
pub open spec fn component_expansion(n: NodeV) -> Seq<Tok> {
    emit_gen(gen(n))
}

/// What a call of `components!` expands to, when its input reads as the
/// components `ns`: an array of their expressions, in order.
pub open spec fn components_expansion(ns: Seq<NodeV>) -> Seq<Tok> {
    seq![Tok::Group(Delimiter::Bracket, array_items(ns))]
}

/// The comma-separated expressions of the components `ns`, in order.
pub open spec fn array_items(ns: Seq<NodeV>) -> Seq<Tok> {
    emit_list(gen_list(ns))
}

/// The list of the kinds that the notation knows, as the error message gives it.
pub open spec fn valid_kinds_text() -> Seq<char> {
    "Text, Container, Section, Separator, MediaGallery, Thumbnail, File, FileUpload, Label, ActionRow, Button, SelectMenu, TextInput, MediaItem, SelectOption"@
}

/// The message of a parse error.
pub open spec fn error_message(e: ParseErrorV) -> Seq<char> {
    match e.kind {
        ErrorKindV::ExpectedIdentifier => "expected identifier"@,
        ErrorKindV::UnknownComponent(name) => "Unknown component type: `"@ + name
            + "`. Valid types are: "@ + valid_kinds_text(),
        ErrorKindV::ExpectedColon => "expected `:`"@,
        ErrorKindV::ExpectedComma => "expected `,`"@,
        ErrorKindV::ExpectedExpression => "expected an expression"@,
        ErrorKindV::UnexpectedToken => "unexpected token"@,
    }
}

/// A character as it stands inside a string literal.
pub open spec fn escaped_char(c: char) -> Seq<char> {
    if c == '"' || c == '\\' {
        seq!['\\', c]
    } else {
        seq![c]
    }
}

/// A text as it stands inside a string literal.
pub open spec fn escaped(s: Seq<char>) -> Seq<char>
    decreases s.len(),
{
    if s.len() == 0 {
        Seq::empty()
    } else {
        escaped(s.drop_last()) + escaped_char(s.last())
    }
}

/// `::core::compile_error! { "message" }`
pub open spec fn compile_error_tokens(message: Seq<char>) -> Seq<Tok> {
    path_segment("core"@) + path_segment("compile_error"@) + seq![
        Tok::Punct('!', false),
        Tok::Group(Delimiter::Brace, seq![Tok::Literal(seq!['"'] + escaped(message) + seq!['"'])]),
    ]
}

impl ParseError {
    /// The message of the error.
    pub fn message(&self) -> (r: String)
        ensures
            r@ == error_message(self@),
    {
        match &self.kind {
            ParseErrorKind::ExpectedIdentifier => String::from_str("expected identifier"),
            ParseErrorKind::UnknownComponent(name) => {
                let mut m = String::from_str("Unknown component type: `");
                m.append(name.as_str());
                m.append("`. Valid types are: ");
                m.append(
                    "Text, Container, Section, Separator, MediaGallery, Thumbnail, File, FileUpload, Label, ActionRow, Button, SelectMenu, TextInput, MediaItem, SelectOption",
                );
                m
            },
            ParseErrorKind::ExpectedColon => String::from_str("expected `:`"),
            ParseErrorKind::ExpectedComma => String::from_str("expected `,`"),
            ParseErrorKind::ExpectedExpression => String::from_str("expected an expression"),
            ParseErrorKind::UnexpectedToken => String::from_str("unexpected token"),
        }
    }

    /// The tokens of a `compile_error!` call that reports the error.
    pub fn to_compile_error(&self) -> (r: Vec<TokenTree>)
        ensures
            toks(r) == compile_error_tokens(error_message(self@)),
    {
        let message = self.message();
        let mut text = String::new();
        push_char(&mut text, '"');
        let n = message.as_str().unicode_len();
        let mut i: usize = 0;
        while i < n
            invariant
                n == message@.len(),
                i <= n,
                text@ == seq!['"'] + escaped(message@.take(i as int)),
            decreases n - i,
        {
            let c = message.as_str().get_char(i);
            if c == '"' || c == '\\' {
                push_char(&mut text, '\\');
            }
            push_char(&mut text, c);
            proof {
                assert(message@.take(i + 1).drop_last() =~= message@.take(i as int));
                assert(text@ =~= seq!['"'] + escaped(message@.take(i + 1)));
            }
            i = i + 1;
        }
        push_char(&mut text, '"');
        proof {
            assert(message@.take(n as int) =~= message@);
        }
        let ghost lit = text@;
        assert(lit =~= seq!['"'] + escaped(error_message(self@)) + seq!['"']);
        let mut inner: Vec<TokenTree> = Vec::new();
        inner.push(TokenTree::Literal(text));
        proof {
            lemma_view_trees(inner@);
            assert(toks(inner) =~= seq![Tok::Literal(lit)]);
        }
        let mut r: Vec<TokenTree> = Vec::new();
        r.push(TokenTree::Punct(':', true));
        r.push(TokenTree::Punct(':', false));
        r.push(TokenTree::Ident(String::from_str("core")));
        r.push(TokenTree::Punct(':', true));
        r.push(TokenTree::Punct(':', false));
        r.push(TokenTree::Ident(String::from_str("compile_error")));
        r.push(TokenTree::Punct('!', false));
        r.push(TokenTree::Group(Delimiter::Brace, inner));
        proof {
            lemma_view_trees(r@);
            assert(toks(r) =~= compile_error_tokens(error_message(self@)));
        }
        r
    }
}

/// What a call of `component!` with `input` expands to: the expression that
/// the component stands for, or a `compile_error!` that says why it could not
/// be read.
pub fn expand_component_tokens<S: RustSyntax>(syn: &S, input: &Vec<TokenTree>) -> (r: Vec<
    TokenTree,
>)
    ensures
        match read_component(*syn, toks(*input)) {
            Ok(n) => toks(r) == component_expansion(n),
            Err(e) => toks(r) == compile_error_tokens(error_message(e)),
        },
{
    match expand_component(syn, input) {
        Ok(g) => write_generated(&g),
        Err(e) => e.to_compile_error(),
    }
}

/// What a call of `components!` with `input` expands to: an array of the
/// expressions that the components stand for, or a `compile_error!` that says
/// why they could not be read.
pub fn expand_components_tokens<S: RustSyntax>(syn: &S, input: &Vec<TokenTree>) -> (r: Vec<
    TokenTree,
>)
    ensures
        match read_components(*syn, toks(*input), 0) {
            Ok(ns) => toks(r) == components_expansion(ns),
            Err(e) => toks(r) == compile_error_tokens(error_message(e)),
        },
{
    match expand_components(syn, input) {
        Ok(gs) => {
            let items = write_list(&gs);
            let mut r: Vec<TokenTree> = Vec::new();
            r.push(TokenTree::Group(Delimiter::Bracket, items));
            proof {
                lemma_view_trees(r@);
                assert(toks(r) =~= components_expansion(
                    read_components(*syn, toks(*input), 0)->Ok_0,
                ));
            }
            r
        },
        Err(e) => e.to_compile_error(),
    }
}

} // verus!
