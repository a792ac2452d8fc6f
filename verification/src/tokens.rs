//! The token model that the notation is read from and written to.
use vstd::prelude::*;
use vstd::string::*;

use crate::outside::push_char;

verus! {

/// How a group of tokens is delimited.
#[derive(Clone, Copy, Debug, PartialEq, Eq, Structural)]
pub enum Delimiter {
    Parenthesis,
    Brace,
    Bracket,
    /// A group without visible delimiters, as macro expansion produces.
    Invisible,
}

/// One token tree, as a procedural macro receives it.
#[derive(Debug)]
pub enum TokenTree {
    Group(Delimiter, Vec<TokenTree>),
    Ident(String),
    /// A punctuation character; `true` when it is joined to the punctuation after it.
    Punct(char, bool),
    Literal(String),
}

/// The mathematical value of a token tree.
pub enum Tok {
    Group(Delimiter, Seq<Tok>),
    Ident(Seq<char>),
    Punct(char, bool),
    Literal(Seq<char>),
}

pub open spec fn view_tree(t: TokenTree) -> Tok
    decreases t,
{
    match t {
        TokenTree::Group(d, v) => Tok::Group(d, view_trees(v@)),
        TokenTree::Ident(s) => Tok::Ident(s@),
        TokenTree::Punct(c, j) => Tok::Punct(c, j),
        TokenTree::Literal(s) => Tok::Literal(s@),
    }
}

pub open spec fn view_trees(s: Seq<TokenTree>) -> Seq<Tok>
    decreases s,
{
    if s.len() == 0 {
        Seq::empty()
    } else {
        view_trees(s.drop_last()).push(view_tree(s.last()))
    }
}

impl View for TokenTree {
    type V = Tok;

    open spec fn view(&self) -> Tok {
        view_tree(*self)
    }
}

/// The values of a vector of token trees.
pub open spec fn toks(v: Vec<TokenTree>) -> Seq<Tok> {
    view_trees(v@)
}

/// Viewing a sequence of trees views each tree in place.
pub broadcast proof fn lemma_view_trees(s: Seq<TokenTree>)
    ensures
        #[trigger] view_trees(s).len() == s.len(),
        forall|i: int| 0 <= i < s.len() ==> #[trigger] view_trees(s)[i] == view_tree(s[i]),
    decreases s.len(),
{
    if s.len() > 0 {
        lemma_view_trees(s.drop_last());
    }
}

/// Viewing commutes with taking a range.
pub proof fn lemma_view_trees_subrange(s: Seq<TokenTree>, lo: int, hi: int)
    requires
        0 <= lo <= hi <= s.len(),
    ensures
        view_trees(s.subrange(lo, hi)) == view_trees(s).subrange(lo, hi),
{
    lemma_view_trees(s);
    lemma_view_trees(s.subrange(lo, hi));
    assert(view_trees(s.subrange(lo, hi)) =~= view_trees(s).subrange(lo, hi));
}

/// Viewing commutes with concatenation.
pub proof fn lemma_view_trees_concat(a: Seq<TokenTree>, b: Seq<TokenTree>)
    ensures
        view_trees(a + b) == view_trees(a) + view_trees(b),
{
    lemma_view_trees(a);
    lemma_view_trees(b);
    lemma_view_trees(a + b);
    assert(view_trees(a + b) =~= view_trees(a) + view_trees(b));
}

pub open spec fn is_punct(t: Tok, c: char) -> bool {
    t matches Tok::Punct(d, _) && d == c
}

pub open spec fn is_group(t: Tok, d: Delimiter) -> bool {
    t matches Tok::Group(e, _) && e == d
}

/// A token as the grammar sees it: an invisible group that holds exactly one
/// token tree stands for that tree.
pub open spec fn bare(t: Tok) -> Tok
    decreases t,
{
    match t {
        Tok::Group(Delimiter::Invisible, inner) => if inner.len() == 1 {
            bare(inner[0])
        } else {
            t
        },
        _ => t,
    }
}

/// What opens a group in source text.
pub open spec fn open_text(d: Delimiter) -> Seq<char> {
    match d {
        Delimiter::Parenthesis => seq!['('],
        Delimiter::Brace => seq!['{'],
        Delimiter::Bracket => seq!['['],
        Delimiter::Invisible => Seq::empty(),
    }
}

/// What closes a group in source text.
pub open spec fn close_text(d: Delimiter) -> Seq<char> {
    match d {
        Delimiter::Parenthesis => seq![')'],
        Delimiter::Brace => seq!['}'],
        Delimiter::Bracket => seq![']'],
        Delimiter::Invisible => Seq::empty(),
    }
}

/// What separates a token from the next one in source text: nothing after a
/// punctuation joined to the next, a space otherwise.
pub open spec fn gap_after(t: Tok) -> Seq<char> {
    if t matches Tok::Punct(_, true) {
        Seq::empty()
    } else {
        seq![' ']
    }
}

/// The source text of a token tree.
pub open spec fn render_tok(t: Tok) -> Seq<char>
    decreases t,
{
    match t {
        Tok::Group(d, inner) => open_text(d) + render(inner) + close_text(d),
        Tok::Ident(s) => s,
        Tok::Punct(c, _) => seq![c],
        Tok::Literal(s) => s,
    }
}

/// The source text of a sequence of token trees.
pub open spec fn render(s: Seq<Tok>) -> Seq<char>
    decreases s,
{
    if s.len() == 0 {
        Seq::empty()
    } else if s.len() == 1 {
        render_tok(s[0])
    } else {
        render(s.drop_last()) + gap_after(s[s.len() - 2]) + render_tok(s.last())
    }
}

/// A group that the grammar sees in `t` lies within `t`.
pub proof fn lemma_bare_group(t: Tok)
    ensures
        bare(t) matches Tok::Group(_, inner) ==> decreases_to!(t => inner),
    decreases t,
{
    if let Tok::Group(Delimiter::Invisible, inner) = t {
        if inner.len() == 1 {
            lemma_bare_group(inner[0]);
            assert(decreases_to!(t => inner));
            assert(decreases_to!(inner => inner[0]));
        }
    }
}

/// The token tree that the grammar sees in `t`.
pub fn bare_token(t: &TokenTree) -> (r: &TokenTree)
    ensures
        r@ == bare(t@),
        *r == *t || decreases_to!(*t => *r),
    decreases t,
{
    match t {
        TokenTree::Group(Delimiter::Invisible, inner) => {
            proof {
                lemma_view_trees(inner@);
            }
            if inner.len() == 1 {
                proof {
                    vstd::std_specs::vec::axiom_vec_index_decreases(*inner, 0);
                }
                bare_token(&inner[0])
            } else {
                t
            }
        },
        _ => t,
    }
}

/// A copy of a token tree.
pub fn clone_tree(t: &TokenTree) -> (r: TokenTree)
    ensures
        r@ == t@,
    decreases t,
{
    match t {
        TokenTree::Group(d, v) => {
            let inner = clone_trees(v, 0, v.len());
            proof {
                assert(v@.subrange(0, v@.len() as int) =~= v@);
            }
            TokenTree::Group(*d, inner)
        },
        TokenTree::Ident(s) => TokenTree::Ident(s.clone()),
        TokenTree::Punct(c, j) => TokenTree::Punct(*c, *j),
        TokenTree::Literal(s) => TokenTree::Literal(s.clone()),
    }
}

/// A copy of the token trees `lo..hi` of `ts`.
pub fn clone_trees(ts: &Vec<TokenTree>, lo: usize, hi: usize) -> (r: Vec<TokenTree>)
    requires
        lo <= hi <= ts.len(),
    ensures
        toks(r) == view_trees(ts@.subrange(lo as int, hi as int)),
    decreases ts, 0nat,
{
    let mut r: Vec<TokenTree> = Vec::new();
    let mut k = lo;
    while k < hi
        invariant
            lo <= k <= hi <= ts.len(),
            view_trees(r@) == view_trees(ts@.subrange(lo as int, k as int)),
        decreases hi - k,
    {
        proof {
            vstd::std_specs::vec::axiom_vec_index_decreases(*ts, k as int);
        }
        let c = clone_tree(&ts[k]);
        let ghost before = r@;
        r.push(c);
        proof {
            assert(r@.drop_last() =~= before);
            assert(ts@.subrange(lo as int, k + 1).drop_last() =~= ts@.subrange(lo as int, k as int));
        }
        k = k + 1;
    }
    r
}

/// Appends the source text of a token tree.
pub fn render_tree_into(out: &mut String, t: &TokenTree)
    ensures
        final(out)@ == old(out)@ + render_tok(t@),
    decreases t,
{
    match t {
        TokenTree::Group(d, v) => {
            match d {
                Delimiter::Parenthesis => push_char(out, '('),
                Delimiter::Brace => push_char(out, '{'),
                Delimiter::Bracket => push_char(out, '['),
                Delimiter::Invisible => {},
            }
            render_trees_into(out, v, 0, v.len());
            match d {
                Delimiter::Parenthesis => push_char(out, ')'),
                Delimiter::Brace => push_char(out, '}'),
                Delimiter::Bracket => push_char(out, ']'),
                Delimiter::Invisible => {},
            }
            proof {
                assert(v@.subrange(0, v@.len() as int) =~= v@);
            }
        },
        TokenTree::Ident(s) => out.append(s.as_str()),
        TokenTree::Punct(c, _) => push_char(out, *c),
        TokenTree::Literal(s) => out.append(s.as_str()),
    }
}

/// Appends the source text of the token trees `lo..hi` of `ts`.
pub fn render_trees_into(out: &mut String, ts: &Vec<TokenTree>, lo: usize, hi: usize)
    requires
        lo <= hi <= ts.len(),
    ensures
        final(out)@ == old(out)@ + render(view_trees(ts@.subrange(lo as int, hi as int))),
    decreases ts, 0nat,
{
    let ghost start = out@;
    let mut k = lo;
    while k < hi
        invariant
            lo <= k <= hi <= ts.len(),
            out@ == start + render(view_trees(ts@.subrange(lo as int, k as int))),
        decreases hi - k,
    {
        proof {
            vstd::std_specs::vec::axiom_vec_index_decreases(*ts, k as int);
            lemma_view_trees_subrange(ts@, lo as int, k as int);
            lemma_view_trees_subrange(ts@, lo as int, k + 1);
            lemma_view_trees(ts@);
        }
        let ghost mid = out@;
        if k > lo {
            match &ts[k - 1] {
                TokenTree::Punct(_, true) => {},
                _ => push_char(out, ' '),
            }
        }
        let ghost spaced = out@;
        render_tree_into(out, &ts[k]);
        proof {
            let whole = view_trees(ts@);
            let next = whole.subrange(lo as int, k + 1);
            assert(next.drop_last() =~= whole.subrange(lo as int, k as int));
            if k > lo {
                assert(next[next.len() - 2] == whole[k - 1]);
                assert(spaced == mid + gap_after(whole[k - 1]));
                assert(out@ =~= start + render(next));
            } else {
                assert(render(whole.subrange(lo as int, k as int)) =~= Seq::<char>::empty());
                assert(out@ =~= start + render(next));
            }
        }
        k = k + 1;
    }
}

/// The source text of the token trees `lo..hi` of `ts`.
pub fn render_trees(ts: &Vec<TokenTree>, lo: usize, hi: usize) -> (r: String)
    requires
        lo <= hi <= ts.len(),
    ensures
        r@ == render(view_trees(ts@.subrange(lo as int, hi as int))),
{
    let mut out = String::new();
    render_trees_into(&mut out, ts, lo, hi);
    proof {
        assert(Seq::<char>::empty() + render(view_trees(ts@.subrange(lo as int, hi as int)))
            =~= render(view_trees(ts@.subrange(lo as int, hi as int))));
    }
    out
}

/// Whether two texts are the same.
pub fn same_text(a: &str, b: &str) -> (r: bool)
    ensures
        r == (a@ == b@),
{
    let n = a.unicode_len();
    if n != b.unicode_len() {
        return false;
    }
    let mut i: usize = 0;
    while i < n
        invariant
            n == a@.len(),
            n == b@.len(),
            i <= n,
            forall|j: int| 0 <= j < i ==> a@[j] == b@[j],
        decreases n - i,
    {
        if a.get_char(i) != b.get_char(i) {
            return false;
        }
        i = i + 1;
    }
    assert(a@ =~= b@);
    true
}

} // verus!
