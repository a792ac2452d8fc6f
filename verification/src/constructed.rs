//! The constructor expressions that components become.
use vstd::prelude::*;

use crate::ast::ComponentKind;
use crate::tokens::{view_trees, Tok, TokenTree};

verus! {

/// The fields that the generated constructors fill.
#[derive(Clone, Copy, Debug, PartialEq, Eq, Structural)]
pub enum Field {
    Id,
    Content,
    AccentColor,
    Components,
    Spoiler,
    Accessory,
    Divider,
    Spacing,
    Items,
    Description,
    Media,
    File,
    CustomId,
    MaxValues,
    MinValues,
    Required,
    Label,
    Component,
    Disabled,
    Emoji,
    Style,
    Url,
    SkuId,
    ChannelTypes,
    DefaultValues,
    Kind,
    Options,
    Placeholder,
    MaxLength,
    MinLength,
    Value,
    Default,
}

/// Enum values that a short word in the notation stands for.
#[derive(Clone, Copy, Debug, PartialEq, Eq, Structural)]
pub enum Preset {
    ButtonPrimary,
    ButtonSecondary,
    ButtonSuccess,
    ButtonDanger,
    ButtonLink,
    ButtonPremium,
    SelectText,
    SelectUser,
    SelectRole,
    SelectMentionable,
    SelectChannel,
    InputShort,
    InputParagraph,
    SpacingSmall,
    SpacingLarge,
}

/// A required part that the notation left out; the generated code then fails
/// to compile with a message that names it.
#[derive(Clone, Copy, Debug, PartialEq, Eq, Structural)]
pub enum Missing {
    SectionAccessory,
    LabelComponent,
}

/// A value that goes into a field: what the notation wrote, or a default.
#[derive(Debug)]
pub enum Operand {
    /// An expression, copied as written.
    Expr(Vec<TokenTree>),
    /// A nested component, expanded.
    Component(Box<Generated>),
    /// `String::new()`
    EmptyString,
    /// `""`
    EmptyText,
}

/// How a field is initialised.
#[derive(Debug)]
pub enum Init {
    /// `None`
    Absent,
    /// `Some(..)`
    Present(Box<Init>),
    /// the operand itself
    Raw(Operand),
    /// `(..).into()`
    Into(Operand),
    /// `Box::new(..)`
    Boxed(Operand),
    /// `vec![..]`
    List(Vec<Generated>),
    /// `true` or `false`
    Flag(bool),
    /// a path to an enum value
    Preset(Preset),
    /// an `UnfurledMediaItem` with the operand as its URL and nothing else
    Media(Operand),
    /// `compile_error!(..)`
    Missing(Missing),
}

/// One field initialiser.
#[derive(Debug)]
pub struct Entry {
    pub field: Field,
    pub init: Init,
    /// Whether the initialiser carries `#[allow(deprecated)]`.
    pub deprecated: bool,
}

/// The constructor expression that a component becomes.
#[derive(Debug)]
pub struct Generated {
    pub kind: ComponentKind,
    pub entries: Vec<Entry>,
}

pub enum OperandV {
    Expr(Seq<Tok>),
    Component(Box<GenV>),
    EmptyString,
    EmptyText,
}

pub enum InitV {
    Absent,
    Present(Box<InitV>),
    Raw(OperandV),
    Into(OperandV),
    Boxed(OperandV),
    List(Seq<GenV>),
    Flag(bool),
    Preset(Preset),
    Media(OperandV),
    Missing(Missing),
}

pub struct EntryV {
    pub field: Field,
    pub init: InitV,
    pub deprecated: bool,
}

pub struct GenV {
    pub kind: ComponentKind,
    pub entries: Seq<EntryV>,
}

pub open spec fn view_operand(o: Operand) -> OperandV
    decreases o,
{
    match o {
        Operand::Expr(t) => OperandV::Expr(view_trees(t@)),
        Operand::Component(g) => OperandV::Component(Box::new(view_gen(*g))),
        Operand::EmptyString => OperandV::EmptyString,
        Operand::EmptyText => OperandV::EmptyText,
    }
}

pub open spec fn view_init(v: Init) -> InitV
    decreases v,
{
    match v {
        Init::Absent => InitV::Absent,
        Init::Present(b) => InitV::Present(Box::new(view_init(*b))),
        Init::Raw(o) => InitV::Raw(view_operand(o)),
        Init::Into(o) => InitV::Into(view_operand(o)),
        Init::Boxed(o) => InitV::Boxed(view_operand(o)),
        Init::List(gs) => InitV::List(view_gens(gs@)),
        Init::Flag(b) => InitV::Flag(b),
        Init::Preset(p) => InitV::Preset(p),
        Init::Media(o) => InitV::Media(view_operand(o)),
        Init::Missing(m) => InitV::Missing(m),
    }
}

pub open spec fn view_entry(e: Entry) -> EntryV
    decreases e,
{
    EntryV { field: e.field, init: view_init(e.init), deprecated: e.deprecated }
}

pub open spec fn view_entries(s: Seq<Entry>) -> Seq<EntryV>
    decreases s,
{
    if s.len() == 0 {
        Seq::empty()
    } else {
        view_entries(s.drop_last()).push(view_entry(s.last()))
    }
}

pub open spec fn view_gen(g: Generated) -> GenV
    decreases g,
{
    GenV { kind: g.kind, entries: view_entries(g.entries@) }
}

pub open spec fn view_gens(s: Seq<Generated>) -> Seq<GenV>
    decreases s,
{
    if s.len() == 0 {
        Seq::empty()
    } else {
        view_gens(s.drop_last()).push(view_gen(s.last()))
    }
}

impl View for Operand {
    type V = OperandV;

    open spec fn view(&self) -> OperandV {
        view_operand(*self)
    }
}

impl View for Init {
    type V = InitV;

    open spec fn view(&self) -> InitV {
        view_init(*self)
    }
}

impl View for Entry {
    type V = EntryV;

    open spec fn view(&self) -> EntryV {
        view_entry(*self)
    }
}

impl View for Generated {
    type V = GenV;

    open spec fn view(&self) -> GenV {
        view_gen(*self)
    }
}

pub broadcast proof fn lemma_view_entries(s: Seq<Entry>)
    ensures
        #[trigger] view_entries(s).len() == s.len(),
        forall|i: int| 0 <= i < s.len() ==> #[trigger] view_entries(s)[i] == view_entry(s[i]),
    decreases s.len(),
{
    if s.len() > 0 {
        lemma_view_entries(s.drop_last());
    }
}

pub broadcast proof fn lemma_view_gens(s: Seq<Generated>)
    ensures
        #[trigger] view_gens(s).len() == s.len(),
        forall|i: int| 0 <= i < s.len() ==> #[trigger] view_gens(s)[i] == view_gen(s[i]),
    decreases s.len(),
{
    if s.len() > 0 {
        lemma_view_gens(s.drop_last());
    }
}

pub open spec fn opt_operand(o: Option<Operand>) -> Option<OperandV> {
    match o {
        Some(x) => Some(x@),
        None => None,
    }
}

} // verus!
