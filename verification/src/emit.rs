//! Writing constructor expressions out as token trees.
use vstd::prelude::*;
use vstd::string::*;

use crate::ast::ComponentKind;
use crate::constructed::{
    lemma_view_entries, lemma_view_gens, view_entries, view_entry, view_gen, view_gens, Entry,
    EntryV, Field, GenV, Generated, Init, InitV, Missing, Operand, OperandV, Preset,
};
use crate::tokens::{
    clone_trees, lemma_view_trees, lemma_view_trees_concat, toks, Delimiter, Tok, TokenTree,
};

verus! {

broadcast use {lemma_view_trees, lemma_view_entries, lemma_view_gens};

// ---------------------------------------------------------------------------
// The written form, as mathematics.
// ---------------------------------------------------------------------------

/// `::segment`
pub open spec fn path_segment(s: Seq<char>) -> Seq<Tok> {
    seq![Tok::Punct(':', true), Tok::Punct(':', false), Tok::Ident(s)]
}

/// `::twilight_model::channel::message`
pub open spec fn message_path() -> Seq<Tok> {
    path_segment("twilight_model"@) + path_segment("channel"@) + path_segment("message"@)
}

/// `::twilight_model::channel::message::component::name`
pub open spec fn model_type(name: Seq<char>) -> Seq<Tok> {
    message_path() + path_segment("component"@) + path_segment(name)
}

/// The variant of `Component` that wraps a kind, if any wraps it.
pub open spec fn component_variant(k: ComponentKind) -> Option<Seq<char>> {
    match k {
        ComponentKind::Text => Some("TextDisplay"@),
        ComponentKind::Container => Some("Container"@),
        ComponentKind::Section => Some("Section"@),
        ComponentKind::Separator => Some("Separator"@),
        ComponentKind::MediaGallery => Some("MediaGallery"@),
        ComponentKind::Thumbnail => Some("Thumbnail"@),
        ComponentKind::File => Some("File"@),
        ComponentKind::FileUpload => Some("FileUpload"@),
        ComponentKind::Label => Some("Label"@),
        ComponentKind::ActionRow => Some("ActionRow"@),
        ComponentKind::Button => Some("Button"@),
        ComponentKind::SelectMenu => Some("SelectMenu"@),
        ComponentKind::TextInput => Some("TextInput"@),
        ComponentKind::MediaItem => None,
        ComponentKind::SelectOption => None,
    }
}

/// The `twilight_model` type that a kind constructs.
pub open spec fn model_type_name(k: ComponentKind) -> Seq<char> {
    match k {
        ComponentKind::Text => "TextDisplay"@,
        ComponentKind::Container => "Container"@,
        ComponentKind::Section => "Section"@,
        ComponentKind::Separator => "Separator"@,
        ComponentKind::MediaGallery => "MediaGallery"@,
        ComponentKind::Thumbnail => "Thumbnail"@,
        ComponentKind::File => "FileDisplay"@,
        ComponentKind::FileUpload => "FileUpload"@,
        ComponentKind::Label => "Label"@,
        ComponentKind::ActionRow => "ActionRow"@,
        ComponentKind::Button => "Button"@,
        ComponentKind::SelectMenu => "SelectMenu"@,
        ComponentKind::TextInput => "TextInput"@,
        ComponentKind::MediaItem => "MediaGalleryItem"@,
        ComponentKind::SelectOption => "SelectMenuOption"@,
    }
}

pub open spec fn field_name(f: Field) -> Seq<char> {
    match f {
        Field::Id => "id"@,
        Field::Content => "content"@,
        Field::AccentColor => "accent_color"@,
        Field::Components => "components"@,
        Field::Spoiler => "spoiler"@,
        Field::Accessory => "accessory"@,
        Field::Divider => "divider"@,
        Field::Spacing => "spacing"@,
        Field::Items => "items"@,
        Field::Description => "description"@,
        Field::Media => "media"@,
        Field::File => "file"@,
        Field::CustomId => "custom_id"@,
        Field::MaxValues => "max_values"@,
        Field::MinValues => "min_values"@,
        Field::Required => "required"@,
        Field::Label => "label"@,
        Field::Component => "component"@,
        Field::Disabled => "disabled"@,
        Field::Emoji => "emoji"@,
        Field::Style => "style"@,
        Field::Url => "url"@,
        Field::SkuId => "sku_id"@,
        Field::ChannelTypes => "channel_types"@,
        Field::DefaultValues => "default_values"@,
        Field::Kind => "kind"@,
        Field::Options => "options"@,
        Field::Placeholder => "placeholder"@,
        Field::MaxLength => "max_length"@,
        Field::MinLength => "min_length"@,
        Field::Value => "value"@,
        Field::Default => "default"@,
    }
}

/// The enum type and the variant that a preset names.
pub open spec fn preset_path(p: Preset) -> (Seq<char>, Seq<char>) {
    match p {
        Preset::ButtonPrimary => ("ButtonStyle"@, "Primary"@),
        Preset::ButtonSecondary => ("ButtonStyle"@, "Secondary"@),
        Preset::ButtonSuccess => ("ButtonStyle"@, "Success"@),
        Preset::ButtonDanger => ("ButtonStyle"@, "Danger"@),
        Preset::ButtonLink => ("ButtonStyle"@, "Link"@),
        Preset::ButtonPremium => ("ButtonStyle"@, "Premium"@),
        Preset::SelectText => ("SelectMenuType"@, "Text"@),
        Preset::SelectUser => ("SelectMenuType"@, "User"@),
        Preset::SelectRole => ("SelectMenuType"@, "Role"@),
        Preset::SelectMentionable => ("SelectMenuType"@, "Mentionable"@),
        Preset::SelectChannel => ("SelectMenuType"@, "Channel"@),
        Preset::InputShort => ("TextInputStyle"@, "Short"@),
        Preset::InputParagraph => ("TextInputStyle"@, "Paragraph"@),
        Preset::SpacingSmall => ("SeparatorSpacingSize"@, "Small"@),
        Preset::SpacingLarge => ("SeparatorSpacingSize"@, "Large"@),
    }
}

/// The string literal that the compile error for a missing part carries.
pub open spec fn missing_message(m: Missing) -> Seq<char> {
    match m {
        Missing::SectionAccessory => "\"Section requires an accessory (Button or Thumbnail)\""@,
        Missing::LabelComponent => "\"Label requires a child component\""@,
    }
}

/// `#[allow(deprecated)]`
pub open spec fn allow_deprecated() -> Seq<Tok> {
    seq![
        Tok::Punct('#', false),
        Tok::Group(
            Delimiter::Bracket,
            seq![
                Tok::Ident("allow"@),
                Tok::Group(Delimiter::Parenthesis, seq![Tok::Ident("deprecated"@)]),
            ],
        ),
    ]
}

/// `name: None,`
pub open spec fn none_field(name: Seq<char>) -> Seq<Tok> {
    seq![Tok::Ident(name), Tok::Punct(':', false), Tok::Ident("None"@), Tok::Punct(',', false)]
}

/// `(operand).into()`, written out from the operand's tokens.
pub open spec fn into_tokens(o: Seq<Tok>) -> Seq<Tok> {
    seq![
        Tok::Group(Delimiter::Parenthesis, o),
        Tok::Punct('.', false),
        Tok::Ident("into"@),
        Tok::Group(Delimiter::Parenthesis, Seq::empty()),
    ]
}

/// `String::new()`
pub open spec fn empty_string() -> Seq<Tok> {
    seq![
        Tok::Ident("String"@),
        Tok::Punct(':', true),
        Tok::Punct(':', false),
        Tok::Ident("new"@),
        Tok::Group(Delimiter::Parenthesis, Seq::empty()),
    ]
}

/// The tokens of an operand.
pub open spec fn emit_operand(o: OperandV) -> Seq<Tok>
    decreases o,
{
    match o {
        OperandV::Expr(ts) => ts,
        OperandV::Component(g) => emit_gen(*g),
        OperandV::EmptyString => empty_string(),
        OperandV::EmptyText => seq![Tok::Literal("\"\""@)],
    }
}

/// The tokens of a field's initialiser.
pub open spec fn emit_init(v: InitV) -> Seq<Tok>
    decreases v,
{
    match v {
        InitV::Absent => seq![Tok::Ident("None"@)],
        InitV::Present(b) => seq![
            Tok::Ident("Some"@),
            Tok::Group(Delimiter::Parenthesis, emit_init(*b)),
        ],
        InitV::Raw(o) => emit_operand(o),
        InitV::Into(o) => into_tokens(emit_operand(o)),
        InitV::Boxed(o) => seq![
            Tok::Ident("Box"@),
            Tok::Punct(':', true),
            Tok::Punct(':', false),
            Tok::Ident("new"@),
            Tok::Group(Delimiter::Parenthesis, emit_operand(o)),
        ],
        InitV::List(gs) => seq![
            Tok::Ident("vec"@),
            Tok::Punct('!', false),
            Tok::Group(Delimiter::Bracket, emit_list(gs)),
        ],
        InitV::Flag(b) => seq![Tok::Ident(if b { "true"@ } else { "false"@ })],
        InitV::Preset(p) => model_type(preset_path(p).0) + path_segment(preset_path(p).1),
        InitV::Media(o) => model_type("UnfurledMediaItem"@) + seq![
            Tok::Group(
                Delimiter::Brace,
                seq![Tok::Ident("url"@), Tok::Punct(':', false)] + into_tokens(emit_operand(o))
                    + seq![Tok::Punct(',', false)] + none_field("proxy_url"@) + none_field(
                    "height"@,
                ) + none_field("width"@) + none_field("content_type"@),
            ),
        ],
        InitV::Missing(m) => seq![
            Tok::Ident("compile_error"@),
            Tok::Punct('!', false),
            Tok::Group(Delimiter::Parenthesis, seq![Tok::Literal(missing_message(m))]),
        ],
    }
}

/// The tokens of one field initialiser, with its trailing comma.
pub open spec fn emit_entry(e: EntryV) -> Seq<Tok>
    decreases e,
{
    (if e.deprecated {
        allow_deprecated()
    } else {
        Seq::empty()
    }) + seq![Tok::Ident(field_name(e.field)), Tok::Punct(':', false)] + emit_init(e.init) + seq![
        Tok::Punct(',', false),
    ]
}

/// The tokens of the field initialisers, in order.
pub open spec fn emit_entries(es: Seq<EntryV>) -> Seq<Tok>
    decreases es,
{
    if es.len() == 0 {
        Seq::empty()
    } else {
        emit_entries(es.drop_last()) + emit_entry(es.last())
    }
}

/// The tokens of constructor expressions, separated by commas.
pub open spec fn emit_list(gs: Seq<GenV>) -> Seq<Tok>
    decreases gs,
{
    if gs.len() == 0 {
        Seq::empty()
    } else if gs.len() == 1 {
        emit_gen(gs[0])
    } else {
        emit_list(gs.drop_last()) + seq![Tok::Punct(',', false)] + emit_gen(gs.last())
    }
}

/// The tokens of a constructor expression: the struct literal of the kind's
/// type, wrapped in the kind's `Component` variant where it has one.
pub open spec fn emit_gen(g: GenV) -> Seq<Tok>
    decreases g,
{
    let body = model_type(model_type_name(g.kind)) + seq![
        Tok::Group(Delimiter::Brace, emit_entries(g.entries)),
    ];
    match component_variant(g.kind) {
        Some(v) => message_path() + path_segment("Component"@) + path_segment(v) + seq![
            Tok::Group(Delimiter::Parenthesis, body),
        ],
        None => body,
    }
}

// ---------------------------------------------------------------------------
// The written form, as code.
// ---------------------------------------------------------------------------

/// Appends one token tree.
fn put(out: &mut Vec<TokenTree>, t: TokenTree)
    ensures
        toks(*final(out)) == toks(*old(out)) + seq![t@],
{
    let ghost before = out@;
    out.push(t);
    proof {
        assert(out@.drop_last() =~= before);
        assert(toks(*out) =~= toks(*old(out)) + seq![t@]);
    }
}

fn ident(s: &str) -> (r: TokenTree)
    ensures
        r@ == Tok::Ident(s@),
{
    TokenTree::Ident(String::from_str(s))
}

fn group(d: Delimiter, inner: Vec<TokenTree>) -> (r: TokenTree)
    ensures
        r@ == Tok::Group(d, toks(inner)),
{
    TokenTree::Group(d, inner)
}

/// Appends `::s`.
fn put_segment(out: &mut Vec<TokenTree>, s: &str)
    ensures
        toks(*final(out)) == toks(*old(out)) + path_segment(s@),
{
    let ghost start = toks(*out);
    put(out, TokenTree::Punct(':', true));
    put(out, TokenTree::Punct(':', false));
    put(out, ident(s));
    assert(toks(*out) =~= start + path_segment(s@));
}

/// Appends `::twilight_model::channel::message`.
fn put_message_path(out: &mut Vec<TokenTree>)
    ensures
        toks(*final(out)) == toks(*old(out)) + message_path(),
{
    let ghost start = toks(*out);
    put_segment(out, "twilight_model");
    put_segment(out, "channel");
    put_segment(out, "message");
    assert(toks(*out) =~= start + message_path());
}

/// Appends the path of a type in `twilight_model`'s component module.
fn put_model_type(out: &mut Vec<TokenTree>, name: &str)
    ensures
        toks(*final(out)) == toks(*old(out)) + model_type(name@),
{
    let ghost start = toks(*out);
    put_message_path(out);
    put_segment(out, "component");
    put_segment(out, name);
    assert(toks(*out) =~= start + model_type(name@));
}

fn variant_name(k: ComponentKind) -> (r: Option<&'static str>)
    ensures
        match r {
            Some(s) => component_variant(k) == Some(s@),
            None => component_variant(k) is None,
        },
{
    match k {
        ComponentKind::Text => Some("TextDisplay"),
        ComponentKind::Container => Some("Container"),
        ComponentKind::Section => Some("Section"),
        ComponentKind::Separator => Some("Separator"),
        ComponentKind::MediaGallery => Some("MediaGallery"),
        ComponentKind::Thumbnail => Some("Thumbnail"),
        ComponentKind::File => Some("File"),
        ComponentKind::FileUpload => Some("FileUpload"),
        ComponentKind::Label => Some("Label"),
        ComponentKind::ActionRow => Some("ActionRow"),
        ComponentKind::Button => Some("Button"),
        ComponentKind::SelectMenu => Some("SelectMenu"),
        ComponentKind::TextInput => Some("TextInput"),
        ComponentKind::MediaItem => None,
        ComponentKind::SelectOption => None,
    }
}

fn kind_type_text(k: ComponentKind) -> (r: &'static str)
    ensures
        r@ == model_type_name(k),
{
    match k {
        ComponentKind::Text => "TextDisplay",
        ComponentKind::Container => "Container",
        ComponentKind::Section => "Section",
        ComponentKind::Separator => "Separator",
        ComponentKind::MediaGallery => "MediaGallery",
        ComponentKind::Thumbnail => "Thumbnail",
        ComponentKind::File => "FileDisplay",
        ComponentKind::FileUpload => "FileUpload",
        ComponentKind::Label => "Label",
        ComponentKind::ActionRow => "ActionRow",
        ComponentKind::Button => "Button",
        ComponentKind::SelectMenu => "SelectMenu",
        ComponentKind::TextInput => "TextInput",
        ComponentKind::MediaItem => "MediaGalleryItem",
        ComponentKind::SelectOption => "SelectMenuOption",
    }
}

fn field_text(f: Field) -> (r: &'static str)
    ensures
        r@ == field_name(f),
{
    match f {
        Field::Id => "id",
        Field::Content => "content",
        Field::AccentColor => "accent_color",
        Field::Components => "components",
        Field::Spoiler => "spoiler",
        Field::Accessory => "accessory",
        Field::Divider => "divider",
        Field::Spacing => "spacing",
        Field::Items => "items",
        Field::Description => "description",
        Field::Media => "media",
        Field::File => "file",
        Field::CustomId => "custom_id",
        Field::MaxValues => "max_values",
        Field::MinValues => "min_values",
        Field::Required => "required",
        Field::Label => "label",
        Field::Component => "component",
        Field::Disabled => "disabled",
        Field::Emoji => "emoji",
        Field::Style => "style",
        Field::Url => "url",
        Field::SkuId => "sku_id",
        Field::ChannelTypes => "channel_types",
        Field::DefaultValues => "default_values",
        Field::Kind => "kind",
        Field::Options => "options",
        Field::Placeholder => "placeholder",
        Field::MaxLength => "max_length",
        Field::MinLength => "min_length",
        Field::Value => "value",
        Field::Default => "default",
    }
}

fn preset_text(p: Preset) -> (r: (&'static str, &'static str))
    ensures
        r.0@ == preset_path(p).0,
        r.1@ == preset_path(p).1,
{
    match p {
        Preset::ButtonPrimary => ("ButtonStyle", "Primary"),
        Preset::ButtonSecondary => ("ButtonStyle", "Secondary"),
        Preset::ButtonSuccess => ("ButtonStyle", "Success"),
        Preset::ButtonDanger => ("ButtonStyle", "Danger"),
        Preset::ButtonLink => ("ButtonStyle", "Link"),
        Preset::ButtonPremium => ("ButtonStyle", "Premium"),
        Preset::SelectText => ("SelectMenuType", "Text"),
        Preset::SelectUser => ("SelectMenuType", "User"),
        Preset::SelectRole => ("SelectMenuType", "Role"),
        Preset::SelectMentionable => ("SelectMenuType", "Mentionable"),
        Preset::SelectChannel => ("SelectMenuType", "Channel"),
        Preset::InputShort => ("TextInputStyle", "Short"),
        Preset::InputParagraph => ("TextInputStyle", "Paragraph"),
        Preset::SpacingSmall => ("SeparatorSpacingSize", "Small"),
        Preset::SpacingLarge => ("SeparatorSpacingSize", "Large"),
    }
}

fn missing_text(m: Missing) -> (r: &'static str)
    ensures
        r@ == missing_message(m),
{
    match m {
        Missing::SectionAccessory => "\"Section requires an accessory (Button or Thumbnail)\"",
        Missing::LabelComponent => "\"Label requires a child component\"",
    }
}

/// Appends `(tokens).into()`.
fn put_into(out: &mut Vec<TokenTree>, inner: Vec<TokenTree>)
    ensures
        toks(*final(out)) == toks(*old(out)) + into_tokens(toks(inner)),
{
    let ghost start = toks(*out);
    let ghost t = toks(inner);
    put(out, group(Delimiter::Parenthesis, inner));
    put(out, TokenTree::Punct('.', false));
    put(out, ident("into"));
    put(out, group(Delimiter::Parenthesis, Vec::new()));
    assert(toks(*out) =~= start + into_tokens(t));
}

/// Appends `name: None,`.
fn put_none_field(out: &mut Vec<TokenTree>, name: &str)
    ensures
        toks(*final(out)) == toks(*old(out)) + none_field(name@),
{
    let ghost start = toks(*out);
    put(out, ident(name));
    put(out, TokenTree::Punct(':', false));
    put(out, ident("None"));
    put(out, TokenTree::Punct(',', false));
    assert(toks(*out) =~= start + none_field(name@));
}

/// The tokens of an operand.
pub fn write_operand(o: &Operand) -> (r: Vec<TokenTree>)
    ensures
        toks(r) == emit_operand(o@),
    decreases o, 0nat,
{
    match o {
        Operand::Expr(ts) => {
            let r = clone_trees(ts, 0, ts.len());
            proof {
                assert(ts@.subrange(0, ts@.len() as int) =~= ts@);
            }
            r
        },
        Operand::Component(g) => write_generated(g),
        Operand::EmptyString => {
            let mut r = Vec::new();
            put(&mut r, ident("String"));
            put(&mut r, TokenTree::Punct(':', true));
            put(&mut r, TokenTree::Punct(':', false));
            put(&mut r, ident("new"));
            put(&mut r, group(Delimiter::Parenthesis, Vec::new()));
            assert(toks(r) =~= empty_string());
            r
        },
        Operand::EmptyText => {
            let mut r = Vec::new();
            put(&mut r, TokenTree::Literal(String::from_str("\"\"")));
            assert(toks(r) =~= seq![Tok::Literal("\"\""@)]);
            r
        },
    }
}

/// The tokens of a field's initialiser.
pub fn write_init(v: &Init) -> (r: Vec<TokenTree>)
    ensures
        toks(r) == emit_init(v@),
    decreases v, 0nat,
{
    let mut r: Vec<TokenTree> = Vec::new();
    match v {
        Init::Absent => {
            put(&mut r, ident("None"));
            assert(toks(r) =~= emit_init(v@));
        },
        Init::Present(b) => {
            put(&mut r, ident("Some"));
            put(&mut r, group(Delimiter::Parenthesis, write_init(b)));
            assert(toks(r) =~= emit_init(v@));
        },
        Init::Raw(o) => {
            return write_operand(o);
        },
        Init::Into(o) => {
            put_into(&mut r, write_operand(o));
            assert(toks(r) =~= emit_init(v@));
        },
        Init::Boxed(o) => {
            put(&mut r, ident("Box"));
            put(&mut r, TokenTree::Punct(':', true));
            put(&mut r, TokenTree::Punct(':', false));
            put(&mut r, ident("new"));
            put(&mut r, group(Delimiter::Parenthesis, write_operand(o)));
            assert(toks(r) =~= emit_init(v@));
        },
        Init::List(gs) => {
            put(&mut r, ident("vec"));
            put(&mut r, TokenTree::Punct('!', false));
            put(&mut r, group(Delimiter::Bracket, write_list(gs)));
            assert(toks(r) =~= emit_init(v@));
        },
        Init::Flag(b) => {
            put(&mut r, ident(if *b { "true" } else { "false" }));
            assert(toks(r) =~= emit_init(v@));
        },
        Init::Preset(p) => {
            let (ty, variant) = preset_text(*p);
            put_model_type(&mut r, ty);
            put_segment(&mut r, variant);
            assert(toks(r) =~= emit_init(v@));
        },
        Init::Media(o) => {
            put_model_type(&mut r, "UnfurledMediaItem");
            let mut inner = Vec::new();
            put(&mut inner, ident("url"));
            put(&mut inner, TokenTree::Punct(':', false));
            put_into(&mut inner, write_operand(o));
            put(&mut inner, TokenTree::Punct(',', false));
            put_none_field(&mut inner, "proxy_url");
            put_none_field(&mut inner, "height");
            put_none_field(&mut inner, "width");
            put_none_field(&mut inner, "content_type");
            assert(toks(inner) =~= seq![Tok::Ident("url"@), Tok::Punct(':', false)] + into_tokens(
                emit_operand(o@),
            ) + seq![Tok::Punct(',', false)] + none_field("proxy_url"@) + none_field("height"@)
                + none_field("width"@) + none_field("content_type"@));
            put(&mut r, group(Delimiter::Brace, inner));
            assert(toks(r) =~= emit_init(v@));
        },
        Init::Missing(m) => {
            put(&mut r, ident("compile_error"));
            put(&mut r, TokenTree::Punct('!', false));
            let mut inner = Vec::new();
            put(&mut inner, TokenTree::Literal(String::from_str(missing_text(*m))));
            assert(toks(inner) =~= seq![Tok::Literal(missing_message(*m))]);
            put(&mut r, group(Delimiter::Parenthesis, inner));
            assert(toks(r) =~= emit_init(v@));
        },
    }
    r
}

/// Appends all of `more`.
fn put_all(out: &mut Vec<TokenTree>, more: Vec<TokenTree>)
    ensures
        toks(*final(out)) == toks(*old(out)) + toks(more),
{
    let mut more = more;
    let ghost a = out@;
    let ghost b = more@;
    out.append(&mut more);
    proof {
        lemma_view_trees_concat(a, b);
    }
}

/// The tokens of one field initialiser.
pub fn write_entry(e: &Entry) -> (r: Vec<TokenTree>)
    ensures
        toks(r) == emit_entry(e@),
    decreases e, 0nat,
{
    let mut r: Vec<TokenTree> = Vec::new();
    if e.deprecated {
        put(&mut r, TokenTree::Punct('#', false));
        let mut args = Vec::new();
        put(&mut args, ident("deprecated"));
        assert(toks(args) =~= seq![Tok::Ident("deprecated"@)]);
        let mut attr = Vec::new();
        put(&mut attr, ident("allow"));
        put(&mut attr, group(Delimiter::Parenthesis, args));
        assert(toks(attr) =~= seq![
            Tok::Ident("allow"@),
            Tok::Group(Delimiter::Parenthesis, seq![Tok::Ident("deprecated"@)]),
        ]);
        put(&mut r, group(Delimiter::Bracket, attr));
        assert(toks(r) =~= allow_deprecated());
    } else {
        assert(toks(r) =~= Seq::<Tok>::empty());
    }
    put(&mut r, ident(field_text(e.field)));
    put(&mut r, TokenTree::Punct(':', false));
    put_all(&mut r, write_init(&e.init));
    put(&mut r, TokenTree::Punct(',', false));
    assert(toks(r) =~= emit_entry(e@));
    r
}

/// The tokens of the field initialisers `es`, in order.
pub fn write_entries(es: &Vec<Entry>) -> (r: Vec<TokenTree>)
    ensures
        toks(r) == emit_entries(view_entries(es@)),
    decreases es, 0nat,
{
    let ghost v = view_entries(es@);
    let mut r: Vec<TokenTree> = Vec::new();
    let mut k: usize = 0;
    while k < es.len()
        invariant
            k <= es.len(),
            v == view_entries(es@),
            toks(r) == emit_entries(v.take(k as int)),
        decreases es.len() - k,
    {
        proof {
            vstd::std_specs::vec::axiom_vec_index_decreases(*es, k as int);
        }
        put_all(&mut r, write_entry(&es[k]));
        proof {
            assert(v.take(k + 1).drop_last() =~= v.take(k as int));
            lemma_view_entries(es@);
            assert(view_entries(es@)[k as int] == view_entry(es@[k as int]));
        }
        k = k + 1;
    }
    proof {
        assert(v.take(es.len() as int) =~= v);
    }
    r
}

/// The tokens of the constructor expressions `gs`, separated by commas.
pub fn write_list(gs: &Vec<Generated>) -> (r: Vec<TokenTree>)
    ensures
        toks(r) == emit_list(view_gens(gs@)),
    decreases gs, 0nat,
{
    let ghost v = view_gens(gs@);
    let mut r: Vec<TokenTree> = Vec::new();
    let mut k: usize = 0;
    while k < gs.len()
        invariant
            k <= gs.len(),
            v == view_gens(gs@),
            toks(r) == emit_list(v.take(k as int)),
        decreases gs.len() - k,
    {
        proof {
            vstd::std_specs::vec::axiom_vec_index_decreases(*gs, k as int);
        }
        let ghost before = toks(r);
        if k > 0 {
            put(&mut r, TokenTree::Punct(',', false));
        }
        put_all(&mut r, write_generated(&gs[k]));
        proof {
            let next = v.take(k + 1);
            assert(next.drop_last() =~= v.take(k as int));
            lemma_view_gens(gs@);
            assert(view_gens(gs@)[k as int] == view_gen(gs@[k as int]));
            if k == 0 {
                assert(toks(r) =~= emit_list(next));
            } else {
                assert(toks(r) =~= emit_list(next));
            }
        }
        k = k + 1;
    }
    proof {
        assert(v.take(gs.len() as int) =~= v);
    }
    r
}

/// The tokens of a constructor expression.
pub fn write_generated(g: &Generated) -> (r: Vec<TokenTree>)
    ensures
        toks(r) == emit_gen(g@),
    decreases g, 1nat,
{
    let mut body: Vec<TokenTree> = Vec::new();
    put_model_type(&mut body, kind_type_text(g.kind));
    put(&mut body, group(Delimiter::Brace, write_entries(&g.entries)));
    let ghost b = toks(body);
    match variant_name(g.kind) {
        Some(variant) => {
            let mut r: Vec<TokenTree> = Vec::new();
            put_message_path(&mut r);
            put_segment(&mut r, "Component");
            put_segment(&mut r, variant);
            put(&mut r, group(Delimiter::Parenthesis, body));
            assert(toks(r) =~= emit_gen(g@));
            r
        },
        None => {
            assert(toks(body) =~= emit_gen(g@));
            body
        },
    }
}

} // verus!
