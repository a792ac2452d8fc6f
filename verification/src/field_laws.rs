//! What each kind of component writes into each field of the `twilight_model`
//! struct it constructs, stated over the written tokens and the properties of
//! the notation.
use vstd::prelude::*;

use crate::ast::{kind_named, ComponentKind, NodeV};
use crate::constructed::{EntryV, InitV, OperandV, Preset};
use crate::emit::{
    allow_deprecated, emit_entries, emit_entry, emit_init, emit_operand, empty_string, field_name,
    into_tokens, model_type, model_type_name, none_field, preset_path,
};
use crate::expand::{array_items, component_expansion};
use crate::generate::{
    either, gen, gen_list, into_or, is_word, or_operand, prop, raw_or, select_menu_type,
    separator_spacing, shorthand, some_into, some_raw,
};
use crate::parse::{read_component, starts_component, ParseErrorV};
use crate::syntax::RustSyntax;
use crate::tokens::{bare, render, Delimiter, Tok};

verus! {

// ---------------------------------------------------------------------------
// Written forms.
// ---------------------------------------------------------------------------

/// `name: value,`
pub open spec fn field_tokens(name: Seq<char>, value: Seq<Tok>) -> Seq<Tok> {
    seq![Tok::Ident(name), Tok::Punct(':', false)] + value + seq![Tok::Punct(',', false)]
}

/// The field initialisers between the braces of the struct literal that `n`
/// expands to.
pub open spec fn fields_of(n: NodeV) -> Seq<Tok> {
    emit_entries(gen(n).entries)
}

/// Whether `t` stands in `body` from position `i` on.
pub open spec fn holds_at(body: Seq<Tok>, i: int, t: Seq<Tok>) -> bool {
    0 <= i && i + t.len() <= body.len() && body.subrange(i, i + t.len()) == t
}

/// Whether the struct literal that `n` expands to initialises the field
/// `name` with the tokens `value`.
pub open spec fn has_field(n: NodeV, name: Seq<char>, value: Seq<Tok>) -> bool {
    exists|i: int| #[trigger] holds_at(fields_of(n), i, field_tokens(name, value))
}

/// `#[allow(deprecated)]`
pub open spec fn deprecation_allowed() -> Seq<Tok> {
    seq![
        Tok::Punct('#', false),
        Tok::Group(
            Delimiter::Bracket,
            seq![
                Tok::Ident("allow"@),
                Tok::Group(Delimiter::Parenthesis, seq![Tok::Ident("deprecated"@)]),
            ],
        ),
    ]
}

/// Whether the struct literal that `n` expands to initialises the field
/// `name` with `value`, under `#[allow(deprecated)]`.
pub open spec fn has_deprecated_field(n: NodeV, name: Seq<char>, value: Seq<Tok>) -> bool {
    exists|i: int|
        #[trigger] holds_at(fields_of(n), i, deprecation_allowed() + field_tokens(name, value))
}

/// `None`
pub open spec fn none_tokens() -> Seq<Tok> {
    seq![Tok::Ident("None"@)]
}

/// `Some(value)`
pub open spec fn some_tokens(value: Seq<Tok>) -> Seq<Tok> {
    seq![Tok::Ident("Some"@), Tok::Group(Delimiter::Parenthesis, value)]
}

/// `(value).into()`
pub open spec fn into_of(value: Seq<Tok>) -> Seq<Tok> {
    seq![
        Tok::Group(Delimiter::Parenthesis, value),
        Tok::Punct('.', false),
        Tok::Ident("into"@),
        Tok::Group(Delimiter::Parenthesis, Seq::empty()),
    ]
}

/// `String::new()`
pub open spec fn new_string() -> Seq<Tok> {
    seq![
        Tok::Ident("String"@),
        Tok::Punct(':', true),
        Tok::Punct(':', false),
        Tok::Ident("new"@),
        Tok::Group(Delimiter::Parenthesis, Seq::empty()),
    ]
}

/// `::name`
pub open spec fn segment(name: Seq<char>) -> Seq<Tok> {
    seq![Tok::Punct(':', true), Tok::Punct(':', false), Tok::Ident(name)]
}

/// `::twilight_model::channel::message::component::ty::variant`
pub open spec fn model_path(ty: Seq<char>, variant: Seq<char>) -> Seq<Tok> {
    segment("twilight_model"@) + segment("channel"@) + segment("message"@) + segment(
        "component"@,
    ) + segment(ty) + segment(variant)
}

/// `vec![items]`
pub open spec fn vec_of(items: Seq<Tok>) -> Seq<Tok> {
    seq![Tok::Ident("vec"@), Tok::Punct('!', false), Tok::Group(Delimiter::Bracket, items)]
}

/// `Box::new(value)`
pub open spec fn boxed(value: Seq<Tok>) -> Seq<Tok> {
    seq![
        Tok::Ident("Box"@),
        Tok::Punct(':', true),
        Tok::Punct(':', false),
        Tok::Ident("new"@),
        Tok::Group(Delimiter::Parenthesis, value),
    ]
}

/// `true` or `false`
pub open spec fn flag(b: bool) -> Seq<Tok> {
    seq![Tok::Ident(if b { "true"@ } else { "false"@ })]
}

/// `compile_error!("message")`, with the message as a string literal.
pub open spec fn compile_error_of(literal: Seq<char>) -> Seq<Tok> {
    seq![
        Tok::Ident("compile_error"@),
        Tok::Punct('!', false),
        Tok::Group(Delimiter::Parenthesis, seq![Tok::Literal(literal)]),
    ]
}

/// `::twilight_model::..::UnfurledMediaItem { url: (url).into(), .. None }`
pub open spec fn media_of(url: Seq<Tok>) -> Seq<Tok> {
    segment("twilight_model"@) + segment("channel"@) + segment("message"@) + segment(
        "component"@,
    ) + segment("UnfurledMediaItem"@) + seq![
        Tok::Group(
            Delimiter::Brace,
            field_tokens("url"@, into_of(url)) + field_tokens("proxy_url"@, none_tokens())
                + field_tokens("height"@, none_tokens()) + field_tokens("width"@, none_tokens())
                + field_tokens("content_type"@, none_tokens()),
        ),
    ]
}

// ---------------------------------------------------------------------------
// What the notation gives.
// ---------------------------------------------------------------------------

/// The shorthand of `n`, as an operand.
pub open spec fn short(n: NodeV) -> Option<OperandV> {
    match n.shorthand {
        Some(ts) => Some(OperandV::Expr(ts)),
        None => None,
    }
}

/// The first of two operands that is there.
pub open spec fn first_of(a: Option<OperandV>, b: Option<OperandV>) -> Option<OperandV> {
    if a is Some {
        a
    } else {
        b
    }
}

/// The operand's tokens, or `None`.
pub open spec fn raw_or_none(o: Option<OperandV>) -> Seq<Tok> {
    match o {
        Some(x) => emit_operand(x),
        None => none_tokens(),
    }
}

/// `Some(operand)`, or `None`.
pub open spec fn some_or_none(o: Option<OperandV>) -> Seq<Tok> {
    match o {
        Some(x) => some_tokens(emit_operand(x)),
        None => none_tokens(),
    }
}

/// `Some((operand).into())`, or `None`.
pub open spec fn some_into_or_none(o: Option<OperandV>) -> Seq<Tok> {
    match o {
        Some(x) => some_tokens(into_of(emit_operand(x))),
        None => none_tokens(),
    }
}

/// `(operand).into()`, or `String::new()`.
pub open spec fn into_or_new(o: Option<OperandV>) -> Seq<Tok> {
    match o {
        Some(x) => into_of(emit_operand(x)),
        None => new_string(),
    }
}

/// The operand's tokens, or the flag `d`.
pub open spec fn raw_or_flag(o: Option<OperandV>, d: bool) -> Seq<Tok> {
    match o {
        Some(x) => emit_operand(x),
        None => flag(d),
    }
}

/// Whether an operand is the one word `w`.
pub open spec fn written_as(o: OperandV, w: Seq<char>) -> bool {
    o matches OperandV::Expr(ts) && render(ts) == w
}

/// The children of `n`, none when it has no brackets.
pub open spec fn kids(n: NodeV) -> Seq<NodeV> {
    match n.children {
        Some(cs) => cs,
        None => Seq::empty(),
    }
}

// ---------------------------------------------------------------------------
// From entries to written fields.
// ---------------------------------------------------------------------------

/// Each entry is written out, under its field's name, among the initialisers.
proof fn lemma_entry_at(es: Seq<EntryV>, k: int) -> (i: int)
    requires
        0 <= k < es.len(),
    ensures
        holds_at(
            emit_entries(es),
            i,
            field_tokens(field_name(es[k].field), emit_init(es[k].init)),
        ),
        es[k].deprecated ==> holds_at(
            emit_entries(es),
            i - 2,
            allow_deprecated() + field_tokens(field_name(es[k].field), emit_init(es[k].init)),
        ),
    decreases es.len(),
{
    let pre = emit_entries(es.drop_last());
    let t = field_tokens(field_name(es[k].field), emit_init(es[k].init));
    let d = allow_deprecated() + t;
    assert(emit_entries(es) == pre + emit_entry(es.last()));
    if k == es.len() - 1 {
        let e = es.last();
        let attr = if e.deprecated {
            allow_deprecated()
        } else {
            Seq::empty()
        };
        assert(emit_entry(e) =~= attr + t);
        let i: int = (pre.len() + attr.len()) as int;
        assert(emit_entries(es).subrange(i, i + t.len()) =~= t);
        if e.deprecated {
            assert(emit_entries(es).subrange(i - 2, i - 2 + d.len()) =~= d);
        }
        i
    } else {
        let i = lemma_entry_at(es.drop_last(), k);
        assert(es.drop_last()[k] == es[k]);
        assert(emit_entries(es).subrange(i, i + t.len()) =~= pre.subrange(i, i + t.len()));
        if es[k].deprecated {
            assert(emit_entries(es).subrange(i - 2, i - 2 + d.len()) =~= pre.subrange(
                i - 2,
                i - 2 + d.len(),
            ));
        }
        i
    }
}

/// The written forms above are those that the expansion writes.
proof fn lemma_forms()
    ensures
        empty_string() == new_string(),
        forall|t: Seq<Tok>| #[trigger] into_tokens(t) == into_of(t),
{
    assert(empty_string() =~= new_string());
    assert forall|t: Seq<Tok>| #[trigger] into_tokens(t) == into_of(t) by {
        assert(into_tokens(t) =~= into_of(t));
    }
}

/// How each shape of initialiser is written.
proof fn lemma_shapes(o: Option<OperandV>)
    ensures
        emit_init(into_or(o, InitV::Raw(OperandV::EmptyString))) == into_or_new(o),
        emit_init(some_into(o)) == some_into_or_none(o),
        emit_init(some_raw(o)) == some_or_none(o),
        emit_init(raw_or(o, InitV::Absent)) == raw_or_none(o),
        emit_init(raw_or(o, InitV::Flag(false))) == raw_or_flag(o, false),
{
    lemma_forms();
    match o {
        Some(x) => {
            assert(emit_init(InitV::Into(x)) == into_tokens(emit_operand(x)));
            assert(emit_init(InitV::Raw(x)) == emit_operand(x));
        },
        None => {
            assert(emit_init(InitV::Raw(OperandV::EmptyString)) == emit_operand(
                OperandV::EmptyString,
            ));
        },
    }
}

/// How each initialiser is written.
proof fn lemma_emits(v: InitV, o: OperandV)
    ensures
        emit_init(InitV::Present(Box::new(v))) == some_tokens(emit_init(v)),
        emit_init(InitV::Raw(o)) == emit_operand(o),
        emit_init(InitV::Into(o)) == into_of(emit_operand(o)),
        emit_init(InitV::Media(o)) == media_of(emit_operand(o)),
        v matches InitV::Preset(p) ==> emit_init(v) == model_path(preset_path(p).0, preset_path(p).1),
        emit_operand(OperandV::EmptyString) == new_string(),
        emit_operand(OperandV::EmptyText) == seq![Tok::Literal("\"\""@)],
{
    lemma_forms();
    let u = emit_operand(o);
    assert forall|x: Seq<char>| #[trigger] none_field(x) == field_tokens(x, none_tokens()) by {
        assert(none_field(x) =~= field_tokens(x, none_tokens()));
    }
    let written = seq![Tok::Ident("url"@), Tok::Punct(':', false)] + into_tokens(u) + seq![
        Tok::Punct(',', false),
    ] + none_field("proxy_url"@) + none_field("height"@) + none_field("width"@) + none_field(
        "content_type"@,
    );
    let stated = field_tokens("url"@, into_of(u)) + field_tokens("proxy_url"@, none_tokens())
        + field_tokens("height"@, none_tokens()) + field_tokens("width"@, none_tokens())
        + field_tokens("content_type"@, none_tokens());
    assert(written =~= stated);
    assert(model_type("UnfurledMediaItem"@) =~= segment("twilight_model"@) + segment("channel"@)
        + segment("message"@) + segment("component"@) + segment("UnfurledMediaItem"@));
    assert(emit_init(InitV::Media(o)) =~= media_of(emit_operand(o)));
    if let InitV::Preset(p) = v {
        assert(emit_init(v) =~= model_path(preset_path(p).0, preset_path(p).1));
    }
}

/// The notation's shorthand and fallbacks, as the expansion reads them.
proof fn lemma_reads(n: NodeV)
    ensures
        shorthand(n) == short(n),
        forall|a: Option<OperandV>, b: Option<OperandV>| #[trigger] either(a, b) == first_of(a, b),
        forall|o: Option<OperandV>| #[trigger] or_operand(o, OperandV::EmptyString) == match o {
            Some(x) => x,
            None => OperandV::EmptyString,
        },
        forall|o: Option<OperandV>| #[trigger] or_operand(o, OperandV::EmptyText) == match o {
            Some(x) => x,
            None => OperandV::EmptyText,
        },
        forall|x: OperandV, w: Seq<char>| #[trigger] is_word(x, w) == written_as(x, w),
{
}

/// The `k`-th entry of what `n` becomes, named `name` and written `value`.
proof fn lemma_field(n: NodeV, k: int, name: Seq<char>, value: Seq<Tok>)
    requires
        0 <= k < gen(n).entries.len(),
        field_name(gen(n).entries[k].field) == name,
        emit_init(gen(n).entries[k].init) == value,
    ensures
        has_field(n, name, value),
{
    lemma_written(n, k);
}

/// The `k`-th entry of what `n` becomes is written among its fields.
proof fn lemma_written(n: NodeV, k: int)
    requires
        0 <= k < gen(n).entries.len(),
    ensures
        has_field(
            n,
            field_name(gen(n).entries[k].field),
            emit_init(gen(n).entries[k].init),
        ),
{
    let i = lemma_entry_at(gen(n).entries, k);
    assert(holds_at(
        fields_of(n),
        i,
        field_tokens(field_name(gen(n).entries[k].field), emit_init(gen(n).entries[k].init)),
    ));
}

// ---------------------------------------------------------------------------
// The fields of each kind.
// ---------------------------------------------------------------------------

/// A text input fills each field from the property of the same name: the
/// length limits and `required` as given, `placeholder`, `value` and the
/// label converted (the label, a deprecated field, under
/// `#[allow(deprecated)]`), the custom id converted or empty, and the style
/// words `Short` and `Paragraph` as the `TextInputStyle` of that name, `Short`
/// when none is given.
pub proof fn text_input_fields(n: NodeV)
    requires
        n.kind == ComponentKind::TextInput,
    ensures
        has_field(n, "id"@, raw_or_none(prop(n, "id"@))),
        has_field(n, "custom_id"@, into_or_new(prop(n, "custom_id"@))),
        has_deprecated_field(n, "label"@, some_into_or_none(prop(n, "label"@))),
        has_field(n, "max_length"@, some_or_none(prop(n, "max_length"@))),
        has_field(n, "min_length"@, some_or_none(prop(n, "min_length"@))),
        has_field(n, "placeholder"@, some_into_or_none(prop(n, "placeholder"@))),
        has_field(n, "required"@, some_or_none(prop(n, "required"@))),
        has_field(
            n,
            "style"@,
            match prop(n, "style"@) {
                Some(x) => if written_as(x, "Short"@) {
                    model_path("TextInputStyle"@, "Short"@)
                } else if written_as(x, "Paragraph"@) {
                    model_path("TextInputStyle"@, "Paragraph"@)
                } else {
                    emit_operand(x)
                },
                None => model_path("TextInputStyle"@, "Short"@),
            },
        ),
        has_field(n, "value"@, some_into_or_none(prop(n, "value"@))),
{
    let es = gen(n).entries;
    assert(es.len() == 9);
    lemma_shapes(prop(n, "id"@));
    lemma_field(n, 0, "id"@, raw_or_none(prop(n, "id"@)));
    lemma_shapes(prop(n, "custom_id"@));
    lemma_field(n, 1, "custom_id"@, into_or_new(prop(n, "custom_id"@)));
    lemma_shapes(prop(n, "label"@));
    let i = lemma_entry_at(es, 2);
    assert(allow_deprecated() == deprecation_allowed());
    assert(holds_at(
        fields_of(n),
        i - 2,
        deprecation_allowed() + field_tokens("label"@, some_into_or_none(prop(n, "label"@))),
    ));
    lemma_shapes(prop(n, "max_length"@));
    lemma_field(n, 3, "max_length"@, some_or_none(prop(n, "max_length"@)));
    lemma_shapes(prop(n, "min_length"@));
    lemma_field(n, 4, "min_length"@, some_or_none(prop(n, "min_length"@)));
    lemma_shapes(prop(n, "placeholder"@));
    lemma_field(n, 5, "placeholder"@, some_into_or_none(prop(n, "placeholder"@)));
    lemma_shapes(prop(n, "required"@));
    lemma_field(n, 6, "required"@, some_or_none(prop(n, "required"@)));
    lemma_written(n, 7);
    lemma_shapes(prop(n, "value"@));
    lemma_field(n, 8, "value"@, some_into_or_none(prop(n, "value"@)));
}


/// The tokens of what the first child of `n` becomes, if it has one.
pub open spec fn first_kid(n: NodeV) -> Option<OperandV> {
    if kids(n).len() > 0 {
        Some(OperandV::Component(Box::new(gen(kids(n)[0]))))
    } else {
        None
    }
}

/// A URL operand, or an empty string literal.
pub open spec fn url_or_empty(o: Option<OperandV>) -> Seq<Tok> {
    match o {
        Some(x) => emit_operand(x),
        None => seq![Tok::Literal("\"\""@)],
    }
}

/// A text display writes its content, from the shorthand or else the
/// `content` property, converted; an empty string when neither is there.
pub proof fn text_fields(n: NodeV)
    requires
        n.kind == ComponentKind::Text,
    ensures
        has_field(n, "id"@, raw_or_none(prop(n, "id"@))),
        has_field(n, "content"@, into_of(match first_of(short(n), prop(n, "content"@)) {
            Some(x) => emit_operand(x),
            None => new_string(),
        })),
{
    lemma_forms();
    lemma_shapes(prop(n, "id"@));
    lemma_field(n, 0, "id"@, raw_or_none(prop(n, "id"@)));
    lemma_reads(n);
    let c = first_of(short(n), prop(n, "content"@));
    lemma_emits(InitV::Absent, or_operand(c, OperandV::EmptyString));
    lemma_field(n, 1, "content"@, into_of(match c {
        Some(x) => emit_operand(x),
        None => new_string(),
    }));
}

/// A container writes its accent colour, from `accent_color` or else `color`,
/// as `Some(Some(..))`; its children's expressions, in order; and `spoiler`.
pub proof fn container_fields(n: NodeV)
    requires
        n.kind == ComponentKind::Container,
    ensures
        has_field(n, "id"@, raw_or_none(prop(n, "id"@))),
        has_field(
            n,
            "accent_color"@,
            match first_of(prop(n, "accent_color"@), prop(n, "color"@)) {
                Some(x) => some_tokens(some_tokens(emit_operand(x))),
                None => none_tokens(),
            },
        ),
        has_field(n, "components"@, vec_of(array_items(kids(n)))),
        has_field(n, "spoiler"@, some_or_none(prop(n, "spoiler"@))),
{
    lemma_shapes(prop(n, "id"@));
    lemma_field(n, 0, "id"@, raw_or_none(prop(n, "id"@)));
    lemma_reads(n);
    let c = first_of(prop(n, "accent_color"@), prop(n, "color"@));
    if let Some(x) = c {
        lemma_emits(InitV::Present(Box::new(InitV::Raw(x))), x);
        lemma_emits(InitV::Raw(x), x);
    }
    lemma_field(n, 1, "accent_color"@, match c {
        Some(x) => some_tokens(some_tokens(emit_operand(x))),
        None => none_tokens(),
    });
    lemma_written(n, 2);
    lemma_shapes(prop(n, "spoiler"@));
    lemma_field(n, 3, "spoiler"@, some_or_none(prop(n, "spoiler"@)));
}

/// A section writes its accessory boxed, or a compile error when it has
/// none, and its children's expressions, in order.
pub proof fn section_fields(n: NodeV)
    requires
        n.kind == ComponentKind::Section,
    ensures
        has_field(n, "id"@, raw_or_none(prop(n, "id"@))),
        has_field(n, "accessory"@, match prop(n, "accessory"@) {
            Some(x) => boxed(emit_operand(x)),
            None => compile_error_of("\"Section requires an accessory (Button or Thumbnail)\""@),
        }),
        has_field(n, "components"@, vec_of(array_items(kids(n)))),
{
    lemma_shapes(prop(n, "id"@));
    lemma_field(n, 0, "id"@, raw_or_none(prop(n, "id"@)));
    lemma_written(n, 1);
    lemma_written(n, 2);
}

/// A separator writes `divider` as given, `true` when not given; and the
/// spacing words `Small` and `Large` as the `SeparatorSpacingSize` of that
/// name, other values as given, `None` when not given.
pub proof fn separator_fields(n: NodeV)
    requires
        n.kind == ComponentKind::Separator,
    ensures
        has_field(n, "id"@, raw_or_none(prop(n, "id"@))),
        has_field(n, "divider"@, some_tokens(match prop(n, "divider"@) {
            Some(x) => emit_operand(x),
            None => flag(true),
        })),
        has_field(n, "spacing"@, match prop(n, "spacing"@) {
            Some(x) => some_tokens(
                if written_as(x, "Small"@) {
                    model_path("SeparatorSpacingSize"@, "Small"@)
                } else if written_as(x, "Large"@) {
                    model_path("SeparatorSpacingSize"@, "Large"@)
                } else {
                    emit_operand(x)
                },
            ),
            None => none_tokens(),
        }),
{
    lemma_shapes(prop(n, "id"@));
    lemma_field(n, 0, "id"@, raw_or_none(prop(n, "id"@)));
    lemma_reads(n);
    let d = prop(n, "divider"@);
    match d {
        Some(x) => lemma_emits(InitV::Raw(x), x),
        None => lemma_emits(InitV::Flag(true), OperandV::EmptyString),
    }
    lemma_field(n, 1, "divider"@, some_tokens(match d {
        Some(x) => emit_operand(x),
        None => flag(true),
    }));
    let sp = prop(n, "spacing"@);
    if let Some(x) = sp {
        lemma_emits(separator_spacing(x), x);
    }
    lemma_field(n, 2, "spacing"@, match sp {
        Some(x) => some_tokens(
            if written_as(x, "Small"@) {
                model_path("SeparatorSpacingSize"@, "Small"@)
            } else if written_as(x, "Large"@) {
                model_path("SeparatorSpacingSize"@, "Large"@)
            } else {
                emit_operand(x)
            },
        ),
        None => none_tokens(),
    });
}

/// A media gallery writes its children's expressions, in order, as its items.
pub proof fn media_gallery_fields(n: NodeV)
    requires
        n.kind == ComponentKind::MediaGallery,
    ensures
        has_field(n, "id"@, raw_or_none(prop(n, "id"@))),
        has_field(n, "items"@, vec_of(array_items(kids(n)))),
{
    lemma_shapes(prop(n, "id"@));
    lemma_field(n, 0, "id"@, raw_or_none(prop(n, "id"@)));
    lemma_written(n, 1);
}

/// A thumbnail writes its description, from `description` or else `alt`,
/// converted; its media from the shorthand or else `url`; and `spoiler`.
pub proof fn thumbnail_fields(n: NodeV)
    requires
        n.kind == ComponentKind::Thumbnail,
    ensures
        has_field(n, "id"@, raw_or_none(prop(n, "id"@))),
        has_field(
            n,
            "description"@,
            match first_of(prop(n, "description"@), prop(n, "alt"@)) {
                Some(x) => some_tokens(some_tokens(into_of(emit_operand(x)))),
                None => none_tokens(),
            },
        ),
        has_field(n, "media"@, media_of(url_or_empty(first_of(short(n), prop(n, "url"@))))),
        has_field(n, "spoiler"@, some_or_none(prop(n, "spoiler"@))),
{
    lemma_forms();
    lemma_shapes(prop(n, "id"@));
    lemma_field(n, 0, "id"@, raw_or_none(prop(n, "id"@)));
    lemma_reads(n);
    let c = first_of(prop(n, "description"@), prop(n, "alt"@));
    if let Some(x) = c {
        lemma_emits(InitV::Present(Box::new(InitV::Into(x))), x);
        lemma_emits(InitV::Into(x), x);
    }
    lemma_field(n, 1, "description"@, match c {
        Some(x) => some_tokens(some_tokens(into_of(emit_operand(x)))),
        None => none_tokens(),
    });
    lemma_reads(n);
    let u = first_of(short(n), prop(n, "url"@));
    lemma_emits(InitV::Absent, or_operand(u, OperandV::EmptyText));
    lemma_field(n, 2, "media"@, media_of(url_or_empty(u)));
    lemma_shapes(prop(n, "spoiler"@));
    lemma_field(n, 3, "spoiler"@, some_or_none(prop(n, "spoiler"@)));
}

/// A file display writes its file from the shorthand or else `url`, and `spoiler`.
pub proof fn file_fields(n: NodeV)
    requires
        n.kind == ComponentKind::File,
    ensures
        has_field(n, "id"@, raw_or_none(prop(n, "id"@))),
        has_field(n, "file"@, media_of(url_or_empty(first_of(short(n), prop(n, "url"@))))),
        has_field(n, "spoiler"@, some_or_none(prop(n, "spoiler"@))),
{
    lemma_forms();
    lemma_shapes(prop(n, "id"@));
    lemma_field(n, 0, "id"@, raw_or_none(prop(n, "id"@)));
    lemma_reads(n);
    let u = first_of(short(n), prop(n, "url"@));
    lemma_emits(InitV::Absent, or_operand(u, OperandV::EmptyText));
    lemma_field(n, 1, "file"@, media_of(url_or_empty(u)));
    lemma_shapes(prop(n, "spoiler"@));
    lemma_field(n, 2, "spoiler"@, some_or_none(prop(n, "spoiler"@)));
}

/// A file upload fills each field from the property of the same name: the
/// custom id converted or empty, the value limits and `required` as given.
pub proof fn file_upload_fields(n: NodeV)
    requires
        n.kind == ComponentKind::FileUpload,
    ensures
        has_field(n, "id"@, raw_or_none(prop(n, "id"@))),
        has_field(n, "custom_id"@, into_or_new(prop(n, "custom_id"@))),
        has_field(n, "max_values"@, some_or_none(prop(n, "max_values"@))),
        has_field(n, "min_values"@, some_or_none(prop(n, "min_values"@))),
        has_field(n, "required"@, some_or_none(prop(n, "required"@))),
{
    lemma_shapes(prop(n, "id"@));
    lemma_field(n, 0, "id"@, raw_or_none(prop(n, "id"@)));
    lemma_shapes(prop(n, "custom_id"@));
    lemma_field(n, 1, "custom_id"@, into_or_new(prop(n, "custom_id"@)));
    lemma_shapes(prop(n, "max_values"@));
    lemma_field(n, 2, "max_values"@, some_or_none(prop(n, "max_values"@)));
    lemma_shapes(prop(n, "min_values"@));
    lemma_field(n, 3, "min_values"@, some_or_none(prop(n, "min_values"@)));
    lemma_shapes(prop(n, "required"@));
    lemma_field(n, 4, "required"@, some_or_none(prop(n, "required"@)));
}

/// A label writes its label from the shorthand or else `label`, converted or
/// empty; `description` converted; and its component, the first child or
/// else the `component` property, boxed, or a compile error when there is none.
pub proof fn label_fields(n: NodeV)
    requires
        n.kind == ComponentKind::Label,
    ensures
        has_field(n, "id"@, raw_or_none(prop(n, "id"@))),
        has_field(n, "label"@, into_or_new(first_of(short(n), prop(n, "label"@)))),
        has_field(n, "description"@, some_into_or_none(prop(n, "description"@))),
        has_field(n, "component"@, match first_of(first_kid(n), prop(n, "component"@)) {
            Some(x) => boxed(emit_operand(x)),
            None => compile_error_of("\"Label requires a child component\""@),
        }),
{
    lemma_shapes(prop(n, "id"@));
    lemma_field(n, 0, "id"@, raw_or_none(prop(n, "id"@)));
    lemma_shapes(first_of(short(n), prop(n, "label"@)));
    lemma_field(n, 1, "label"@, into_or_new(first_of(short(n), prop(n, "label"@))));
    lemma_shapes(prop(n, "description"@));
    lemma_field(n, 2, "description"@, some_into_or_none(prop(n, "description"@)));
    lemma_written(n, 3);
}

/// An action row writes its children's expressions, in order.
pub proof fn action_row_fields(n: NodeV)
    requires
        n.kind == ComponentKind::ActionRow,
    ensures
        has_field(n, "id"@, raw_or_none(prop(n, "id"@))),
        has_field(n, "components"@, vec_of(array_items(kids(n)))),
{
    lemma_shapes(prop(n, "id"@));
    lemma_field(n, 0, "id"@, raw_or_none(prop(n, "id"@)));
    lemma_written(n, 1);
}

/// A button fills each field from the property of the same name (the label
/// from the shorthand first), and writes each style word as the `ButtonStyle`
/// of that name, `Primary` when no style is given.
pub proof fn button_fields(n: NodeV)
    requires
        n.kind == ComponentKind::Button,
    ensures
        has_field(n, "id"@, raw_or_none(prop(n, "id"@))),
        has_field(n, "custom_id"@, some_into_or_none(prop(n, "custom_id"@))),
        has_field(n, "disabled"@, raw_or_flag(prop(n, "disabled"@), false)),
        has_field(n, "emoji"@, raw_or_none(prop(n, "emoji"@))),
        has_field(n, "label"@, some_into_or_none(first_of(short(n), prop(n, "label"@)))),
        has_field(n, "style"@, match prop(n, "style"@) {
            Some(x) => if written_as(x, "Primary"@) {
                model_path("ButtonStyle"@, "Primary"@)
            } else if written_as(x, "Secondary"@) {
                model_path("ButtonStyle"@, "Secondary"@)
            } else if written_as(x, "Success"@) {
                model_path("ButtonStyle"@, "Success"@)
            } else if written_as(x, "Danger"@) {
                model_path("ButtonStyle"@, "Danger"@)
            } else if written_as(x, "Link"@) {
                model_path("ButtonStyle"@, "Link"@)
            } else if written_as(x, "Premium"@) {
                model_path("ButtonStyle"@, "Premium"@)
            } else {
                emit_operand(x)
            },
            None => model_path("ButtonStyle"@, "Primary"@),
        }),
        has_field(n, "url"@, some_into_or_none(prop(n, "url"@))),
        has_field(n, "sku_id"@, raw_or_none(prop(n, "sku_id"@))),
{
    lemma_shapes(prop(n, "id"@));
    lemma_field(n, 0, "id"@, raw_or_none(prop(n, "id"@)));
    lemma_shapes(prop(n, "custom_id"@));
    lemma_field(n, 1, "custom_id"@, some_into_or_none(prop(n, "custom_id"@)));
    lemma_shapes(prop(n, "disabled"@));
    lemma_field(n, 2, "disabled"@, raw_or_flag(prop(n, "disabled"@), false));
    lemma_shapes(prop(n, "emoji"@));
    lemma_field(n, 3, "emoji"@, raw_or_none(prop(n, "emoji"@)));
    lemma_shapes(first_of(short(n), prop(n, "label"@)));
    lemma_field(n, 4, "label"@, some_into_or_none(first_of(short(n), prop(n, "label"@))));
    lemma_written(n, 5);
    lemma_shapes(prop(n, "url"@));
    lemma_field(n, 6, "url"@, some_into_or_none(prop(n, "url"@)));
    lemma_shapes(prop(n, "sku_id"@));
    lemma_field(n, 7, "sku_id"@, raw_or_none(prop(n, "sku_id"@)));
}

/// A select menu fills each field from the property of the same name, its
/// kind from `kind` or else `type`, with each kind word as the
/// `SelectMenuType` of that name (`String` as `Text`), `Text` when none is
/// given; and its options from its children, in order, `None` when it has no
/// brackets.
#[verifier::rlimit(60)]
pub proof fn select_menu_fields(n: NodeV)
    requires
        n.kind == ComponentKind::SelectMenu,
    ensures
        has_field(n, "id"@, raw_or_none(prop(n, "id"@))),
        has_field(n, "channel_types"@, some_or_none(prop(n, "channel_types"@))),
        has_field(n, "custom_id"@, into_or_new(prop(n, "custom_id"@))),
        has_field(n, "default_values"@, raw_or_none(prop(n, "default_values"@))),
        has_field(n, "disabled"@, raw_or_flag(prop(n, "disabled"@), false)),
        has_field(n, "kind"@, match first_of(prop(n, "kind"@), prop(n, "type"@)) {
            Some(x) => if written_as(x, "Text"@) || written_as(x, "String"@) {
                model_path("SelectMenuType"@, "Text"@)
            } else if written_as(x, "User"@) {
                model_path("SelectMenuType"@, "User"@)
            } else if written_as(x, "Role"@) {
                model_path("SelectMenuType"@, "Role"@)
            } else if written_as(x, "Mentionable"@) {
                model_path("SelectMenuType"@, "Mentionable"@)
            } else if written_as(x, "Channel"@) {
                model_path("SelectMenuType"@, "Channel"@)
            } else {
                emit_operand(x)
            },
            None => model_path("SelectMenuType"@, "Text"@),
        }),
        has_field(n, "max_values"@, some_or_none(prop(n, "max_values"@))),
        has_field(n, "min_values"@, some_or_none(prop(n, "min_values"@))),
        has_field(n, "options"@, match n.children {
            Some(cs) => some_tokens(vec_of(array_items(cs))),
            None => none_tokens(),
        }),
        has_field(n, "placeholder"@, some_into_or_none(prop(n, "placeholder"@))),
        has_field(n, "required"@, some_or_none(prop(n, "required"@))),
{
    lemma_shapes(prop(n, "id"@));
    lemma_field(n, 0, "id"@, raw_or_none(prop(n, "id"@)));
    lemma_shapes(prop(n, "channel_types"@));
    lemma_field(n, 1, "channel_types"@, some_or_none(prop(n, "channel_types"@)));
    lemma_shapes(prop(n, "custom_id"@));
    lemma_field(n, 2, "custom_id"@, into_or_new(prop(n, "custom_id"@)));
    lemma_shapes(prop(n, "default_values"@));
    lemma_field(n, 3, "default_values"@, raw_or_none(prop(n, "default_values"@)));
    lemma_shapes(prop(n, "disabled"@));
    lemma_field(n, 4, "disabled"@, raw_or_flag(prop(n, "disabled"@), false));
    lemma_reads(n);
    let c = first_of(prop(n, "kind"@), prop(n, "type"@));
    match c {
        Some(x) => lemma_emits(select_menu_type(x), x),
        None => lemma_emits(InitV::Preset(Preset::SelectText), OperandV::EmptyString),
    }
    lemma_field(n, 5, "kind"@, match c {
        Some(x) => if written_as(x, "Text"@) || written_as(x, "String"@) {
            model_path("SelectMenuType"@, "Text"@)
        } else if written_as(x, "User"@) {
            model_path("SelectMenuType"@, "User"@)
        } else if written_as(x, "Role"@) {
            model_path("SelectMenuType"@, "Role"@)
        } else if written_as(x, "Mentionable"@) {
            model_path("SelectMenuType"@, "Mentionable"@)
        } else if written_as(x, "Channel"@) {
            model_path("SelectMenuType"@, "Channel"@)
        } else {
            emit_operand(x)
        },
        None => model_path("SelectMenuType"@, "Text"@),
    });
    lemma_shapes(prop(n, "max_values"@));
    lemma_field(n, 6, "max_values"@, some_or_none(prop(n, "max_values"@)));
    lemma_shapes(prop(n, "min_values"@));
    lemma_field(n, 7, "min_values"@, some_or_none(prop(n, "min_values"@)));
    if let Some(cs) = n.children {
        lemma_emits(InitV::List(gen_list(cs)), OperandV::EmptyString);
        assert(emit_init(InitV::List(gen_list(cs))) =~= vec_of(array_items(cs)));
    }
    lemma_field(n, 8, "options"@, match n.children {
        Some(cs) => some_tokens(vec_of(array_items(cs))),
        None => none_tokens(),
    });
    lemma_shapes(prop(n, "placeholder"@));
    lemma_field(n, 9, "placeholder"@, some_into_or_none(prop(n, "placeholder"@)));
    lemma_shapes(prop(n, "required"@));
    lemma_field(n, 10, "required"@, some_or_none(prop(n, "required"@)));
}

/// A media gallery item writes its description, from `description` or else
/// `alt`, converted; its media from the shorthand or else `url`; and `spoiler`.
pub proof fn media_item_fields(n: NodeV)
    requires
        n.kind == ComponentKind::MediaItem,
    ensures
        has_field(
            n,
            "description"@,
            some_into_or_none(first_of(prop(n, "description"@), prop(n, "alt"@))),
        ),
        has_field(n, "media"@, media_of(url_or_empty(first_of(short(n), prop(n, "url"@))))),
        has_field(n, "spoiler"@, some_or_none(prop(n, "spoiler"@))),
{
    lemma_forms();
    lemma_shapes(first_of(prop(n, "description"@), prop(n, "alt"@)));
    lemma_field(
        n,
        0,
        "description"@,
        some_into_or_none(first_of(prop(n, "description"@), prop(n, "alt"@))),
    );
    lemma_reads(n);
    let u = first_of(short(n), prop(n, "url"@));
    lemma_emits(InitV::Absent, or_operand(u, OperandV::EmptyText));
    lemma_field(n, 1, "media"@, media_of(url_or_empty(u)));
    lemma_shapes(prop(n, "spoiler"@));
    lemma_field(n, 2, "spoiler"@, some_or_none(prop(n, "spoiler"@)));
}

/// A select option fills each field from the property of the same name (the
/// label from the shorthand first): `default` as given or `false`, label and
/// value converted or empty.
pub proof fn select_option_fields(n: NodeV)
    requires
        n.kind == ComponentKind::SelectOption,
    ensures
        has_field(n, "default"@, raw_or_flag(prop(n, "default"@), false)),
        has_field(n, "description"@, some_into_or_none(prop(n, "description"@))),
        has_field(n, "emoji"@, raw_or_none(prop(n, "emoji"@))),
        has_field(n, "label"@, into_or_new(first_of(short(n), prop(n, "label"@)))),
        has_field(n, "value"@, into_or_new(prop(n, "value"@))),
{
    lemma_shapes(prop(n, "default"@));
    lemma_field(n, 0, "default"@, raw_or_flag(prop(n, "default"@), false));
    lemma_shapes(prop(n, "description"@));
    lemma_field(n, 1, "description"@, some_into_or_none(prop(n, "description"@)));
    lemma_shapes(prop(n, "emoji"@));
    lemma_field(n, 2, "emoji"@, raw_or_none(prop(n, "emoji"@)));
    lemma_shapes(first_of(short(n), prop(n, "label"@)));
    lemma_field(n, 3, "label"@, into_or_new(first_of(short(n), prop(n, "label"@))));
    lemma_shapes(prop(n, "value"@));
    lemma_field(n, 4, "value"@, into_or_new(prop(n, "value"@)));
}


// ---------------------------------------------------------------------------
// The struct literal around the fields, and the names of the kinds.
// ---------------------------------------------------------------------------

/// The `twilight_model` struct that a kind constructs.
pub open spec fn struct_name(k: ComponentKind) -> Seq<char> {
    match k {
        ComponentKind::Text => "TextDisplay"@,
        ComponentKind::Container => "Container"@,
        ComponentKind::Section => "Section"@,
        ComponentKind::Separator => "Separator"@,
        ComponentKind::MediaGallery => "MediaGallery"@,
        ComponentKind::Thumbnail => "Thumbnail"@,
        ComponentKind::File => "FileDisplay"@,
        ComponentKind::FileUpload => "FileUpload"@,
        ComponentKind::Label => "Label"@,
        ComponentKind::ActionRow => "ActionRow"@,
        ComponentKind::Button => "Button"@,
        ComponentKind::SelectMenu => "SelectMenu"@,
        ComponentKind::TextInput => "TextInput"@,
        ComponentKind::MediaItem => "MediaGalleryItem"@,
        ComponentKind::SelectOption => "SelectMenuOption"@,
    }
}

/// The variant of `Component` that wraps that struct; the pieces of a media
/// gallery and of a select menu are not components of their own.
pub open spec fn wrapping_variant(k: ComponentKind) -> Option<Seq<char>> {
    match k {
        ComponentKind::MediaItem => None,
        ComponentKind::SelectOption => None,
        ComponentKind::File => Some("File"@),
        _ => Some(struct_name(k)),
    }
}

/// `::twilight_model::channel::message`
pub open spec fn message_module() -> Seq<Tok> {
    segment("twilight_model"@) + segment("channel"@) + segment("message"@)
}

/// The expression that constructs a kind's struct with the initialisers
/// `fields`, wrapped in its `Component` variant where it has one.
pub open spec fn constructed(k: ComponentKind, fields: Seq<Tok>) -> Seq<Tok> {
    let literal = message_module() + segment("component"@) + segment(struct_name(k)) + seq![
        Tok::Group(Delimiter::Brace, fields),
    ];
    match wrapping_variant(k) {
        Some(v) => message_module() + segment("Component"@) + segment(v) + seq![
            Tok::Group(Delimiter::Parenthesis, literal),
        ],
        None => literal,
    }
}

/// What `component!` writes for a component is the struct literal of its
/// kind's `twilight_model` type, wrapped in the `Component` variant of that
/// kind, around its field initialisers.
pub proof fn expansion_constructs_kind(n: NodeV)
    ensures
        component_expansion(n) == constructed(n.kind, fields_of(n)),
{
    let lit = message_module() + segment("component"@) + segment(struct_name(n.kind)) + seq![
        Tok::Group(Delimiter::Brace, fields_of(n)),
    ];
    assert(model_type(model_type_name(n.kind)) + seq![
        Tok::Group(Delimiter::Brace, emit_entries(gen(n).entries)),
    ] =~= lit);
    assert(component_expansion(n) =~= constructed(n.kind, fields_of(n)));
}

/// The full name of each kind.
pub open spec fn full_name(k: ComponentKind) -> Seq<char> {
    match k {
        ComponentKind::Text => "Text"@,
        ComponentKind::Container => "Container"@,
        ComponentKind::Section => "Section"@,
        ComponentKind::Separator => "Separator"@,
        ComponentKind::MediaGallery => "MediaGallery"@,
        ComponentKind::Thumbnail => "Thumbnail"@,
        ComponentKind::File => "File"@,
        ComponentKind::FileUpload => "FileUpload"@,
        ComponentKind::Label => "Label"@,
        ComponentKind::ActionRow => "ActionRow"@,
        ComponentKind::Button => "Button"@,
        ComponentKind::SelectMenu => "SelectMenu"@,
        ComponentKind::TextInput => "TextInput"@,
        ComponentKind::MediaItem => "MediaItem"@,
        ComponentKind::SelectOption => "SelectOption"@,
    }
}

/// The short alias of each kind that has one.
pub open spec fn alias_name(k: ComponentKind) -> Option<Seq<char>> {
    match k {
        ComponentKind::Text => Some("TextDisplay"@),
        ComponentKind::Separator => Some("Sep"@),
        ComponentKind::MediaGallery => Some("Gallery"@),
        ComponentKind::Thumbnail => Some("Thumb"@),
        ComponentKind::File => Some("FileDisplay"@),
        ComponentKind::FileUpload => Some("Upload"@),
        ComponentKind::ActionRow => Some("Row"@),
        ComponentKind::Button => Some("Btn"@),
        ComponentKind::SelectMenu => Some("Select"@),
        ComponentKind::TextInput => Some("Input"@),
        ComponentKind::MediaItem => Some("Item"@),
        ComponentKind::SelectOption => Some("Option"@),
        _ => None,
    }
}

/// Each kind's names are read as that kind.
#[verifier::rlimit(80)]
proof fn lemma_kind_names(k: ComponentKind)
    ensures
        kind_named(full_name(k)) == Some(k),
        alias_name(k) matches Some(a) ==> kind_named(a) == Some(k),
{
    match k {
        ComponentKind::Text => {
            reveal_strlit("Text");
            reveal_strlit("TextDisplay");
            assert("Text"@.len() == 4 && "TextDisplay"@.len() == 11);
        },
        ComponentKind::Container => {
            reveal_strlit("Text");
            reveal_strlit("TextDisplay");
            reveal_strlit("Container");
            assert("Text"@.len() == 4 && "TextDisplay"@.len() == 11 && "Container"@.len() == 9);
        },
        ComponentKind::Section => {
            reveal_strlit("Text");
            reveal_strlit("TextDisplay");
            reveal_strlit("Container");
            reveal_strlit("Section");
            assert("Text"@.len() == 4 && "TextDisplay"@.len() == 11 && "Container"@.len() == 9 && "Section"@.len() == 7);
        },
        ComponentKind::Separator => {
            reveal_strlit("Text");
            reveal_strlit("TextDisplay");
            reveal_strlit("Container");
            reveal_strlit("Section");
            reveal_strlit("Separator");
            reveal_strlit("Sep");
            assert("Text"@.len() == 4 && "TextDisplay"@.len() == 11 && "Container"@.len() == 9 && "Section"@.len() == 7 && "Separator"@.len() == 9 && "Sep"@.len() == 3);
            assert("Separator"@[0] == 'S' && "Container"@[0] == 'C');
        },
        ComponentKind::MediaGallery => {
            reveal_strlit("Text");
            reveal_strlit("TextDisplay");
            reveal_strlit("Container");
            reveal_strlit("Section");
            reveal_strlit("Separator");
            reveal_strlit("Sep");
            reveal_strlit("MediaGallery");
            reveal_strlit("Gallery");
            assert("Text"@.len() == 4 && "TextDisplay"@.len() == 11 && "Container"@.len() == 9 && "Section"@.len() == 7 && "Separator"@.len() == 9 && "Sep"@.len() == 3 && "MediaGallery"@.len() == 12 && "Gallery"@.len() == 7);
            assert("Gallery"@[0] == 'G' && "Section"@[0] == 'S');
        },
        ComponentKind::Thumbnail => {
            reveal_strlit("Text");
            reveal_strlit("TextDisplay");
            reveal_strlit("Container");
            reveal_strlit("Section");
            reveal_strlit("Separator");
            reveal_strlit("Sep");
            reveal_strlit("MediaGallery");
            reveal_strlit("Gallery");
            reveal_strlit("Thumbnail");
            reveal_strlit("Thumb");
            assert("Text"@.len() == 4 && "TextDisplay"@.len() == 11 && "Container"@.len() == 9 && "Section"@.len() == 7 && "Separator"@.len() == 9 && "Sep"@.len() == 3 && "MediaGallery"@.len() == 12 && "Gallery"@.len() == 7 && "Thumbnail"@.len() == 9 && "Thumb"@.len() == 5);
            assert("Thumbnail"@[0] == 'T' && "Container"@[0] == 'C');
            assert("Thumbnail"@[0] == 'T' && "Separator"@[0] == 'S');
        },
        ComponentKind::File => {
            reveal_strlit("Text");
            reveal_strlit("TextDisplay");
            reveal_strlit("Container");
            reveal_strlit("Section");
            reveal_strlit("Separator");
            reveal_strlit("Sep");
            reveal_strlit("MediaGallery");
            reveal_strlit("Gallery");
            reveal_strlit("Thumbnail");
            reveal_strlit("Thumb");
            reveal_strlit("File");
            reveal_strlit("FileDisplay");
            assert("Text"@.len() == 4 && "TextDisplay"@.len() == 11 && "Container"@.len() == 9 && "Section"@.len() == 7 && "Separator"@.len() == 9 && "Sep"@.len() == 3 && "MediaGallery"@.len() == 12 && "Gallery"@.len() == 7 && "Thumbnail"@.len() == 9 && "Thumb"@.len() == 5 && "File"@.len() == 4 && "FileDisplay"@.len() == 11);
            assert("File"@[0] == 'F' && "Text"@[0] == 'T');
            assert("FileDisplay"@[0] == 'F' && "TextDisplay"@[0] == 'T');
        },
        ComponentKind::FileUpload => {
            reveal_strlit("Text");
            reveal_strlit("TextDisplay");
            reveal_strlit("Container");
            reveal_strlit("Section");
            reveal_strlit("Separator");
            reveal_strlit("Sep");
            reveal_strlit("MediaGallery");
            reveal_strlit("Gallery");
            reveal_strlit("Thumbnail");
            reveal_strlit("Thumb");
            reveal_strlit("File");
            reveal_strlit("FileDisplay");
            reveal_strlit("FileUpload");
            reveal_strlit("Upload");
            assert("Text"@.len() == 4 && "TextDisplay"@.len() == 11 && "Container"@.len() == 9 && "Section"@.len() == 7 && "Separator"@.len() == 9 && "Sep"@.len() == 3 && "MediaGallery"@.len() == 12 && "Gallery"@.len() == 7 && "Thumbnail"@.len() == 9 && "Thumb"@.len() == 5 && "File"@.len() == 4 && "FileDisplay"@.len() == 11 && "FileUpload"@.len() == 10 && "Upload"@.len() == 6);
        },
        ComponentKind::Label => {
            reveal_strlit("Text");
            reveal_strlit("TextDisplay");
            reveal_strlit("Container");
            reveal_strlit("Section");
            reveal_strlit("Separator");
            reveal_strlit("Sep");
            reveal_strlit("MediaGallery");
            reveal_strlit("Gallery");
            reveal_strlit("Thumbnail");
            reveal_strlit("Thumb");
            reveal_strlit("File");
            reveal_strlit("FileDisplay");
            reveal_strlit("FileUpload");
            reveal_strlit("Upload");
            reveal_strlit("Label");
            assert("Text"@.len() == 4 && "TextDisplay"@.len() == 11 && "Container"@.len() == 9 && "Section"@.len() == 7 && "Separator"@.len() == 9 && "Sep"@.len() == 3 && "MediaGallery"@.len() == 12 && "Gallery"@.len() == 7 && "Thumbnail"@.len() == 9 && "Thumb"@.len() == 5 && "File"@.len() == 4 && "FileDisplay"@.len() == 11 && "FileUpload"@.len() == 10 && "Upload"@.len() == 6 && "Label"@.len() == 5);
            assert("Label"@[0] == 'L' && "Thumb"@[0] == 'T');
        },
        ComponentKind::ActionRow => {
            reveal_strlit("Text");
            reveal_strlit("TextDisplay");
            reveal_strlit("Container");
            reveal_strlit("Section");
            reveal_strlit("Separator");
            reveal_strlit("Sep");
            reveal_strlit("MediaGallery");
            reveal_strlit("Gallery");
            reveal_strlit("Thumbnail");
            reveal_strlit("Thumb");
            reveal_strlit("File");
            reveal_strlit("FileDisplay");
            reveal_strlit("FileUpload");
            reveal_strlit("Upload");
            reveal_strlit("Label");
            reveal_strlit("ActionRow");
            reveal_strlit("Row");
            assert("Text"@.len() == 4 && "TextDisplay"@.len() == 11 && "Container"@.len() == 9 && "Section"@.len() == 7 && "Separator"@.len() == 9 && "Sep"@.len() == 3 && "MediaGallery"@.len() == 12 && "Gallery"@.len() == 7 && "Thumbnail"@.len() == 9 && "Thumb"@.len() == 5 && "File"@.len() == 4 && "FileDisplay"@.len() == 11 && "FileUpload"@.len() == 10 && "Upload"@.len() == 6 && "Label"@.len() == 5 && "ActionRow"@.len() == 9 && "Row"@.len() == 3);
            assert("ActionRow"@[0] == 'A' && "Container"@[0] == 'C');
            assert("ActionRow"@[0] == 'A' && "Separator"@[0] == 'S');
            assert("ActionRow"@[0] == 'A' && "Thumbnail"@[0] == 'T');
            assert("Row"@[0] == 'R' && "Sep"@[0] == 'S');
        },
        ComponentKind::Button => {
            reveal_strlit("Text");
            reveal_strlit("TextDisplay");
            reveal_strlit("Container");
            reveal_strlit("Section");
            reveal_strlit("Separator");
            reveal_strlit("Sep");
            reveal_strlit("MediaGallery");
            reveal_strlit("Gallery");
            reveal_strlit("Thumbnail");
            reveal_strlit("Thumb");
            reveal_strlit("File");
            reveal_strlit("FileDisplay");
            reveal_strlit("FileUpload");
            reveal_strlit("Upload");
            reveal_strlit("Label");
            reveal_strlit("ActionRow");
            reveal_strlit("Row");
            reveal_strlit("Button");
            reveal_strlit("Btn");
            assert("Text"@.len() == 4 && "TextDisplay"@.len() == 11 && "Container"@.len() == 9 && "Section"@.len() == 7 && "Separator"@.len() == 9 && "Sep"@.len() == 3 && "MediaGallery"@.len() == 12 && "Gallery"@.len() == 7 && "Thumbnail"@.len() == 9 && "Thumb"@.len() == 5 && "File"@.len() == 4 && "FileDisplay"@.len() == 11 && "FileUpload"@.len() == 10 && "Upload"@.len() == 6 && "Label"@.len() == 5 && "ActionRow"@.len() == 9 && "Row"@.len() == 3 && "Button"@.len() == 6 && "Btn"@.len() == 3);
            assert("Button"@[0] == 'B' && "Upload"@[0] == 'U');
            assert("Btn"@[0] == 'B' && "Sep"@[0] == 'S');
            assert("Btn"@[0] == 'B' && "Row"@[0] == 'R');
        },
        ComponentKind::SelectMenu => {
            reveal_strlit("Text");
            reveal_strlit("TextDisplay");
            reveal_strlit("Container");
            reveal_strlit("Section");
            reveal_strlit("Separator");
            reveal_strlit("Sep");
            reveal_strlit("MediaGallery");
            reveal_strlit("Gallery");
            reveal_strlit("Thumbnail");
            reveal_strlit("Thumb");
            reveal_strlit("File");
            reveal_strlit("FileDisplay");
            reveal_strlit("FileUpload");
            reveal_strlit("Upload");
            reveal_strlit("Label");
            reveal_strlit("ActionRow");
            reveal_strlit("Row");
            reveal_strlit("Button");
            reveal_strlit("Btn");
            reveal_strlit("SelectMenu");
            reveal_strlit("Select");
            assert("Text"@.len() == 4 && "TextDisplay"@.len() == 11 && "Container"@.len() == 9 && "Section"@.len() == 7 && "Separator"@.len() == 9 && "Sep"@.len() == 3 && "MediaGallery"@.len() == 12 && "Gallery"@.len() == 7 && "Thumbnail"@.len() == 9 && "Thumb"@.len() == 5 && "File"@.len() == 4 && "FileDisplay"@.len() == 11 && "FileUpload"@.len() == 10 && "Upload"@.len() == 6 && "Label"@.len() == 5 && "ActionRow"@.len() == 9 && "Row"@.len() == 3 && "Button"@.len() == 6 && "Btn"@.len() == 3 && "SelectMenu"@.len() == 10 && "Select"@.len() == 6);
            assert("SelectMenu"@[0] == 'S' && "FileUpload"@[0] == 'F');
            assert("Select"@[0] == 'S' && "Upload"@[0] == 'U');
            assert("Select"@[0] == 'S' && "Button"@[0] == 'B');
        },
        ComponentKind::TextInput => {
            reveal_strlit("Text");
            reveal_strlit("TextDisplay");
            reveal_strlit("Container");
            reveal_strlit("Section");
            reveal_strlit("Separator");
            reveal_strlit("Sep");
            reveal_strlit("MediaGallery");
            reveal_strlit("Gallery");
            reveal_strlit("Thumbnail");
            reveal_strlit("Thumb");
            reveal_strlit("File");
            reveal_strlit("FileDisplay");
            reveal_strlit("FileUpload");
            reveal_strlit("Upload");
            reveal_strlit("Label");
            reveal_strlit("ActionRow");
            reveal_strlit("Row");
            reveal_strlit("Button");
            reveal_strlit("Btn");
            reveal_strlit("SelectMenu");
            reveal_strlit("Select");
            reveal_strlit("TextInput");
            reveal_strlit("Input");
            assert("Text"@.len() == 4 && "TextDisplay"@.len() == 11 && "Container"@.len() == 9 && "Section"@.len() == 7 && "Separator"@.len() == 9 && "Sep"@.len() == 3 && "MediaGallery"@.len() == 12 && "Gallery"@.len() == 7 && "Thumbnail"@.len() == 9 && "Thumb"@.len() == 5 && "File"@.len() == 4 && "FileDisplay"@.len() == 11 && "FileUpload"@.len() == 10 && "Upload"@.len() == 6 && "Label"@.len() == 5 && "ActionRow"@.len() == 9 && "Row"@.len() == 3 && "Button"@.len() == 6 && "Btn"@.len() == 3 && "SelectMenu"@.len() == 10 && "Select"@.len() == 6 && "TextInput"@.len() == 9 && "Input"@.len() == 5);
            assert("TextInput"@[0] == 'T' && "Container"@[0] == 'C');
            assert("TextInput"@[0] == 'T' && "Separator"@[0] == 'S');
            assert("TextInput"@[1] == 'e' && "Thumbnail"@[1] == 'h');
            assert("TextInput"@[0] == 'T' && "ActionRow"@[0] == 'A');
            assert("Input"@[0] == 'I' && "Thumb"@[0] == 'T');
            assert("Input"@[0] == 'I' && "Label"@[0] == 'L');
        },
        ComponentKind::MediaItem => {
            reveal_strlit("Text");
            reveal_strlit("TextDisplay");
            reveal_strlit("Container");
            reveal_strlit("Section");
            reveal_strlit("Separator");
            reveal_strlit("Sep");
            reveal_strlit("MediaGallery");
            reveal_strlit("Gallery");
            reveal_strlit("Thumbnail");
            reveal_strlit("Thumb");
            reveal_strlit("File");
            reveal_strlit("FileDisplay");
            reveal_strlit("FileUpload");
            reveal_strlit("Upload");
            reveal_strlit("Label");
            reveal_strlit("ActionRow");
            reveal_strlit("Row");
            reveal_strlit("Button");
            reveal_strlit("Btn");
            reveal_strlit("SelectMenu");
            reveal_strlit("Select");
            reveal_strlit("TextInput");
            reveal_strlit("Input");
            reveal_strlit("MediaItem");
            reveal_strlit("Item");
            assert("Text"@.len() == 4 && "TextDisplay"@.len() == 11 && "Container"@.len() == 9 && "Section"@.len() == 7 && "Separator"@.len() == 9 && "Sep"@.len() == 3 && "MediaGallery"@.len() == 12 && "Gallery"@.len() == 7 && "Thumbnail"@.len() == 9 && "Thumb"@.len() == 5 && "File"@.len() == 4 && "FileDisplay"@.len() == 11 && "FileUpload"@.len() == 10 && "Upload"@.len() == 6 && "Label"@.len() == 5 && "ActionRow"@.len() == 9 && "Row"@.len() == 3 && "Button"@.len() == 6 && "Btn"@.len() == 3 && "SelectMenu"@.len() == 10 && "Select"@.len() == 6 && "TextInput"@.len() == 9 && "Input"@.len() == 5 && "MediaItem"@.len() == 9 && "Item"@.len() == 4);
            assert("MediaItem"@[0] == 'M' && "Container"@[0] == 'C');
            assert("MediaItem"@[0] == 'M' && "Separator"@[0] == 'S');
            assert("MediaItem"@[0] == 'M' && "Thumbnail"@[0] == 'T');
            assert("MediaItem"@[0] == 'M' && "ActionRow"@[0] == 'A');
            assert("MediaItem"@[0] == 'M' && "TextInput"@[0] == 'T');
            assert("Item"@[0] == 'I' && "Text"@[0] == 'T');
            assert("Item"@[0] == 'I' && "File"@[0] == 'F');
        },
        ComponentKind::SelectOption => {
            reveal_strlit("Text");
            reveal_strlit("TextDisplay");
            reveal_strlit("Container");
            reveal_strlit("Section");
            reveal_strlit("Separator");
            reveal_strlit("Sep");
            reveal_strlit("MediaGallery");
            reveal_strlit("Gallery");
            reveal_strlit("Thumbnail");
            reveal_strlit("Thumb");
            reveal_strlit("File");
            reveal_strlit("FileDisplay");
            reveal_strlit("FileUpload");
            reveal_strlit("Upload");
            reveal_strlit("Label");
            reveal_strlit("ActionRow");
            reveal_strlit("Row");
            reveal_strlit("Button");
            reveal_strlit("Btn");
            reveal_strlit("SelectMenu");
            reveal_strlit("Select");
            reveal_strlit("TextInput");
            reveal_strlit("Input");
            reveal_strlit("MediaItem");
            reveal_strlit("Item");
            reveal_strlit("SelectOption");
            reveal_strlit("Option");
            assert("Text"@.len() == 4 && "TextDisplay"@.len() == 11 && "Container"@.len() == 9 && "Section"@.len() == 7 && "Separator"@.len() == 9 && "Sep"@.len() == 3 && "MediaGallery"@.len() == 12 && "Gallery"@.len() == 7 && "Thumbnail"@.len() == 9 && "Thumb"@.len() == 5 && "File"@.len() == 4 && "FileDisplay"@.len() == 11 && "FileUpload"@.len() == 10 && "Upload"@.len() == 6 && "Label"@.len() == 5 && "ActionRow"@.len() == 9 && "Row"@.len() == 3 && "Button"@.len() == 6 && "Btn"@.len() == 3 && "SelectMenu"@.len() == 10 && "Select"@.len() == 6 && "TextInput"@.len() == 9 && "Input"@.len() == 5 && "MediaItem"@.len() == 9 && "Item"@.len() == 4 && "SelectOption"@.len() == 12 && "Option"@.len() == 6);
            assert("SelectOption"@[0] == 'S' && "MediaGallery"@[0] == 'M');
            assert("Option"@[0] == 'O' && "Upload"@[0] == 'U');
            assert("Option"@[0] == 'O' && "Button"@[0] == 'B');
            assert("Option"@[0] == 'O' && "Select"@[0] == 'S');
        },
    }
}

/// Every kind is read by its full name and by its alias, and its bare name
/// alone reads as that kind with no shorthand, properties or children: no
/// valid name is refused as unknown.
pub proof fn names_read_as_kinds<S: RustSyntax>(syn: S, k: ComponentKind)
    ensures
        kind_named(full_name(k)) == Some(k),
        alias_name(k) matches Some(a) ==> kind_named(a) == Some(k),
        read_component(syn, seq![Tok::Ident(full_name(k))]) == Ok::<NodeV, ParseErrorV>(
            NodeV { kind: k, shorthand: None, properties: None, children: None },
        ),
{
    lemma_kind_names(k);
    let ts = seq![Tok::Ident(full_name(k))];
    assert(bare(ts[0]) == ts[0]);
}


/// The standard names that never start a component.
pub open spec fn standard_name(w: Seq<char>) -> bool {
    w == "Some"@ || w == "None"@ || w == "Ok"@ || w == "Err"@ || w == "Box"@ || w == "Vec"@ || w
        == "String"@ || w == "Arc"@ || w == "Rc"@ || w == "Cell"@ || w == "RefCell"@ || w
        == "Mutex"@ || w == "RwLock"@ || w == "Option"@ || w == "Result"@
}

/// A property value that starts with a standard name, such as `Some(x)` or
/// `Vec { .. }`, is an expression, never a nested component.
pub proof fn standard_names_start_expressions<S: RustSyntax>(syn: S, ts: Seq<Tok>, i: int, w: Seq<char>)
    requires
        0 <= i < ts.len(),
        ts[i] == Tok::Ident(w),
        standard_name(w),
    ensures
        !starts_component(syn, ts, i),
{
}


/// A property value that starts with an identifier written with a capital
/// `A` to `Z`, other than a standard name, followed by parentheses, braces or
/// brackets, is a nested component.
pub proof fn capitalised_names_start_components<S: RustSyntax>(
    syn: S,
    ts: Seq<Tok>,
    i: int,
    w: Seq<char>,
    d: Delimiter,
    inner: Seq<Tok>,
)
    requires
        0 <= i,
        i + 1 < ts.len(),
        ts[i] == Tok::Ident(w),
        syn.accepts_identifier(w),
        w.len() > 0,
        'A' <= w[0] <= 'Z',
        !standard_name(w),
        d != Delimiter::Invisible,
        ts[i + 1] == Tok::Group(d, inner),
    ensures
        starts_component(syn, ts, i),
{
}

} // verus!
