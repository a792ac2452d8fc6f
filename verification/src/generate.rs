//! What each component becomes: the fields of the `twilight_model` value that
//! the generated code constructs, and how each field is written.
use vstd::prelude::*;

use crate::ast::{
    lemma_view_nodes, lemma_view_props, view_node, view_nodes, view_props, ComponentKind,
    ComponentNode, NodeV, PropV, Property, PropertyValue, ValueV,
};
use crate::constructed::{
    lemma_view_entries, lemma_view_gens, opt_operand, view_entries, view_gens, view_init, Entry,
    EntryV, Field, GenV, Generated, Init, InitV, Missing, Operand, OperandV, Preset,
};
use crate::tokens::{clone_trees, lemma_view_trees, render, render_trees, same_text};

verus! {

broadcast use {lemma_view_trees, lemma_view_props, lemma_view_nodes, lemma_view_entries, lemma_view_gens};

// ---------------------------------------------------------------------------
// The rules, as mathematics.
// ---------------------------------------------------------------------------

/// The first position, from `i` on, of a property with key `k`.
pub open spec fn find_key(ps: Seq<PropV>, k: Seq<char>, i: int) -> Option<int>
    decreases ps.len() - i,
{
    if i < 0 || i >= ps.len() {
        None
    } else if ps[i].key == k {
        Some(i)
    } else {
        find_key(ps, k, i + 1)
    }
}

pub proof fn lemma_find_key_range(ps: Seq<PropV>, k: Seq<char>, i: int)
    ensures
        find_key(ps, k, i) matches Some(j) ==> i <= j < ps.len() && ps[j].key == k,
    decreases ps.len() - i,
{
    if 0 <= i < ps.len() && ps[i].key != k {
        lemma_find_key_range(ps, k, i + 1);
    }
}

/// The value of the first property of `n` with key `k`, as it goes into a field.
pub open spec fn prop(n: NodeV, k: Seq<char>) -> Option<OperandV>
    decreases n, 0int,
{
    match n.properties {
        Some(ps) => match find_key(ps, k, 0) {
            Some(i) => {
                proof {
                    lemma_find_key_range(ps, k, 0);
                }
                Some(operand(ps[i].value))
            },
            None => None,
        },
        None => None,
    }
}

/// What a property's value becomes in the generated code.
pub open spec fn operand(v: ValueV) -> OperandV
    decreases v, 0int,
{
    match v {
        ValueV::Expr(ts) => OperandV::Expr(ts),
        ValueV::Component(n) => OperandV::Component(Box::new(gen(*n))),
    }
}

/// What a sequence of components becomes.
pub open spec fn gen_list(cs: Seq<NodeV>) -> Seq<GenV>
    decreases cs, 0int,
{
    if cs.len() == 0 {
        Seq::empty()
    } else {
        gen_list(cs.drop_last()).push(gen(cs.last()))
    }
}

/// What the children of `n` become, none when it has no children.
pub open spec fn children_of(n: NodeV) -> Seq<GenV>
    decreases n, 0int,
{
    match n.children {
        Some(cs) => gen_list(cs),
        None => Seq::empty(),
    }
}

/// What the first child of `n` becomes, if it has one.
pub open spec fn first_child(n: NodeV) -> Option<OperandV>
    decreases n, 0int,
{
    match n.children {
        Some(cs) => if cs.len() > 0 {
            Some(OperandV::Component(Box::new(gen(cs[0]))))
        } else {
            None
        },
        None => None,
    }
}

/// The shorthand of `n`, as an operand.
pub open spec fn shorthand(n: NodeV) -> Option<OperandV> {
    match n.shorthand {
        Some(ts) => Some(OperandV::Expr(ts)),
        None => None,
    }
}

pub open spec fn either(a: Option<OperandV>, b: Option<OperandV>) -> Option<OperandV> {
    if a is Some {
        a
    } else {
        b
    }
}

pub open spec fn or_operand(o: Option<OperandV>, d: OperandV) -> OperandV {
    match o {
        Some(x) => x,
        None => d,
    }
}

/// The operand itself, or `d`.
pub open spec fn raw_or(o: Option<OperandV>, d: InitV) -> InitV {
    match o {
        Some(x) => InitV::Raw(x),
        None => d,
    }
}

/// `(operand).into()`, or `d`.
pub open spec fn into_or(o: Option<OperandV>, d: InitV) -> InitV {
    match o {
        Some(x) => InitV::Into(x),
        None => d,
    }
}

/// `Some(operand)`, or `None`.
pub open spec fn some_raw(o: Option<OperandV>) -> InitV {
    match o {
        Some(x) => InitV::Present(Box::new(InitV::Raw(x))),
        None => InitV::Absent,
    }
}

/// `Some((operand).into())`, or `None`.
pub open spec fn some_into(o: Option<OperandV>) -> InitV {
    match o {
        Some(x) => InitV::Present(Box::new(InitV::Into(x))),
        None => InitV::Absent,
    }
}

pub open spec fn entry(f: Field, v: InitV) -> EntryV {
    EntryV { field: f, init: v, deprecated: false }
}

/// The word that an operand is, when it is an expression of one word.
pub open spec fn is_word(o: OperandV, w: Seq<char>) -> bool {
    o matches OperandV::Expr(ts) && render(ts) == w
}

/// A button style: a short word names a `ButtonStyle`, anything else is kept.
pub open spec fn button_style(o: OperandV) -> InitV {
    if is_word(o, "Primary"@) {
        InitV::Preset(Preset::ButtonPrimary)
    } else if is_word(o, "Secondary"@) {
        InitV::Preset(Preset::ButtonSecondary)
    } else if is_word(o, "Success"@) {
        InitV::Preset(Preset::ButtonSuccess)
    } else if is_word(o, "Danger"@) {
        InitV::Preset(Preset::ButtonDanger)
    } else if is_word(o, "Link"@) {
        InitV::Preset(Preset::ButtonLink)
    } else if is_word(o, "Premium"@) {
        InitV::Preset(Preset::ButtonPremium)
    } else {
        InitV::Raw(o)
    }
}

/// A separator's spacing: a short word names a `SeparatorSpacingSize`,
/// anything else is kept.
pub open spec fn separator_spacing(o: OperandV) -> InitV {
    if is_word(o, "Small"@) {
        InitV::Preset(Preset::SpacingSmall)
    } else if is_word(o, "Large"@) {
        InitV::Preset(Preset::SpacingLarge)
    } else {
        InitV::Raw(o)
    }
}

/// A select menu type: a short word names a `SelectMenuType`, anything else is kept.
pub open spec fn select_menu_type(o: OperandV) -> InitV {
    if is_word(o, "Text"@) || is_word(o, "String"@) {
        InitV::Preset(Preset::SelectText)
    } else if is_word(o, "User"@) {
        InitV::Preset(Preset::SelectUser)
    } else if is_word(o, "Role"@) {
        InitV::Preset(Preset::SelectRole)
    } else if is_word(o, "Mentionable"@) {
        InitV::Preset(Preset::SelectMentionable)
    } else if is_word(o, "Channel"@) {
        InitV::Preset(Preset::SelectChannel)
    } else {
        InitV::Raw(o)
    }
}

/// A text input style: a short word names a `TextInputStyle`, anything else is kept.
pub open spec fn text_input_style(o: OperandV) -> InitV {
    if is_word(o, "Short"@) {
        InitV::Preset(Preset::InputShort)
    } else if is_word(o, "Paragraph"@) {
        InitV::Preset(Preset::InputParagraph)
    } else {
        InitV::Raw(o)
    }
}

/// What a component becomes: for each kind, its fields in order, and what
/// fills each of them.
pub open spec fn gen(n: NodeV) -> GenV
    decreases n, 1int,
{
    let id = entry(Field::Id, raw_or(prop(n, "id"@), InitV::Absent));
    let entries = match n.kind {
        ComponentKind::Text => seq![
            id,
            entry(
                Field::Content,
                InitV::Into(
                    or_operand(either(shorthand(n), prop(n, "content"@)), OperandV::EmptyString),
                ),
            ),
        ],
        ComponentKind::Container => seq![
            id,
            entry(
                Field::AccentColor,
                match either(prop(n, "accent_color"@), prop(n, "color"@)) {
                    Some(x) => InitV::Present(
                        Box::new(InitV::Present(Box::new(InitV::Raw(x)))),
                    ),
                    None => InitV::Absent,
                },
            ),
            entry(Field::Components, InitV::List(children_of(n))),
            entry(Field::Spoiler, some_raw(prop(n, "spoiler"@))),
        ],
        ComponentKind::Section => seq![
            id,
            entry(
                Field::Accessory,
                match prop(n, "accessory"@) {
                    Some(x) => InitV::Boxed(x),
                    None => InitV::Missing(Missing::SectionAccessory),
                },
            ),
            entry(Field::Components, InitV::List(children_of(n))),
        ],
        ComponentKind::Separator => seq![
            id,
            entry(
                Field::Divider,
                match prop(n, "divider"@) {
                    Some(x) => InitV::Present(Box::new(InitV::Raw(x))),
                    None => InitV::Present(Box::new(InitV::Flag(true))),
                },
            ),
            entry(
                Field::Spacing,
                match prop(n, "spacing"@) {
                    Some(x) => InitV::Present(Box::new(separator_spacing(x))),
                    None => InitV::Absent,
                },
            ),
        ],
        ComponentKind::MediaGallery => seq![id, entry(Field::Items, InitV::List(children_of(n)))],
        ComponentKind::Thumbnail => seq![
            id,
            entry(
                Field::Description,
                match either(prop(n, "description"@), prop(n, "alt"@)) {
                    Some(x) => InitV::Present(
                        Box::new(InitV::Present(Box::new(InitV::Into(x)))),
                    ),
                    None => InitV::Absent,
                },
            ),
            entry(
                Field::Media,
                InitV::Media(
                    or_operand(either(shorthand(n), prop(n, "url"@)), OperandV::EmptyText),
                ),
            ),
            entry(Field::Spoiler, some_raw(prop(n, "spoiler"@))),
        ],
        ComponentKind::File => seq![
            id,
            entry(
                Field::File,
                InitV::Media(
                    or_operand(either(shorthand(n), prop(n, "url"@)), OperandV::EmptyText),
                ),
            ),
            entry(Field::Spoiler, some_raw(prop(n, "spoiler"@))),
        ],
        ComponentKind::FileUpload => seq![
            id,
            entry(
                Field::CustomId,
                into_or(prop(n, "custom_id"@), InitV::Raw(OperandV::EmptyString)),
            ),
            entry(Field::MaxValues, some_raw(prop(n, "max_values"@))),
            entry(Field::MinValues, some_raw(prop(n, "min_values"@))),
            entry(Field::Required, some_raw(prop(n, "required"@))),
        ],
        ComponentKind::Label => seq![
            id,
            entry(
                Field::Label,
                into_or(
                    either(shorthand(n), prop(n, "label"@)),
                    InitV::Raw(OperandV::EmptyString),
                ),
            ),
            entry(Field::Description, some_into(prop(n, "description"@))),
            entry(
                Field::Component,
                match either(first_child(n), prop(n, "component"@)) {
                    Some(x) => InitV::Boxed(x),
                    None => InitV::Missing(Missing::LabelComponent),
                },
            ),
        ],
        ComponentKind::ActionRow => seq![
            id,
            entry(Field::Components, InitV::List(children_of(n))),
        ],
        ComponentKind::Button => seq![
            id,
            entry(Field::CustomId, some_into(prop(n, "custom_id"@))),
            entry(Field::Disabled, raw_or(prop(n, "disabled"@), InitV::Flag(false))),
            entry(Field::Emoji, raw_or(prop(n, "emoji"@), InitV::Absent)),
            entry(Field::Label, some_into(either(shorthand(n), prop(n, "label"@)))),
            entry(
                Field::Style,
                match prop(n, "style"@) {
                    Some(x) => button_style(x),
                    None => InitV::Preset(Preset::ButtonPrimary),
                },
            ),
            entry(Field::Url, some_into(prop(n, "url"@))),
            entry(Field::SkuId, raw_or(prop(n, "sku_id"@), InitV::Absent)),
        ],
        ComponentKind::SelectMenu => seq![
            id,
            entry(Field::ChannelTypes, some_raw(prop(n, "channel_types"@))),
            entry(
                Field::CustomId,
                into_or(prop(n, "custom_id"@), InitV::Raw(OperandV::EmptyString)),
            ),
            entry(Field::DefaultValues, raw_or(prop(n, "default_values"@), InitV::Absent)),
            entry(Field::Disabled, raw_or(prop(n, "disabled"@), InitV::Flag(false))),
            entry(
                Field::Kind,
                match either(prop(n, "kind"@), prop(n, "type"@)) {
                    Some(x) => select_menu_type(x),
                    None => InitV::Preset(Preset::SelectText),
                },
            ),
            entry(Field::MaxValues, some_raw(prop(n, "max_values"@))),
            entry(Field::MinValues, some_raw(prop(n, "min_values"@))),
            entry(
                Field::Options,
                match n.children {
                    Some(cs) => InitV::Present(Box::new(InitV::List(gen_list(cs)))),
                    None => InitV::Absent,
                },
            ),
            entry(Field::Placeholder, some_into(prop(n, "placeholder"@))),
            entry(Field::Required, some_raw(prop(n, "required"@))),
        ],
        ComponentKind::TextInput => seq![
            id,
            entry(
                Field::CustomId,
                into_or(prop(n, "custom_id"@), InitV::Raw(OperandV::EmptyString)),
            ),
            EntryV { field: Field::Label, init: some_into(prop(n, "label"@)), deprecated: true },
            entry(Field::MaxLength, some_raw(prop(n, "max_length"@))),
            entry(Field::MinLength, some_raw(prop(n, "min_length"@))),
            entry(Field::Placeholder, some_into(prop(n, "placeholder"@))),
            entry(Field::Required, some_raw(prop(n, "required"@))),
            entry(
                Field::Style,
                match prop(n, "style"@) {
                    Some(x) => text_input_style(x),
                    None => InitV::Preset(Preset::InputShort),
                },
            ),
            entry(Field::Value, some_into(prop(n, "value"@))),
        ],
        ComponentKind::MediaItem => seq![
            entry(
                Field::Description,
                some_into(either(prop(n, "description"@), prop(n, "alt"@))),
            ),
            entry(
                Field::Media,
                InitV::Media(
                    or_operand(either(shorthand(n), prop(n, "url"@)), OperandV::EmptyText),
                ),
            ),
            entry(Field::Spoiler, some_raw(prop(n, "spoiler"@))),
        ],
        ComponentKind::SelectOption => seq![
            entry(Field::Default, raw_or(prop(n, "default"@), InitV::Flag(false))),
            entry(Field::Description, some_into(prop(n, "description"@))),
            entry(Field::Emoji, raw_or(prop(n, "emoji"@), InitV::Absent)),
            entry(
                Field::Label,
                into_or(
                    either(shorthand(n), prop(n, "label"@)),
                    InitV::Raw(OperandV::EmptyString),
                ),
            ),
            entry(Field::Value, into_or(prop(n, "value"@), InitV::Raw(OperandV::EmptyString))),
        ],
    };
    GenV { kind: n.kind, entries }
}

// ---------------------------------------------------------------------------
// The rules, as code.
// ---------------------------------------------------------------------------

/// The position of the first property with key `key`.
pub fn find_property(ps: &Vec<Property>, key: &str) -> (r: Option<usize>)
    ensures
        match r {
            Some(i) => find_key(view_props(ps@), key@, 0) == Some(i as int) && i < ps.len(),
            None => find_key(view_props(ps@), key@, 0) is None,
        },
{
    let ghost v = view_props(ps@);
    let mut i: usize = 0;
    while i < ps.len()
        invariant
            i <= ps.len(),
            v == view_props(ps@),
            find_key(v, key@, 0) == find_key(v, key@, i as int),
        decreases ps.len() - i,
    {
        if same_text(ps[i].key.as_str(), key) {
            return Some(i);
        }
        i = i + 1;
    }
    None
}

/// The value of the first property of `n` with key `key`, as it goes into a field.
pub fn property_operand(n: &ComponentNode, key: &str) -> (r: Option<Operand>)
    ensures
        opt_operand(r) == prop(n@, key@),
    decreases n, 0nat,
{
    match &n.properties {
        Some(ps) => match find_property(ps, key) {
            Some(i) => {
                proof {
                    vstd::std_specs::vec::axiom_vec_index_decreases(*ps, i as int);
                    lemma_find_key_range(view_props(ps@), key@, 0);
                }
                Some(operand_of(&ps[i].value))
            },
            None => None,
        },
        None => None,
    }
}

/// What a property's value becomes in the generated code.
pub fn operand_of(v: &PropertyValue) -> (r: Operand)
    ensures
        r@ == operand(v@),
    decreases v, 0nat,
{
    match v {
        PropertyValue::Expr(ts) => {
            let c = clone_trees(ts, 0, ts.len());
            proof {
                assert(ts@.subrange(0, ts@.len() as int) =~= ts@);
            }
            Operand::Expr(c)
        },
        PropertyValue::Component(n) => Operand::Component(Box::new(generate(n))),
    }
}

/// What a sequence of components becomes.
pub fn generate_list(cs: &Vec<ComponentNode>) -> (r: Vec<Generated>)
    ensures
        view_gens(r@) == gen_list(view_nodes(cs@)),
    decreases cs, 0nat,
{
    let ghost v = view_nodes(cs@);
    let mut r: Vec<Generated> = Vec::new();
    let mut k: usize = 0;
    while k < cs.len()
        invariant
            k <= cs.len(),
            v == view_nodes(cs@),
            view_gens(r@) == gen_list(v.take(k as int)),
        decreases cs.len() - k,
    {
        proof {
            vstd::std_specs::vec::axiom_vec_index_decreases(*cs, k as int);
        }
        let g = generate(&cs[k]);
        let ghost before = r@;
        let ghost gv = g@;
        r.push(g);
        proof {
            assert(r@.drop_last() =~= before);
            assert(view_gens(r@) == view_gens(before).push(gv));
            lemma_view_nodes(cs@);
            assert(v.take(k + 1).drop_last() =~= v.take(k as int));
            assert(v.take(k + 1).last() == v[k as int]);
        }
        k = k + 1;
    }
    proof {
        assert(v.take(cs.len() as int) =~= v);
    }
    r
}

/// What the children of `n` become.
pub fn children_of_exec(n: &ComponentNode) -> (r: Vec<Generated>)
    ensures
        view_gens(r@) == children_of(n@),
    decreases n, 0nat,
{
    match &n.children {
        Some(cs) => generate_list(cs),
        None => Vec::new(),
    }
}

/// What the first child of `n` becomes, if it has one.
pub fn first_child_exec(n: &ComponentNode) -> (r: Option<Operand>)
    ensures
        opt_operand(r) == first_child(n@),
    decreases n, 0nat,
{
    match &n.children {
        Some(cs) => if cs.len() > 0 {
            proof {
                vstd::std_specs::vec::axiom_vec_index_decreases(*cs, 0);
            }
            let g = generate(&cs[0]);
            proof {
                assert(view_nodes(cs@)[0] == view_node(cs@[0]));
            }
            Some(Operand::Component(Box::new(g)))
        } else {
            None
        },
        None => None,
    }
}

/// The shorthand of `n`, as an operand.
pub fn shorthand_exec(n: &ComponentNode) -> (r: Option<Operand>)
    ensures
        opt_operand(r) == shorthand(n@),
{
    match &n.shorthand {
        Some(ts) => {
            let c = clone_trees(ts, 0, ts.len());
            proof {
                assert(ts@.subrange(0, ts@.len() as int) =~= ts@);
            }
            Some(Operand::Expr(c))
        },
        None => None,
    }
}

fn or_operand_exec(o: Option<Operand>, d: Operand) -> (r: Operand)
    ensures
        r@ == or_operand(opt_operand(o), d@),
{
    match o {
        Some(x) => x,
        None => d,
    }
}

fn raw_or_exec(o: Option<Operand>, d: Init) -> (r: Init)
    ensures
        r@ == raw_or(opt_operand(o), d@),
{
    match o {
        Some(x) => Init::Raw(x),
        None => d,
    }
}

fn into_or_exec(o: Option<Operand>, d: Init) -> (r: Init)
    ensures
        r@ == into_or(opt_operand(o), d@),
{
    match o {
        Some(x) => Init::Into(x),
        None => d,
    }
}

fn some_raw_exec(o: Option<Operand>) -> (r: Init)
    ensures
        r@ == some_raw(opt_operand(o)),
{
    match o {
        Some(x) => {
            let inner = Init::Raw(x);
            assert(inner@ == InitV::Raw(x@));
            Init::Present(Box::new(inner))
        },
        None => Init::Absent,
    }
}

fn some_into_exec(o: Option<Operand>) -> (r: Init)
    ensures
        r@ == some_into(opt_operand(o)),
{
    match o {
        Some(x) => {
            let inner = Init::Into(x);
            assert(inner@ == InitV::Into(x@));
            Init::Present(Box::new(inner))
        },
        None => Init::Absent,
    }
}

fn entry_exec(f: Field, v: Init) -> (r: Entry)
    ensures
        r@ == entry(f, v@),
{
    Entry { field: f, init: v, deprecated: false }
}

/// Whether an operand is an expression of exactly the word `w`.
pub fn is_word_exec(o: &Operand, w: &str) -> (r: bool)
    ensures
        r == is_word(o@, w@),
{
    match o {
        Operand::Expr(ts) => {
            let t = render_trees(ts, 0, ts.len());
            proof {
                assert(ts@.subrange(0, ts@.len() as int) =~= ts@);
            }
            same_text(t.as_str(), w)
        },
        _ => false,
    }
}

/// A button style, from what the notation wrote.
pub fn resolve_button_style(o: Operand) -> (r: Init)
    ensures
        r@ == button_style(o@),
{
    if is_word_exec(&o, "Primary") {
        Init::Preset(Preset::ButtonPrimary)
    } else if is_word_exec(&o, "Secondary") {
        Init::Preset(Preset::ButtonSecondary)
    } else if is_word_exec(&o, "Success") {
        Init::Preset(Preset::ButtonSuccess)
    } else if is_word_exec(&o, "Danger") {
        Init::Preset(Preset::ButtonDanger)
    } else if is_word_exec(&o, "Link") {
        Init::Preset(Preset::ButtonLink)
    } else if is_word_exec(&o, "Premium") {
        Init::Preset(Preset::ButtonPremium)
    } else {
        Init::Raw(o)
    }
}

/// A select menu type, from what the notation wrote.
pub fn resolve_select_menu_type(o: Operand) -> (r: Init)
    ensures
        r@ == select_menu_type(o@),
{
    if is_word_exec(&o, "Text") || is_word_exec(&o, "String") {
        Init::Preset(Preset::SelectText)
    } else if is_word_exec(&o, "User") {
        Init::Preset(Preset::SelectUser)
    } else if is_word_exec(&o, "Role") {
        Init::Preset(Preset::SelectRole)
    } else if is_word_exec(&o, "Mentionable") {
        Init::Preset(Preset::SelectMentionable)
    } else if is_word_exec(&o, "Channel") {
        Init::Preset(Preset::SelectChannel)
    } else {
        Init::Raw(o)
    }
}

/// A separator's spacing, from what the notation wrote.
pub fn resolve_separator_spacing(o: Operand) -> (r: Init)
    ensures
        r@ == separator_spacing(o@),
{
    if is_word_exec(&o, "Small") {
        Init::Preset(Preset::SpacingSmall)
    } else if is_word_exec(&o, "Large") {
        Init::Preset(Preset::SpacingLarge)
    } else {
        Init::Raw(o)
    }
}

/// A text input style, from what the notation wrote.
pub fn resolve_text_input_style(o: Operand) -> (r: Init)
    ensures
        r@ == text_input_style(o@),
{
    if is_word_exec(&o, "Short") {
        Init::Preset(Preset::InputShort)
    } else if is_word_exec(&o, "Paragraph") {
        Init::Preset(Preset::InputParagraph)
    } else {
        Init::Raw(o)
    }
}

/// The first of two operands that is there; the second is looked for only
/// when the first is not.
fn either_exec(a: Option<Operand>, n: &ComponentNode, key: &str) -> (r: Option<Operand>)
    ensures
        opt_operand(r) == either(opt_operand(a), prop(n@, key@)),
    decreases n, 1nat,
{
    if a.is_some() {
        a
    } else {
        property_operand(n, key)
    }
}

/// What a component becomes.
pub fn generate(n: &ComponentNode) -> (r: Generated)
    ensures
        r@ == gen(n@),
    decreases n, 4nat,
{
    let entries = generate_entries(n);
    Generated { kind: n.kind, entries }
}

/// The field initialisers of what a component becomes.
fn generate_entries(n: &ComponentNode) -> (r: Vec<Entry>)
    ensures
        view_entries(r@) == gen(n@).entries,
    decreases n, 3nat,
{
    match n.kind {
        ComponentKind::Text => entries_text(n),
        ComponentKind::Container => entries_container(n),
        ComponentKind::Section => entries_section(n),
        ComponentKind::Separator => entries_separator(n),
        ComponentKind::MediaGallery => entries_media_gallery(n),
        ComponentKind::Thumbnail => entries_thumbnail(n),
        ComponentKind::File => entries_file(n),
        ComponentKind::FileUpload => entries_file_upload(n),
        ComponentKind::Label => entries_label(n),
        ComponentKind::ActionRow => entries_action_row(n),
        ComponentKind::Button => entries_button(n),
        ComponentKind::SelectMenu => entries_select_menu(n),
        ComponentKind::TextInput => entries_text_input(n),
        ComponentKind::MediaItem => entries_media_item(n),
        ComponentKind::SelectOption => entries_select_option(n),
    }
}

/// The field initialisers of what a `Text` component becomes.
fn entries_text(n: &ComponentNode) -> (r: Vec<Entry>)
    requires
        n.kind == ComponentKind::Text,
    ensures
        view_entries(r@) == gen(n@).entries,
    decreases n, 2nat,
{
    proof {
        reveal_with_fuel(view_init, 3);
    }
    let id = entry_exec(Field::Id, raw_or_exec(property_operand(n, "id"), Init::Absent));
    let content = either_exec(shorthand_exec(n), n, "content");
    let v = vec![
        id,
        entry_exec(Field::Content, Init::Into(or_operand_exec(content, Operand::EmptyString))),
    ];
    assert(view_entries(v@) =~= gen(n@).entries);
    v
}

/// The field initialisers of what a `Container` component becomes.
fn entries_container(n: &ComponentNode) -> (r: Vec<Entry>)
    requires
        n.kind == ComponentKind::Container,
    ensures
        view_entries(r@) == gen(n@).entries,
    decreases n, 2nat,
{
    proof {
        reveal_with_fuel(view_init, 3);
    }
    let id = entry_exec(Field::Id, raw_or_exec(property_operand(n, "id"), Init::Absent));
    let color = either_exec(property_operand(n, "accent_color"), n, "color");
    let accent = match color {
        Some(x) => Init::Present(Box::new(Init::Present(Box::new(Init::Raw(x))))),
        None => Init::Absent,
    };
    let v = vec![
        id,
        entry_exec(Field::AccentColor, accent),
        entry_exec(Field::Components, Init::List(children_of_exec(n))),
        entry_exec(Field::Spoiler, some_raw_exec(property_operand(n, "spoiler"))),
    ];
    assert(view_entries(v@) =~= gen(n@).entries);
    v
}

/// The field initialisers of what a `Section` component becomes.
fn entries_section(n: &ComponentNode) -> (r: Vec<Entry>)
    requires
        n.kind == ComponentKind::Section,
    ensures
        view_entries(r@) == gen(n@).entries,
    decreases n, 2nat,
{
    proof {
        reveal_with_fuel(view_init, 3);
    }
    let id = entry_exec(Field::Id, raw_or_exec(property_operand(n, "id"), Init::Absent));
    let accessory = match property_operand(n, "accessory") {
        Some(x) => Init::Boxed(x),
        None => Init::Missing(Missing::SectionAccessory),
    };
    let v = vec![
        id,
        entry_exec(Field::Accessory, accessory),
        entry_exec(Field::Components, Init::List(children_of_exec(n))),
    ];
    assert(view_entries(v@) =~= gen(n@).entries);
    v
}

/// The field initialisers of what a `Separator` component becomes.
fn entries_separator(n: &ComponentNode) -> (r: Vec<Entry>)
    requires
        n.kind == ComponentKind::Separator,
    ensures
        view_entries(r@) == gen(n@).entries,
    decreases n, 2nat,
{
    proof {
        reveal_with_fuel(view_init, 3);
    }
    let id = entry_exec(Field::Id, raw_or_exec(property_operand(n, "id"), Init::Absent));
    let divider = match property_operand(n, "divider") {
        Some(x) => Init::Present(Box::new(Init::Raw(x))),
        None => Init::Present(Box::new(Init::Flag(true))),
    };
    let spacing = match property_operand(n, "spacing") {
        Some(x) => Init::Present(Box::new(resolve_separator_spacing(x))),
        None => Init::Absent,
    };
    let v = vec![id, entry_exec(Field::Divider, divider), entry_exec(Field::Spacing, spacing)];
    assert(view_entries(v@) =~= gen(n@).entries);
    v
}

/// The field initialisers of what a `MediaGallery` component becomes.
fn entries_media_gallery(n: &ComponentNode) -> (r: Vec<Entry>)
    requires
        n.kind == ComponentKind::MediaGallery,
    ensures
        view_entries(r@) == gen(n@).entries,
    decreases n, 2nat,
{
    proof {
        reveal_with_fuel(view_init, 3);
    }
    let id = entry_exec(Field::Id, raw_or_exec(property_operand(n, "id"), Init::Absent));
    let v = vec![id, entry_exec(Field::Items, Init::List(children_of_exec(n)))];
    assert(view_entries(v@) =~= gen(n@).entries);
    v
}

/// The field initialisers of what a `Thumbnail` component becomes.
fn entries_thumbnail(n: &ComponentNode) -> (r: Vec<Entry>)
    requires
        n.kind == ComponentKind::Thumbnail,
    ensures
        view_entries(r@) == gen(n@).entries,
    decreases n, 2nat,
{
    proof {
        reveal_with_fuel(view_init, 3);
    }
    let id = entry_exec(Field::Id, raw_or_exec(property_operand(n, "id"), Init::Absent));
    let description = match either_exec(property_operand(n, "description"), n, "alt") {
        Some(x) => Init::Present(Box::new(Init::Present(Box::new(Init::Into(x))))),
        None => Init::Absent,
    };
    let url = either_exec(shorthand_exec(n), n, "url");
    let v = vec![
        id,
        entry_exec(Field::Description, description),
        entry_exec(Field::Media, Init::Media(or_operand_exec(url, Operand::EmptyText))),
        entry_exec(Field::Spoiler, some_raw_exec(property_operand(n, "spoiler"))),
    ];
    assert(view_entries(v@) =~= gen(n@).entries);
    v
}

/// The field initialisers of what a `File` component becomes.
fn entries_file(n: &ComponentNode) -> (r: Vec<Entry>)
    requires
        n.kind == ComponentKind::File,
    ensures
        view_entries(r@) == gen(n@).entries,
    decreases n, 2nat,
{
    proof {
        reveal_with_fuel(view_init, 3);
    }
    let id = entry_exec(Field::Id, raw_or_exec(property_operand(n, "id"), Init::Absent));
    let url = either_exec(shorthand_exec(n), n, "url");
    let v = vec![
        id,
        entry_exec(Field::File, Init::Media(or_operand_exec(url, Operand::EmptyText))),
        entry_exec(Field::Spoiler, some_raw_exec(property_operand(n, "spoiler"))),
    ];
    assert(view_entries(v@) =~= gen(n@).entries);
    v
}

/// The field initialisers of what a `FileUpload` component becomes.
fn entries_file_upload(n: &ComponentNode) -> (r: Vec<Entry>)
    requires
        n.kind == ComponentKind::FileUpload,
    ensures
        view_entries(r@) == gen(n@).entries,
    decreases n, 2nat,
{
    proof {
        reveal_with_fuel(view_init, 3);
    }
    let id = entry_exec(Field::Id, raw_or_exec(property_operand(n, "id"), Init::Absent));
    let v = vec![
        id,
        entry_exec(
            Field::CustomId,
            into_or_exec(property_operand(n, "custom_id"), Init::Raw(Operand::EmptyString)),
        ),
        entry_exec(Field::MaxValues, some_raw_exec(property_operand(n, "max_values"))),
        entry_exec(Field::MinValues, some_raw_exec(property_operand(n, "min_values"))),
        entry_exec(Field::Required, some_raw_exec(property_operand(n, "required"))),
    ];
    assert(view_entries(v@) =~= gen(n@).entries);
    v
}

/// The field initialisers of what a `Label` component becomes.
fn entries_label(n: &ComponentNode) -> (r: Vec<Entry>)
    requires
        n.kind == ComponentKind::Label,
    ensures
        view_entries(r@) == gen(n@).entries,
    decreases n, 2nat,
{
    proof {
        reveal_with_fuel(view_init, 3);
    }
    let id = entry_exec(Field::Id, raw_or_exec(property_operand(n, "id"), Init::Absent));
    let label = either_exec(shorthand_exec(n), n, "label");
    let component = match either_exec(first_child_exec(n), n, "component") {
        Some(x) => Init::Boxed(x),
        None => Init::Missing(Missing::LabelComponent),
    };
    let v = vec![
        id,
        entry_exec(Field::Label, into_or_exec(label, Init::Raw(Operand::EmptyString))),
        entry_exec(Field::Description, some_into_exec(property_operand(n, "description"))),
        entry_exec(Field::Component, component),
    ];
    assert(view_entries(v@) =~= gen(n@).entries);
    v
}

/// The field initialisers of what a `ActionRow` component becomes.
fn entries_action_row(n: &ComponentNode) -> (r: Vec<Entry>)
    requires
        n.kind == ComponentKind::ActionRow,
    ensures
        view_entries(r@) == gen(n@).entries,
    decreases n, 2nat,
{
    proof {
        reveal_with_fuel(view_init, 3);
    }
    let id = entry_exec(Field::Id, raw_or_exec(property_operand(n, "id"), Init::Absent));
    let v = vec![id, entry_exec(Field::Components, Init::List(children_of_exec(n)))];
    assert(view_entries(v@) =~= gen(n@).entries);
    v
}

/// The field initialisers of what a `Button` component becomes.
fn entries_button(n: &ComponentNode) -> (r: Vec<Entry>)
    requires
        n.kind == ComponentKind::Button,
    ensures
        view_entries(r@) == gen(n@).entries,
    decreases n, 2nat,
{
    proof {
        reveal_with_fuel(view_init, 3);
    }
    let id = entry_exec(Field::Id, raw_or_exec(property_operand(n, "id"), Init::Absent));
    let label = either_exec(shorthand_exec(n), n, "label");
    let style = match property_operand(n, "style") {
        Some(x) => resolve_button_style(x),
        None => Init::Preset(Preset::ButtonPrimary),
    };
    let v = vec![
        id,
        entry_exec(Field::CustomId, some_into_exec(property_operand(n, "custom_id"))),
        entry_exec(Field::Disabled, raw_or_exec(property_operand(n, "disabled"), Init::Flag(false))),
        entry_exec(Field::Emoji, raw_or_exec(property_operand(n, "emoji"), Init::Absent)),
        entry_exec(Field::Label, some_into_exec(label)),
        entry_exec(Field::Style, style),
        entry_exec(Field::Url, some_into_exec(property_operand(n, "url"))),
        entry_exec(Field::SkuId, raw_or_exec(property_operand(n, "sku_id"), Init::Absent)),
    ];
    assert(view_entries(v@) =~= gen(n@).entries);
    v
}

/// The field initialisers of what a `SelectMenu` component becomes.
fn entries_select_menu(n: &ComponentNode) -> (r: Vec<Entry>)
    requires
        n.kind == ComponentKind::SelectMenu,
    ensures
        view_entries(r@) == gen(n@).entries,
    decreases n, 2nat,
{
    proof {
        reveal_with_fuel(view_init, 3);
    }
    let id = entry_exec(Field::Id, raw_or_exec(property_operand(n, "id"), Init::Absent));
    let kind = match either_exec(property_operand(n, "kind"), n, "type") {
        Some(x) => resolve_select_menu_type(x),
        None => Init::Preset(Preset::SelectText),
    };
    let options = match &n.children {
        Some(cs) => {
            proof {
                assert(n@.children == Some(view_nodes(cs@)));
            }
            Init::Present(Box::new(Init::List(generate_list(cs))))
        },
        None => Init::Absent,
    };
    let v = vec![
        id,
        entry_exec(Field::ChannelTypes, some_raw_exec(property_operand(n, "channel_types"))),
        entry_exec(
            Field::CustomId,
            into_or_exec(property_operand(n, "custom_id"), Init::Raw(Operand::EmptyString)),
        ),
        entry_exec(
            Field::DefaultValues,
            raw_or_exec(property_operand(n, "default_values"), Init::Absent),
        ),
        entry_exec(Field::Disabled, raw_or_exec(property_operand(n, "disabled"), Init::Flag(false))),
        entry_exec(Field::Kind, kind),
        entry_exec(Field::MaxValues, some_raw_exec(property_operand(n, "max_values"))),
        entry_exec(Field::MinValues, some_raw_exec(property_operand(n, "min_values"))),
        entry_exec(Field::Options, options),
        entry_exec(Field::Placeholder, some_into_exec(property_operand(n, "placeholder"))),
        entry_exec(Field::Required, some_raw_exec(property_operand(n, "required"))),
    ];
    assert(view_entries(v@) =~= gen(n@).entries);
    v
}

/// The field initialisers of what a `TextInput` component becomes.
fn entries_text_input(n: &ComponentNode) -> (r: Vec<Entry>)
    requires
        n.kind == ComponentKind::TextInput,
    ensures
        view_entries(r@) == gen(n@).entries,
    decreases n, 2nat,
{
    proof {
        reveal_with_fuel(view_init, 3);
    }
    let id = entry_exec(Field::Id, raw_or_exec(property_operand(n, "id"), Init::Absent));
    let style = match property_operand(n, "style") {
        Some(x) => resolve_text_input_style(x),
        None => Init::Preset(Preset::InputShort),
    };
    let v = vec![
        id,
        entry_exec(
            Field::CustomId,
            into_or_exec(property_operand(n, "custom_id"), Init::Raw(Operand::EmptyString)),
        ),
        Entry {
            field: Field::Label,
            init: some_into_exec(property_operand(n, "label")),
            deprecated: true,
        },
        entry_exec(Field::MaxLength, some_raw_exec(property_operand(n, "max_length"))),
        entry_exec(Field::MinLength, some_raw_exec(property_operand(n, "min_length"))),
        entry_exec(Field::Placeholder, some_into_exec(property_operand(n, "placeholder"))),
        entry_exec(Field::Required, some_raw_exec(property_operand(n, "required"))),
        entry_exec(Field::Style, style),
        entry_exec(Field::Value, some_into_exec(property_operand(n, "value"))),
    ];
    assert(view_entries(v@) =~= gen(n@).entries);
    v
}

/// The field initialisers of what a `MediaItem` component becomes.
fn entries_media_item(n: &ComponentNode) -> (r: Vec<Entry>)
    requires
        n.kind == ComponentKind::MediaItem,
    ensures
        view_entries(r@) == gen(n@).entries,
    decreases n, 2nat,
{
    proof {
        reveal_with_fuel(view_init, 3);
    }
    let description = either_exec(property_operand(n, "description"), n, "alt");
    let url = either_exec(shorthand_exec(n), n, "url");
    let v = vec![
        entry_exec(Field::Description, some_into_exec(description)),
        entry_exec(Field::Media, Init::Media(or_operand_exec(url, Operand::EmptyText))),
        entry_exec(Field::Spoiler, some_raw_exec(property_operand(n, "spoiler"))),
    ];
    assert(view_entries(v@) =~= gen(n@).entries);
    v
}

/// The field initialisers of what a `SelectOption` component becomes.
fn entries_select_option(n: &ComponentNode) -> (r: Vec<Entry>)
    requires
        n.kind == ComponentKind::SelectOption,
    ensures
        view_entries(r@) == gen(n@).entries,
    decreases n, 2nat,
{
    proof {
        reveal_with_fuel(view_init, 3);
    }
    let label = either_exec(shorthand_exec(n), n, "label");
    let v = vec![
        entry_exec(Field::Default, raw_or_exec(property_operand(n, "default"), Init::Flag(false))),
        entry_exec(Field::Description, some_into_exec(property_operand(n, "description"))),
        entry_exec(Field::Emoji, raw_or_exec(property_operand(n, "emoji"), Init::Absent)),
        entry_exec(Field::Label, into_or_exec(label, Init::Raw(Operand::EmptyString))),
        entry_exec(
            Field::Value,
            into_or_exec(property_operand(n, "value"), Init::Raw(Operand::EmptyString)),
        ),
    ];
    assert(view_entries(v@) =~= gen(n@).entries);
    v
}

} // verus!
