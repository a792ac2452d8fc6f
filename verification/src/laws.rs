//! What holds of the notation as a whole.
use vstd::prelude::*;

use crate::ast::{kind_named, ComponentKind, NodeV, PropV, ValueV};
use crate::emit::{emit_gen, emit_init, emit_list, emit_operand, model_type, path_segment, preset_path};
use crate::expand::{array_items, component_expansion, components_expansion};
use crate::constructed::{GenV, InitV, OperandV};
use crate::generate::{
    button_style, children_of, find_key, first_child, gen, gen_list, operand, prop,
    select_menu_type, separator_spacing, shorthand, text_input_style,
};
use crate::parse::{
    ends_expression, expression_end_from, read_component, read_components, read_node,
    read_properties, read_value, starts_component, ParseErrorV,
};
use crate::syntax::RustSyntax;
use crate::tokens::{
    bare, is_group, is_punct, lemma_bare_group, render, render_tok, Delimiter, Tok,
};

verus! {

/// The keys whose properties a kind reads.
pub open spec fn reads_key(kind: ComponentKind, k: Seq<char>) -> bool {
    match kind {
        ComponentKind::Text => k == "id"@ || k == "content"@,
        ComponentKind::Container => k == "id"@ || k == "accent_color"@ || k == "color"@ || k
            == "spoiler"@,
        ComponentKind::Section => k == "id"@ || k == "accessory"@,
        ComponentKind::Separator => k == "id"@ || k == "divider"@ || k == "spacing"@,
        ComponentKind::MediaGallery => k == "id"@,
        ComponentKind::Thumbnail => k == "id"@ || k == "description"@ || k == "alt"@ || k
            == "url"@ || k == "spoiler"@,
        ComponentKind::File => k == "id"@ || k == "url"@ || k == "spoiler"@,
        ComponentKind::FileUpload => k == "id"@ || k == "custom_id"@ || k == "max_values"@ || k
            == "min_values"@ || k == "required"@,
        ComponentKind::Label => k == "id"@ || k == "label"@ || k == "description"@ || k
            == "component"@,
        ComponentKind::ActionRow => k == "id"@,
        ComponentKind::Button => k == "id"@ || k == "custom_id"@ || k == "disabled"@ || k
            == "emoji"@ || k == "label"@ || k == "style"@ || k == "url"@ || k == "sku_id"@,
        ComponentKind::SelectMenu => k == "id"@ || k == "channel_types"@ || k == "custom_id"@
            || k == "default_values"@ || k == "disabled"@ || k == "kind"@ || k == "type"@ || k
            == "max_values"@ || k == "min_values"@ || k == "placeholder"@ || k == "required"@,
        ComponentKind::TextInput => k == "id"@ || k == "custom_id"@ || k == "label"@ || k
            == "max_length"@ || k == "min_length"@ || k == "placeholder"@ || k == "required"@
            || k == "style"@ || k == "value"@,
        ComponentKind::MediaItem => k == "description"@ || k == "alt"@ || k == "url"@ || k
            == "spoiler"@,
        ComponentKind::SelectOption => k == "default"@ || k == "description"@ || k == "emoji"@
            || k == "label"@ || k == "value"@,
    }
}

/// The property that a kind's shorthand stands for, if it has one.
pub open spec fn primary_key(kind: ComponentKind) -> Option<Seq<char>> {
    match kind {
        ComponentKind::Text => Some("content"@),
        ComponentKind::Thumbnail => Some("url"@),
        ComponentKind::File => Some("url"@),
        ComponentKind::MediaItem => Some("url"@),
        ComponentKind::Label => Some("label"@),
        ComponentKind::Button => Some("label"@),
        ComponentKind::SelectOption => Some("label"@),
        _ => None,
    }
}

/// Whether a kind takes children in brackets.
pub open spec fn takes_children(kind: ComponentKind) -> bool {
    match kind {
        ComponentKind::Container => true,
        ComponentKind::Section => true,
        ComponentKind::MediaGallery => true,
        ComponentKind::Label => true,
        ComponentKind::ActionRow => true,
        ComponentKind::SelectMenu => true,
        _ => false,
    }
}

/// The properties of a component, none when it has no braces.
pub open spec fn props_of(n: NodeV) -> Seq<PropV> {
    match n.properties {
        Some(ps) => ps,
        None => Seq::empty(),
    }
}

/// `n` with the properties `ps`.
pub open spec fn with_props(n: NodeV, ps: Seq<PropV>) -> NodeV {
    NodeV { kind: n.kind, shorthand: n.shorthand, properties: Some(ps), children: n.children }
}

/// `ps` with the properties at `j` and `j + 1` swapped.
pub open spec fn swap_next(ps: Seq<PropV>, j: int) -> Seq<PropV> {
    ps.update(j, ps[j + 1]).update(j + 1, ps[j])
}

/// Where `find_key` stops: at the first property with the key.
proof fn lemma_find_key_first(ps: Seq<PropV>, k: Seq<char>, i: int)
    requires
        0 <= i,
    ensures
        match find_key(ps, k, i) {
            Some(j) => i <= j < ps.len() && ps[j].key == k && forall|m: int|
                i <= m < j ==> #[trigger] ps[m].key != k,
            None => forall|m: int| i <= m < ps.len() ==> #[trigger] ps[m].key != k,
        },
    decreases ps.len() - i,
{
    if i < ps.len() && ps[i].key != k {
        lemma_find_key_first(ps, k, i + 1);
    }
}

/// `find_key` is determined by the first property with the key.
proof fn lemma_find_key_is_first(ps: Seq<PropV>, k: Seq<char>, j: int)
    requires
        0 <= j < ps.len(),
        ps[j].key == k,
        forall|m: int| 0 <= m < j ==> #[trigger] ps[m].key != k,
    ensures
        find_key(ps, k, 0) == Some(j),
{
    lemma_find_key_first(ps, k, 0);
}

/// What the generated code reads of a component's properties: the first
/// property with each key that its kind reads.
proof fn lemma_gen_reads_props(n1: NodeV, n2: NodeV)
    requires
        n1.kind == n2.kind,
        primary_key(n1.kind) is Some ==> n1.shorthand == n2.shorthand,
        takes_children(n1.kind) ==> n1.children == n2.children,
        forall|k: Seq<char>| reads_key(n1.kind, k) ==> #[trigger] prop(n1, k) == prop(n2, k),
    ensures
        gen(n1) == gen(n2),
{
    if takes_children(n1.kind) {
        assert(children_of(n1) == children_of(n2));
        assert(first_child(n1) == first_child(n2));
    }
    match n1.kind {
        ComponentKind::Text => {
            assert(prop(n1, "id"@) == prop(n2, "id"@));
            assert(prop(n1, "content"@) == prop(n2, "content"@));
        },
        ComponentKind::Container => {
            assert(prop(n1, "id"@) == prop(n2, "id"@));
            assert(prop(n1, "accent_color"@) == prop(n2, "accent_color"@));
            assert(prop(n1, "color"@) == prop(n2, "color"@));
            assert(prop(n1, "spoiler"@) == prop(n2, "spoiler"@));
        },
        ComponentKind::Section => {
            assert(prop(n1, "id"@) == prop(n2, "id"@));
            assert(prop(n1, "accessory"@) == prop(n2, "accessory"@));
        },
        ComponentKind::Separator => {
            assert(prop(n1, "id"@) == prop(n2, "id"@));
            assert(prop(n1, "divider"@) == prop(n2, "divider"@));
            assert(prop(n1, "spacing"@) == prop(n2, "spacing"@));
        },
        ComponentKind::MediaGallery => {
            assert(prop(n1, "id"@) == prop(n2, "id"@));
        },
        ComponentKind::Thumbnail => {
            assert(prop(n1, "id"@) == prop(n2, "id"@));
            assert(prop(n1, "description"@) == prop(n2, "description"@));
            assert(prop(n1, "alt"@) == prop(n2, "alt"@));
            assert(prop(n1, "url"@) == prop(n2, "url"@));
            assert(prop(n1, "spoiler"@) == prop(n2, "spoiler"@));
        },
        ComponentKind::File => {
            assert(prop(n1, "id"@) == prop(n2, "id"@));
            assert(prop(n1, "url"@) == prop(n2, "url"@));
            assert(prop(n1, "spoiler"@) == prop(n2, "spoiler"@));
        },
        ComponentKind::FileUpload => {
            assert(prop(n1, "id"@) == prop(n2, "id"@));
            assert(prop(n1, "custom_id"@) == prop(n2, "custom_id"@));
            assert(prop(n1, "max_values"@) == prop(n2, "max_values"@));
            assert(prop(n1, "min_values"@) == prop(n2, "min_values"@));
            assert(prop(n1, "required"@) == prop(n2, "required"@));
        },
        ComponentKind::Label => {
            assert(prop(n1, "id"@) == prop(n2, "id"@));
            assert(prop(n1, "label"@) == prop(n2, "label"@));
            assert(prop(n1, "description"@) == prop(n2, "description"@));
            assert(prop(n1, "component"@) == prop(n2, "component"@));
        },
        ComponentKind::ActionRow => {
            assert(prop(n1, "id"@) == prop(n2, "id"@));
        },
        ComponentKind::Button => {
            assert(prop(n1, "id"@) == prop(n2, "id"@));
            assert(prop(n1, "custom_id"@) == prop(n2, "custom_id"@));
            assert(prop(n1, "disabled"@) == prop(n2, "disabled"@));
            assert(prop(n1, "emoji"@) == prop(n2, "emoji"@));
            assert(prop(n1, "label"@) == prop(n2, "label"@));
            assert(prop(n1, "style"@) == prop(n2, "style"@));
            assert(prop(n1, "url"@) == prop(n2, "url"@));
            assert(prop(n1, "sku_id"@) == prop(n2, "sku_id"@));
        },
        ComponentKind::SelectMenu => {
            assert(prop(n1, "id"@) == prop(n2, "id"@));
            assert(prop(n1, "channel_types"@) == prop(n2, "channel_types"@));
            assert(prop(n1, "custom_id"@) == prop(n2, "custom_id"@));
            assert(prop(n1, "default_values"@) == prop(n2, "default_values"@));
            assert(prop(n1, "disabled"@) == prop(n2, "disabled"@));
            assert(prop(n1, "kind"@) == prop(n2, "kind"@));
            assert(prop(n1, "type"@) == prop(n2, "type"@));
            assert(prop(n1, "max_values"@) == prop(n2, "max_values"@));
            assert(prop(n1, "min_values"@) == prop(n2, "min_values"@));
            assert(prop(n1, "placeholder"@) == prop(n2, "placeholder"@));
            assert(prop(n1, "required"@) == prop(n2, "required"@));
        },
        ComponentKind::TextInput => {
            assert(prop(n1, "id"@) == prop(n2, "id"@));
            assert(prop(n1, "custom_id"@) == prop(n2, "custom_id"@));
            assert(prop(n1, "label"@) == prop(n2, "label"@));
            assert(prop(n1, "max_length"@) == prop(n2, "max_length"@));
            assert(prop(n1, "min_length"@) == prop(n2, "min_length"@));
            assert(prop(n1, "placeholder"@) == prop(n2, "placeholder"@));
            assert(prop(n1, "required"@) == prop(n2, "required"@));
            assert(prop(n1, "style"@) == prop(n2, "style"@));
            assert(prop(n1, "value"@) == prop(n2, "value"@));
        },
        ComponentKind::MediaItem => {
            assert(prop(n1, "description"@) == prop(n2, "description"@));
            assert(prop(n1, "alt"@) == prop(n2, "alt"@));
            assert(prop(n1, "url"@) == prop(n2, "url"@));
            assert(prop(n1, "spoiler"@) == prop(n2, "spoiler"@));
        },
        ComponentKind::SelectOption => {
            assert(prop(n1, "default"@) == prop(n2, "default"@));
            assert(prop(n1, "description"@) == prop(n2, "description"@));
            assert(prop(n1, "emoji"@) == prop(n2, "emoji"@));
            assert(prop(n1, "label"@) == prop(n2, "label"@));
            assert(prop(n1, "value"@) == prop(n2, "value"@));
        },
    }
}

/// Reading a key from properties that agree with `ps` on where the key first
/// occurs, and on the value there.
proof fn lemma_prop_same_first(n1: NodeV, n2: NodeV, k: Seq<char>)
    requires
        match find_key(props_of(n1), k, 0) {
            Some(i) => find_key(props_of(n2), k, 0) matches Some(j) && props_of(n1)[i].value
                == props_of(n2)[j].value,
            None => find_key(props_of(n2), k, 0) is None,
        },
    ensures
        prop(n1, k) == prop(n2, k),
{
}

/// Removing a property that is not the first with key `k` leaves what is read
/// for `k` unchanged.
proof fn lemma_prop_remove(n: NodeV, j: int, k: Seq<char>)
    requires
        0 <= j < props_of(n).len(),
        props_of(n)[j].key != k || exists|i: int| 0 <= i < j && props_of(n)[i].key == k,
    ensures
        prop(with_props(n, props_of(n).remove(j)), k) == prop(n, k),
{
    let ps = props_of(n);
    let rs = ps.remove(j);
    let m = with_props(n, rs);
    assert(props_of(m) == rs);
    lemma_find_key_first(ps, k, 0);
    lemma_find_key_first(rs, k, 0);
    match find_key(ps, k, 0) {
        Some(i) => {
            if i < j {
                assert forall|q: int| 0 <= q < i implies #[trigger] rs[q].key != k by {
                    assert(rs[q] == ps[q]);
                }
                assert(rs[i] == ps[i]);
                lemma_find_key_is_first(rs, k, i);
            } else {
                // The removed property is not the first with the key, so it is
                // not one; the first lies after it.
                assert(i != j);
                assert forall|q: int| 0 <= q < i - 1 implies #[trigger] rs[q].key != k by {
                    if q < j {
                        assert(rs[q] == ps[q]);
                    } else {
                        assert(rs[q] == ps[q + 1]);
                    }
                }
                assert(rs[i - 1] == ps[i]);
                lemma_find_key_is_first(rs, k, i - 1);
            }
        },
        None => {
            assert forall|q: int| 0 <= q < rs.len() implies #[trigger] rs[q].key != k by {
                if q < j {
                    assert(rs[q] == ps[q]);
                } else {
                    assert(rs[q] == ps[q + 1]);
                }
            }
            if let Some(q) = find_key(rs, k, 0) {
                assert(rs[q].key != k);
            }
        },
    }
    lemma_prop_same_first(m, n, k);
}

/// Putting a property first: what is read for its key is its value; what is
/// read for every other key is unchanged.
proof fn lemma_prop_prepend(n: NodeV, p: PropV, k: Seq<char>)
    ensures
        prop(with_props(n, seq![p] + props_of(n)), k) == if p.key == k {
            Some(operand(p.value))
        } else {
            prop(n, k)
        },
{
    let ps = props_of(n);
    let qs = seq![p] + ps;
    let m = with_props(n, qs);
    assert(props_of(m) == qs);
    lemma_find_key_first(ps, k, 0);
    lemma_find_key_first(qs, k, 0);
    if p.key == k {
        lemma_find_key_is_first(qs, k, 0);
    } else {
        match find_key(ps, k, 0) {
            Some(i) => {
                assert forall|q: int| 0 <= q < i + 1 implies #[trigger] qs[q].key != k by {
                    if q > 0 {
                        assert(qs[q] == ps[q - 1]);
                    }
                }
                assert(qs[i + 1] == ps[i]);
                lemma_find_key_is_first(qs, k, i + 1);
            },
            None => {
                assert forall|q: int| 0 <= q < qs.len() implies #[trigger] qs[q].key != k by {
                    if q > 0 {
                        assert(qs[q] == ps[q - 1]);
                    }
                }
                if let Some(q) = find_key(qs, k, 0) {
                    assert(qs[q].key != k);
                }
            },
        }
        lemma_prop_same_first(m, n, k);
    }
}

/// Properties that the kind of a component does not read do not change what
/// it becomes: removing one leaves the expansion as it was.
pub proof fn unread_property_is_ignored(n: NodeV, j: int)
    requires
        0 <= j < props_of(n).len(),
        !reads_key(n.kind, props_of(n)[j].key),
    ensures
        gen(with_props(n, props_of(n).remove(j))) == gen(n),
{
    let m = with_props(n, props_of(n).remove(j));
    assert forall|k: Seq<char>| reads_key(m.kind, k) implies #[trigger] prop(m, k) == prop(n, k) by {
        lemma_prop_remove(n, j, k);
    }
    lemma_gen_reads_props(m, n);
}

/// When a key is written twice, the first property counts: removing a later
/// one leaves the expansion as it was.
pub proof fn repeated_key_is_ignored(n: NodeV, i: int, j: int)
    requires
        0 <= i < j < props_of(n).len(),
        props_of(n)[i].key == props_of(n)[j].key,
    ensures
        gen(with_props(n, props_of(n).remove(j))) == gen(n),
{
    let m = with_props(n, props_of(n).remove(j));
    assert forall|k: Seq<char>| reads_key(m.kind, k) implies #[trigger] prop(m, k) == prop(n, k) by {
        lemma_prop_remove(n, j, k);
    }
    lemma_gen_reads_props(m, n);
}

/// The order of properties with different keys does not matter: swapping two
/// neighbours leaves the expansion as it was.
pub proof fn property_order_is_free(n: NodeV, j: int)
    requires
        0 <= j,
        j + 1 < props_of(n).len(),
        props_of(n)[j].key != props_of(n)[j + 1].key,
    ensures
        gen(with_props(n, swap_next(props_of(n), j))) == gen(n),
{
    let ps = props_of(n);
    let ss = swap_next(ps, j);
    let m = with_props(n, ss);
    assert(props_of(m) == ss);
    assert forall|k: Seq<char>| reads_key(m.kind, k) implies #[trigger] prop(m, k) == prop(n, k) by {
        lemma_find_key_first(ps, k, 0);
        lemma_find_key_first(ss, k, 0);
        match find_key(ps, k, 0) {
            Some(i) => {
                let t = if i == j {
                    j + 1
                } else if i == j + 1 {
                    j
                } else {
                    i
                };
                assert(ss[t] == ps[i]);
                assert forall|q: int| 0 <= q < t implies #[trigger] ss[q].key != k by {
                    if q == j {
                        assert(ss[q] == ps[j + 1]);
                    } else if q == j + 1 {
                        assert(ss[q] == ps[j]);
                    } else {
                        assert(ss[q] == ps[q]);
                    }
                }
                lemma_find_key_is_first(ss, k, t);
            },
            None => {
                assert forall|q: int| 0 <= q < ss.len() implies #[trigger] ss[q].key != k by {
                    if q == j {
                        assert(ss[q] == ps[j + 1]);
                    } else if q == j + 1 {
                        assert(ss[q] == ps[j]);
                    } else {
                        assert(ss[q] == ps[q]);
                    }
                }
                if let Some(q) = find_key(ss, k, 0) {
                    assert(ss[q].key != k);
                }
            },
        }
        lemma_prop_same_first(m, n, k);
    }
    lemma_gen_reads_props(m, n);
}

/// The shorthand of a kind with a primary field is that field written as the
/// first property: `Text("x") { .. }` expands as `Text { content: "x", .. }`.
pub proof fn shorthand_is_primary_property(n: NodeV, s: Seq<Tok>)
    requires
        n.shorthand == Some(s),
        primary_key(n.kind) is Some,
    ensures
        gen(n) == gen(
            NodeV {
                kind: n.kind,
                shorthand: None,
                properties: Some(
                    seq![PropV { key: primary_key(n.kind)->0, value: ValueV::Expr(s) }] + props_of(
                        n,
                    ),
                ),
                children: n.children,
            },
        ),
{
    let p = PropV { key: primary_key(n.kind)->0, value: ValueV::Expr(s) };
    let q = with_props(n, seq![p] + props_of(n));
    let m = NodeV {
        kind: n.kind,
        shorthand: None,
        properties: Some(seq![p] + props_of(n)),
        children: n.children,
    };
    assert(children_of(m) == children_of(n));
    assert(first_child(m) == first_child(n));
    assert(shorthand(n) == Some(OperandV::Expr(s)));
    lemma_prop_prepend(n, p, p.key);
    assert(prop(m, p.key) == prop(q, p.key));
    assert(prop(m, p.key) == Some(OperandV::Expr(s)));
    match n.kind {
        ComponentKind::Text => {
            reveal_strlit("id");
            reveal_strlit("content");
            assert("content"@.len() != "id"@.len());
            lemma_prop_prepend(n, p, "id"@);
            assert(prop(m, "id"@) == prop(q, "id"@));
            lemma_prop_prepend(n, p, "content"@);
            assert(prop(m, "content"@) == prop(q, "content"@));
            assert(gen(m).entries =~= gen(n).entries);
        },
        ComponentKind::Thumbnail => {
            reveal_strlit("id");
            reveal_strlit("description");
            reveal_strlit("alt");
            reveal_strlit("url");
            reveal_strlit("spoiler");
            assert("url"@.len() != "id"@.len());
            assert("url"@.len() != "description"@.len());
            assert("url"@[0] != "alt"@[0]);
            assert("url"@.len() != "spoiler"@.len());
            lemma_prop_prepend(n, p, "id"@);
            assert(prop(m, "id"@) == prop(q, "id"@));
            lemma_prop_prepend(n, p, "description"@);
            assert(prop(m, "description"@) == prop(q, "description"@));
            lemma_prop_prepend(n, p, "alt"@);
            assert(prop(m, "alt"@) == prop(q, "alt"@));
            lemma_prop_prepend(n, p, "url"@);
            assert(prop(m, "url"@) == prop(q, "url"@));
            lemma_prop_prepend(n, p, "spoiler"@);
            assert(prop(m, "spoiler"@) == prop(q, "spoiler"@));
            assert(gen(m).entries =~= gen(n).entries);
        },
        ComponentKind::File => {
            reveal_strlit("id");
            reveal_strlit("url");
            reveal_strlit("spoiler");
            assert("url"@.len() != "id"@.len());
            assert("url"@.len() != "spoiler"@.len());
            lemma_prop_prepend(n, p, "id"@);
            assert(prop(m, "id"@) == prop(q, "id"@));
            lemma_prop_prepend(n, p, "url"@);
            assert(prop(m, "url"@) == prop(q, "url"@));
            lemma_prop_prepend(n, p, "spoiler"@);
            assert(prop(m, "spoiler"@) == prop(q, "spoiler"@));
            assert(gen(m).entries =~= gen(n).entries);
        },
        ComponentKind::Label => {
            reveal_strlit("id");
            reveal_strlit("label");
            reveal_strlit("description");
            reveal_strlit("component");
            assert("label"@.len() != "id"@.len());
            assert("label"@.len() != "description"@.len());
            assert("label"@.len() != "component"@.len());
            lemma_prop_prepend(n, p, "id"@);
            assert(prop(m, "id"@) == prop(q, "id"@));
            lemma_prop_prepend(n, p, "label"@);
            assert(prop(m, "label"@) == prop(q, "label"@));
            lemma_prop_prepend(n, p, "description"@);
            assert(prop(m, "description"@) == prop(q, "description"@));
            lemma_prop_prepend(n, p, "component"@);
            assert(prop(m, "component"@) == prop(q, "component"@));
            assert(gen(m).entries =~= gen(n).entries);
        },
        ComponentKind::Button => {
            reveal_strlit("id");
            reveal_strlit("custom_id");
            reveal_strlit("disabled");
            reveal_strlit("emoji");
            reveal_strlit("label");
            reveal_strlit("style");
            reveal_strlit("url");
            reveal_strlit("sku_id");
            assert("label"@.len() != "id"@.len());
            assert("label"@.len() != "custom_id"@.len());
            assert("label"@.len() != "disabled"@.len());
            assert("label"@[0] != "emoji"@[0]);
            assert("label"@[0] != "style"@[0]);
            assert("label"@.len() != "url"@.len());
            assert("label"@.len() != "sku_id"@.len());
            lemma_prop_prepend(n, p, "id"@);
            assert(prop(m, "id"@) == prop(q, "id"@));
            lemma_prop_prepend(n, p, "custom_id"@);
            assert(prop(m, "custom_id"@) == prop(q, "custom_id"@));
            lemma_prop_prepend(n, p, "disabled"@);
            assert(prop(m, "disabled"@) == prop(q, "disabled"@));
            lemma_prop_prepend(n, p, "emoji"@);
            assert(prop(m, "emoji"@) == prop(q, "emoji"@));
            lemma_prop_prepend(n, p, "label"@);
            assert(prop(m, "label"@) == prop(q, "label"@));
            lemma_prop_prepend(n, p, "style"@);
            assert(prop(m, "style"@) == prop(q, "style"@));
            lemma_prop_prepend(n, p, "url"@);
            assert(prop(m, "url"@) == prop(q, "url"@));
            lemma_prop_prepend(n, p, "sku_id"@);
            assert(prop(m, "sku_id"@) == prop(q, "sku_id"@));
            assert(gen(m).entries =~= gen(n).entries);
        },
        ComponentKind::MediaItem => {
            reveal_strlit("description");
            reveal_strlit("alt");
            reveal_strlit("url");
            reveal_strlit("spoiler");
            assert("url"@.len() != "description"@.len());
            assert("url"@[0] != "alt"@[0]);
            assert("url"@.len() != "spoiler"@.len());
            lemma_prop_prepend(n, p, "description"@);
            assert(prop(m, "description"@) == prop(q, "description"@));
            lemma_prop_prepend(n, p, "alt"@);
            assert(prop(m, "alt"@) == prop(q, "alt"@));
            lemma_prop_prepend(n, p, "url"@);
            assert(prop(m, "url"@) == prop(q, "url"@));
            lemma_prop_prepend(n, p, "spoiler"@);
            assert(prop(m, "spoiler"@) == prop(q, "spoiler"@));
            assert(gen(m).entries =~= gen(n).entries);
        },
        ComponentKind::SelectOption => {
            reveal_strlit("default");
            reveal_strlit("description");
            reveal_strlit("emoji");
            reveal_strlit("label");
            reveal_strlit("value");
            assert("label"@.len() != "default"@.len());
            assert("label"@.len() != "description"@.len());
            assert("label"@[0] != "emoji"@[0]);
            assert("label"@[0] != "value"@[0]);
            lemma_prop_prepend(n, p, "default"@);
            assert(prop(m, "default"@) == prop(q, "default"@));
            lemma_prop_prepend(n, p, "description"@);
            assert(prop(m, "description"@) == prop(q, "description"@));
            lemma_prop_prepend(n, p, "emoji"@);
            assert(prop(m, "emoji"@) == prop(q, "emoji"@));
            lemma_prop_prepend(n, p, "label"@);
            assert(prop(m, "label"@) == prop(q, "label"@));
            lemma_prop_prepend(n, p, "value"@);
            assert(prop(m, "value"@) == prop(q, "value"@));
            assert(gen(m).entries =~= gen(n).entries);
        },
        _ => {},
    }
}

/// A kind without a primary field ignores a shorthand.
pub proof fn shorthand_without_primary_is_ignored(n: NodeV)
    requires
        primary_key(n.kind) is None,
    ensures
        gen(n) == gen(
            NodeV {
                kind: n.kind,
                shorthand: None,
                properties: n.properties,
                children: n.children,
            },
        ),
{
    let m = NodeV { kind: n.kind, shorthand: None, properties: n.properties, children: n.children };
    assert forall|k: Seq<char>| reads_key(n.kind, k) implies #[trigger] prop(n, k) == prop(m, k) by {
    }
    lemma_gen_reads_props(n, m);
}

/// A kind that takes no children ignores brackets after it.
pub proof fn children_without_slot_are_ignored(n: NodeV)
    requires
        !takes_children(n.kind),
    ensures
        gen(n) == gen(
            NodeV {
                kind: n.kind,
                shorthand: n.shorthand,
                properties: n.properties,
                children: None,
            },
        ),
{
    let m = NodeV {
        kind: n.kind,
        shorthand: n.shorthand,
        properties: n.properties,
        children: None,
    };
    assert forall|k: Seq<char>| reads_key(n.kind, k) implies #[trigger] prop(n, k) == prop(m, k) by {
    }
    lemma_gen_reads_props(n, m);
}

/// A component may be named by any of its names: replacing a name by an alias
/// of the same kind reads the same component.
pub proof fn aliases_read_alike<S: RustSyntax>(
    syn: S,
    ts: Seq<Tok>,
    i: int,
    a: Seq<char>,
    b: Seq<char>,
)
    requires
        0 <= i < ts.len(),
        ts[i] == Tok::Ident(a),
        kind_named(a) is Some,
        kind_named(b) == kind_named(a),
    ensures
        read_node(syn, ts.update(i, Tok::Ident(b)), i) == read_node(syn, ts, i),
        i == 0 ==> read_component(syn, ts.update(i, Tok::Ident(b))) == read_component(syn, ts),
{
    let us = ts.update(i, Tok::Ident(b));
    if i + 1 < ts.len() {
        assert(us[i + 1] == ts[i + 1]);
    }
    if i + 2 < ts.len() {
        assert(us[i + 2] == ts[i + 2]);
    }
    if i + 3 < ts.len() {
        assert(us[i + 3] == ts[i + 3]);
    }
}

/// A list of one component is that component: when the tokens read as one
/// component, `components!` reads them as a list of it alone and expands to an
/// array of its one expression.
pub proof fn one_component_list<S: RustSyntax>(syn: S, ts: Seq<Tok>)
    requires
        read_component(syn, ts) is Ok,
    ensures
        read_components(syn, ts, 0) == Ok::<Seq<NodeV>, ParseErrorV>(
            seq![read_component(syn, ts)->Ok_0],
        ),
        components_expansion(seq![read_component(syn, ts)->Ok_0]) == seq![
            Tok::Group(Delimiter::Bracket, component_expansion(read_component(syn, ts)->Ok_0)),
        ],
{
    let n = read_component(syn, ts)->Ok_0;
    assert(seq![n].drop_last() =~= Seq::<NodeV>::empty());
    assert(gen_list(Seq::<NodeV>::empty()) == Seq::<crate::constructed::GenV>::empty());
    assert(gen_list(seq![n]) =~= seq![gen(n)]);
}

/// Reading a component does not look past its last token, so a token that is
/// no group, put after all the others, leaves what it reads unchanged.
proof fn lemma_node_ignores_appended<S: RustSyntax>(syn: S, ts: Seq<Tok>, t: Tok, i: int)
    requires
        0 <= i < ts.len(),
        !(t is Group),
    ensures
        read_node(syn, ts.push(t), i) == read_node(syn, ts, i),
{
    let us = ts.push(t);
    assert(us[i] == ts[i]);
    if i + 1 < ts.len() {
        assert(us[i + 1] == ts[i + 1]);
    }
    if i + 2 < ts.len() {
        assert(us[i + 2] == ts[i + 2]);
    }
    if i + 3 < ts.len() {
        assert(us[i + 3] == ts[i + 3]);
    }
    assert(us[ts.len() as int] == t);
}

proof fn lemma_components_ignore_trailing_comma<S: RustSyntax>(
    syn: S,
    ts: Seq<Tok>,
    joint: bool,
    i: int,
)
    requires
        0 <= i < ts.len(),
        !is_punct(bare(ts.last()), ','),
    ensures
        read_components(syn, ts.push(Tok::Punct(',', joint)), i) == read_components(syn, ts, i),
    decreases ts.len() - i,
{
    let us = ts.push(Tok::Punct(',', joint));
    lemma_node_ignores_appended(syn, ts, Tok::Punct(',', joint), i);
    if let Ok((n, next)) = read_node(syn, ts, i) {
        if i < next && next <= ts.len() {
            if next == ts.len() {
                assert(us[next] == Tok::Punct(',', joint));
                assert(read_components(syn, us, next + 1) == Ok::<Seq<NodeV>, ParseErrorV>(
                    Seq::empty(),
                ));
                assert(seq![n] + Seq::<NodeV>::empty() =~= seq![n]);
            } else {
                assert(us[next] == ts[next]);
                if is_punct(bare(ts[next]), ',') {
                    assert(next + 1 < ts.len());
                    lemma_components_ignore_trailing_comma(syn, ts, joint, next + 1);
                }
            }
        }
    }
}

/// A trailing comma after a list of components changes nothing.
pub proof fn trailing_comma_is_allowed<S: RustSyntax>(syn: S, ts: Seq<Tok>, joint: bool)
    requires
        ts.len() > 0,
        !is_punct(bare(ts.last()), ','),
    ensures
        read_components(syn, ts.push(Tok::Punct(',', joint)), 0) == read_components(syn, ts, 0),
{
    lemma_components_ignore_trailing_comma(syn, ts, joint, 0);
}

/// Every expression in a component, its own and those of its properties and
/// children, is one that the syntax reads as a Rust expression.
pub open spec fn node_exprs_ok<S: RustSyntax>(syn: S, n: NodeV) -> bool
    decreases n,
{
    &&& (n.shorthand matches Some(ts) ==> syn.accepts_expression(render(ts)))
    &&& match n.properties {
        Some(ps) => props_exprs_ok(syn, ps),
        None => true,
    }
    &&& match n.children {
        Some(cs) => nodes_exprs_ok(syn, cs),
        None => true,
    }
}

pub open spec fn props_exprs_ok<S: RustSyntax>(syn: S, ps: Seq<PropV>) -> bool
    decreases ps,
{
    ps.len() == 0 || (value_exprs_ok(syn, ps[0].value) && props_exprs_ok(syn, ps.drop_first()))
}

pub open spec fn value_exprs_ok<S: RustSyntax>(syn: S, v: ValueV) -> bool
    decreases v,
{
    match v {
        ValueV::Expr(ts) => syn.accepts_expression(render(ts)),
        ValueV::Component(n) => node_exprs_ok(syn, *n),
    }
}

pub open spec fn nodes_exprs_ok<S: RustSyntax>(syn: S, cs: Seq<NodeV>) -> bool
    decreases cs,
{
    cs.len() == 0 || (node_exprs_ok(syn, cs[0]) && nodes_exprs_ok(syn, cs.drop_first()))
}

/// Where an expression is found to end, the syntax reads the tokens up to
/// there as one expression.
proof fn lemma_expression_end_accepted<S: RustSyntax>(syn: S, ts: Seq<Tok>, i: int, e: int)
    ensures
        expression_end_from(syn, ts, i, e) matches Some(f) ==> 0 <= i < f <= ts.len()
            && syn.accepts_expression(render(ts.subrange(i, f))),
    decreases ts.len() + 1 - e,
{
    if !(e > ts.len() || e <= i || i < 0) {
        if !(ends_expression(ts, e) && syn.accepts_expression(render(ts.subrange(i, e)))) {
            lemma_expression_end_accepted(syn, ts, i, e + 1);
        }
    }
}

proof fn lemma_node_exprs<S: RustSyntax>(syn: S, ts: Seq<Tok>, i: int)
    ensures
        read_node(syn, ts, i) matches Ok((n, _)) ==> node_exprs_ok(syn, n),
    decreases ts, ts.len() - i, 0int,
{
    if 0 <= i < ts.len() && bare(ts[i]) matches Tok::Group(Delimiter::Invisible, _) {
        lemma_bare_group(ts[i]);
        lemma_node_exprs(syn, bare(ts[i])->Group_1, 0);
    } else if 0 <= i < ts.len() {
        let j = if i + 1 < ts.len() && is_group(bare(ts[i + 1]), Delimiter::Parenthesis) {
            i + 2
        } else {
            i + 1
        };
        if j < ts.len() {
            lemma_bare_group(ts[j]);
            if let Tok::Group(Delimiter::Brace, inner) = bare(ts[j]) {
                lemma_props_exprs(syn, inner, 0);
            }
        }
        let k = if j < ts.len() && is_group(bare(ts[j]), Delimiter::Brace) {
            j + 1
        } else {
            j
        };
        if k < ts.len() {
            lemma_bare_group(ts[k]);
            if let Tok::Group(Delimiter::Bracket, inner) = bare(ts[k]) {
                lemma_nodes_exprs(syn, inner, 0);
            }
        }
    }
}

proof fn lemma_value_exprs<S: RustSyntax>(syn: S, ts: Seq<Tok>, i: int)
    ensures
        read_value(syn, ts, i) matches Ok((v, _)) ==> value_exprs_ok(syn, v),
    decreases ts, ts.len() - i, 1int,
{
    if starts_component(syn, ts, i) {
        lemma_node_exprs(syn, ts, i);
    } else {
        lemma_expression_end_accepted(syn, ts, i, i + 1);
    }
}

proof fn lemma_props_exprs<S: RustSyntax>(syn: S, ts: Seq<Tok>, i: int)
    ensures
        read_properties(syn, ts, i) matches Ok(ps) ==> props_exprs_ok(syn, ps),
    decreases ts, ts.len() - i, 2int,
{
    if 0 <= i < ts.len() && i + 1 < ts.len() {
        lemma_value_exprs(syn, ts, i + 2);
        if let Tok::Ident(key) = bare(ts[i]) {
            if let Ok((value, next)) = read_value(syn, ts, i + 2) {
                let p = PropV { key, value };
                let empty = Seq::<PropV>::empty();
                assert(seq![p].drop_first() =~= empty);
                assert(props_exprs_ok(syn, empty));
                assert(seq![p][0] == p);
                if i + 2 < next && next < ts.len() {
                    lemma_props_exprs(syn, ts, next + 1);
                    if let Ok(rest) = read_properties(syn, ts, next + 1) {
                        assert((seq![p] + rest).drop_first() =~= rest);
                        assert((seq![p] + rest)[0] == p);
                    }
                }
            }
        }
    }
}

proof fn lemma_nodes_exprs<S: RustSyntax>(syn: S, ts: Seq<Tok>, i: int)
    ensures
        read_components(syn, ts, i) matches Ok(cs) ==> nodes_exprs_ok(syn, cs),
    decreases ts, ts.len() - i, 1int,
{
    if 0 <= i < ts.len() {
        lemma_node_exprs(syn, ts, i);
        if let Ok((n, next)) = read_node(syn, ts, i) {
            let empty = Seq::<NodeV>::empty();
            assert(seq![n].drop_first() =~= empty);
            assert(nodes_exprs_ok(syn, empty));
            assert(seq![n][0] == n);
            if i < next && next < ts.len() {
                lemma_nodes_exprs(syn, ts, next + 1);
                if let Ok(rest) = read_components(syn, ts, next + 1) {
                    assert((seq![n] + rest).drop_first() =~= rest);
                    assert((seq![n] + rest)[0] == n);
                }
            }
        }
    }
}

/// What the notation reads as an expression is a Rust expression: every
/// shorthand and every expression value of a component that `component!`
/// reads, nested components included, is one that the syntax reads as one
/// expression.
pub proof fn read_expressions_are_rust<S: RustSyntax>(syn: S, ts: Seq<Tok>)
    requires
        read_component(syn, ts) is Ok,
    ensures
        node_exprs_ok(syn, read_component(syn, ts)->Ok_0),
{
    lemma_node_exprs(syn, ts, 0);
}

/// The same holds of every component that `components!` reads.
pub proof fn listed_expressions_are_rust<S: RustSyntax>(syn: S, ts: Seq<Tok>)
    requires
        read_components(syn, ts, 0) is Ok,
    ensures
        nodes_exprs_ok(syn, read_components(syn, ts, 0)->Ok_0),
{
    lemma_nodes_exprs(syn, ts, 0);
}


/// Reading a component at a position looks only at the tokens from there on:
/// tokens put before all the others shift where it ends, nothing more.
proof fn lemma_node_after_prefix<S: RustSyntax>(syn: S, p: Seq<Tok>, b: Seq<Tok>, i: int)
    requires
        0 <= i,
    ensures
        read_node(syn, b, i) matches Ok((n, e)) ==> read_node(syn, p + b, p.len() + i) == Ok::<
            (NodeV, int),
            ParseErrorV,
        >((n, e + p.len())),
{
    let us = p + b;
    let o = p.len() as int;
    if i < b.len() {
        assert(us[o + i] == b[i]);
        if i + 1 < b.len() {
            assert(us[o + i + 1] == b[i + 1]);
        }
        if i + 2 < b.len() {
            assert(us[o + i + 2] == b[i + 2]);
        }
        if i + 3 < b.len() {
            assert(us[o + i + 3] == b[i + 3]);
        }
    }
}

/// Reading a list from a position looks only at the tokens from there on.
proof fn lemma_components_after_prefix<S: RustSyntax>(syn: S, p: Seq<Tok>, b: Seq<Tok>, i: int)
    requires
        0 <= i,
    ensures
        read_components(syn, b, i) is Ok ==> read_components(syn, p + b, p.len() + i)
            == read_components(syn, b, i),
    decreases b.len() - i,
{
    let us = p + b;
    let o = p.len() as int;
    if i < b.len() {
        lemma_node_after_prefix(syn, p, b, i);
        if let Ok((n, next)) = read_node(syn, b, i) {
            if i < next && next < b.len() {
                assert(us[o + next] == b[next]);
                lemma_components_after_prefix(syn, p, b, next + 1);
            }
        }
    }
}

/// A component that takes all of `a` reads alike when tokens that start with
/// no group follow it.
proof fn lemma_node_before_rest<S: RustSyntax>(syn: S, a: Seq<Tok>, rest: Seq<Tok>)
    requires
        read_component(syn, a) is Ok,
        rest.len() > 0,
        !(rest[0] is Group),
    ensures
        read_node(syn, a + rest, 0) == read_node(syn, a, 0),
{
    let us = a + rest;
    assert(us[0] == a[0]);
    if 1 < a.len() {
        assert(us[1] == a[1]);
    }
    if 2 < a.len() {
        assert(us[2] == a[2]);
    }
    if 3 < a.len() {
        assert(us[3] == a[3]);
    }
    assert(us[a.len() as int] == rest[0]);
}

/// A list of components that reads from a non-empty run of tokens is not empty.
proof fn lemma_list_not_empty<S: RustSyntax>(syn: S, ts: Seq<Tok>)
    requires
        ts.len() > 0,
        read_components(syn, ts, 0) is Ok,
    ensures
        read_components(syn, ts, 0)->Ok_0.len() > 0,
{
}

proof fn lemma_gen_list_prepend(n: NodeV, ns: Seq<NodeV>)
    ensures
        gen_list(seq![n] + ns) == seq![gen(n)] + gen_list(ns),
    decreases ns.len(),
{
    if ns.len() == 0 {
        assert(seq![n].drop_last() =~= Seq::<NodeV>::empty());
        assert(gen_list(Seq::<NodeV>::empty()) == Seq::<GenV>::empty());
        assert(seq![n] + ns =~= seq![n]);
        assert(gen_list(seq![n]) =~= seq![gen(n)]);
        assert(seq![gen(n)] + gen_list(ns) =~= seq![gen(n)]);
    } else {
        assert((seq![n] + ns).drop_last() =~= seq![n] + ns.drop_last());
        assert((seq![n] + ns).last() == ns.last());
        lemma_gen_list_prepend(n, ns.drop_last());
        assert(seq![gen(n)] + gen_list(ns) =~= (seq![gen(n)] + gen_list(ns.drop_last())).push(
            gen(ns.last()),
        ));
    }
}

proof fn lemma_emit_list_prepend(g: GenV, gs: Seq<GenV>)
    requires
        gs.len() > 0,
    ensures
        emit_list(seq![g] + gs) == emit_gen(g) + seq![Tok::Punct(',', false)] + emit_list(gs),
    decreases gs.len(),
{
    let all = seq![g] + gs;
    let comma = seq![Tok::Punct(',', false)];
    assert(all.drop_last() =~= seq![g] + gs.drop_last());
    assert(all.last() == gs.last());
    assert(emit_list(all) == emit_list(all.drop_last()) + comma + emit_gen(all.last()));
    if gs.len() == 1 {
        assert(seq![g] + gs.drop_last() =~= seq![g]);
        assert(emit_list(seq![g]) == emit_gen(g));
        assert(emit_list(gs) == emit_gen(gs[0]));
        assert(gs.last() == gs[0]);
    } else {
        lemma_emit_list_prepend(g, gs.drop_last());
        assert(emit_list(gs) == emit_list(gs.drop_last()) + comma + emit_gen(gs.last()));
        assert(emit_gen(g) + comma + emit_list(gs) =~= emit_gen(g) + comma + emit_list(
            gs.drop_last(),
        ) + comma + emit_gen(gs.last()));
    }
}

/// `components!` reads a list part by part: a component, a comma and a list
/// read as that component followed by the components of the list, and the
/// array they expand to holds the component's expression, a comma, and the
/// expressions of the list, in order.
pub proof fn list_reads_part_by_part<S: RustSyntax>(
    syn: S,
    a: Seq<Tok>,
    joint: bool,
    b: Seq<Tok>,
)
    requires
        read_component(syn, a) is Ok,
        b.len() > 0,
        read_components(syn, b, 0) is Ok,
    ensures
        read_components(syn, a + seq![Tok::Punct(',', joint)] + b, 0) == Ok::<
            Seq<NodeV>,
            ParseErrorV,
        >(seq![read_component(syn, a)->Ok_0] + read_components(syn, b, 0)->Ok_0),
        array_items(seq![read_component(syn, a)->Ok_0] + read_components(syn, b, 0)->Ok_0)
            == component_expansion(read_component(syn, a)->Ok_0) + seq![Tok::Punct(',', false)]
            + array_items(read_components(syn, b, 0)->Ok_0),
{
    let n = read_component(syn, a)->Ok_0;
    let ns = read_components(syn, b, 0)->Ok_0;
    let c = seq![Tok::Punct(',', joint)];
    let rest = c + b;
    let us = a + c + b;
    assert(us =~= a + rest);
    assert(a + c + b =~= (a + c) + b);
    lemma_node_before_rest(syn, a, rest);
    assert(us[a.len() as int] == Tok::Punct(',', joint));
    lemma_components_after_prefix(syn, a + c, b, 0);
    lemma_list_not_empty(syn, b);
    lemma_gen_list_prepend(n, ns);
    lemma_emit_list_prepend(gen(n), gen_list(ns));
}


/// The tokens of `parts`, with the token `c` between each two.
pub open spec fn joined(parts: Seq<Seq<Tok>>, c: Tok) -> Seq<Tok>
    decreases parts.len(),
{
    if parts.len() == 0 {
        Seq::empty()
    } else if parts.len() == 1 {
        parts[0]
    } else {
        parts[0] + seq![c] + joined(parts.drop_first(), c)
    }
}

/// The component that each part reads as.
pub open spec fn each_component<S: RustSyntax>(syn: S, parts: Seq<Seq<Tok>>) -> Seq<NodeV> {
    parts.map_values(|p: Seq<Tok>| read_component(syn, p)->Ok_0)
}

/// What `component!` expands each component to.
pub open spec fn each_expansion(ns: Seq<NodeV>) -> Seq<Seq<Tok>> {
    ns.map_values(|n: NodeV| component_expansion(n))
}

/// The last token of a component is its name or one of its groups, never a comma.
proof fn lemma_component_ends_without_comma<S: RustSyntax>(syn: S, a: Seq<Tok>)
    requires
        read_component(syn, a) is Ok,
    ensures
        a.len() > 0,
        !is_punct(bare(a.last()), ','),
{
}

proof fn lemma_joined_last(parts: Seq<Seq<Tok>>, c: Tok)
    requires
        parts.len() > 0,
        parts.last().len() > 0,
    ensures
        joined(parts, c).len() > 0,
        joined(parts, c).last() == parts.last().last(),
    decreases parts.len(),
{
    if parts.len() > 1 {
        let rest = parts.drop_first();
        assert(rest.last() == parts.last());
        lemma_joined_last(rest, c);
    }
}

/// `components!` is the array of what `component!` gives for each part, in
/// order: tokens made of parts that each read as one component, separated by
/// commas and with or without a comma after the last, read as those
/// components, and expand to an array of their expressions separated by
/// commas. No parts read as no components and expand to an empty array.
pub proof fn list_is_each_component<S: RustSyntax>(
    syn: S,
    parts: Seq<Seq<Tok>>,
    joint: bool,
)
    requires
        forall|j: int| 0 <= j < parts.len() ==> (#[trigger] read_component(syn, parts[j])) is Ok,
    ensures
        read_components(syn, joined(parts, Tok::Punct(',', joint)), 0) == Ok::<
            Seq<NodeV>,
            ParseErrorV,
        >(each_component(syn, parts)),
        parts.len() > 0 ==> read_components(
            syn,
            joined(parts, Tok::Punct(',', joint)).push(Tok::Punct(',', joint)),
            0,
        ) == Ok::<Seq<NodeV>, ParseErrorV>(each_component(syn, parts)),
        array_items(each_component(syn, parts)) == joined(
            each_expansion(each_component(syn, parts)),
            Tok::Punct(',', false),
        ),
        components_expansion(each_component(syn, parts)) == seq![
            Tok::Group(
                Delimiter::Bracket,
                joined(each_expansion(each_component(syn, parts)), Tok::Punct(',', false)),
            ),
        ],
    decreases parts.len(),
{
    let c = Tok::Punct(',', joint);
    let ns = each_component(syn, parts);
    if parts.len() == 0 {
        assert(ns =~= Seq::<NodeV>::empty());
        assert(each_expansion(ns) =~= Seq::<Seq<Tok>>::empty());
        assert(gen_list(ns) == Seq::<GenV>::empty());
    } else {
        let a = parts[0];
        assert(read_component(syn, parts[0]) is Ok);
        let n = read_component(syn, a)->Ok_0;
        if parts.len() == 1 {
            assert(ns =~= seq![n]);
            assert(each_expansion(ns) =~= seq![component_expansion(n)]);
            one_component_list(syn, a);
            assert(seq![n].drop_last() =~= Seq::<NodeV>::empty());
            assert(gen_list(Seq::<NodeV>::empty()) == Seq::<GenV>::empty());
            assert(gen_list(seq![n]) =~= seq![gen(n)]);
        } else {
            let rest = parts.drop_first();
            assert forall|j: int| 0 <= j < rest.len() implies (#[trigger] read_component(
                syn,
                rest[j],
            )) is Ok by {
                assert(rest[j] == parts[j + 1]);
                assert(read_component(syn, parts[j + 1]) is Ok);
            }
            list_is_each_component(syn, rest, joint);
            let ms = each_component(syn, rest);
            assert(ns =~= seq![n] + ms);
            assert(read_component(syn, rest[0]) is Ok);
            lemma_component_ends_without_comma(syn, rest[0]);
            assert(rest.len() == 1 ==> joined(rest, c) == rest[0]);
            if rest.len() > 1 {
                assert(joined(rest, c) == rest[0] + seq![c] + joined(rest.drop_first(), c));
            }
            assert(joined(rest, c).len() > 0);
            list_reads_part_by_part(syn, a, joint, joined(rest, c));
            assert(joined(parts, c) == a + seq![c] + joined(rest, c));
            assert(each_expansion(ns).drop_first() =~= each_expansion(ms));
            assert(each_expansion(ns)[0] == component_expansion(n));
        }
        let last = parts.last();
        assert(read_component(syn, parts[parts.len() - 1]) is Ok);
        lemma_component_ends_without_comma(syn, last);
        lemma_joined_last(parts, c);
        trailing_comma_is_allowed(syn, joined(parts, c), joint);
    }
}


/// The source text of tokens starts with that of their first token.
proof fn lemma_render_starts(s: Seq<Tok>)
    requires
        s.len() > 0,
        render_tok(s[0]).len() > 0,
    ensures
        render(s).len() > 0,
        render(s)[0] == render_tok(s[0])[0],
    decreases s.len(),
{
    if s.len() > 1 {
        lemma_render_starts(s.drop_last());
        assert(s.drop_last()[0] == s[0]);
    }
}

/// The words that a style, a menu type or a spacing may be written as.
pub open spec fn is_style_word(s: Seq<char>) -> bool {
    ||| s == "Primary"@
    ||| s == "Secondary"@
    ||| s == "Success"@
    ||| s == "Danger"@
    ||| s == "Link"@
    ||| s == "Premium"@
    ||| s == "Text"@
    ||| s == "String"@
    ||| s == "User"@
    ||| s == "Role"@
    ||| s == "Mentionable"@
    ||| s == "Channel"@
    ||| s == "Short"@
    ||| s == "Paragraph"@
    ||| s == "Small"@
    ||| s == "Large"@
}

/// Tokens that start with `::` are no such word.
proof fn lemma_path_is_no_word(t: Seq<Tok>)
    requires
        t.len() > 0,
        t[0] == Tok::Punct(':', true),
    ensures
        !is_style_word(render(t)),
{
    lemma_render_starts(t);
    reveal_strlit("Primary");
    reveal_strlit("Secondary");
    reveal_strlit("Success");
    reveal_strlit("Danger");
    reveal_strlit("Link");
    reveal_strlit("Premium");
    reveal_strlit("Text");
    reveal_strlit("String");
    reveal_strlit("User");
    reveal_strlit("Role");
    reveal_strlit("Mentionable");
    reveal_strlit("Channel");
    reveal_strlit("Short");
    reveal_strlit("Paragraph");
    reveal_strlit("Small");
    reveal_strlit("Large");
}

/// A resolved word is a path; anything else is kept, and a nested component
/// is a path too.
proof fn lemma_resolved_is_path_or_kept(v: InitV, o: OperandV)
    requires
        v is Preset || v == InitV::Raw(o),
        o is Expr || o is Component,
    ensures
        v is Preset || o is Component ==> !is_style_word(render(emit_init(v))),
{
    if let InitV::Preset(p) = v {
        let t = emit_init(v);
        assert(t == model_type(preset_path(p).0)
            + path_segment(preset_path(p).1));
        assert(t[0] == Tok::Punct(':', true));
        lemma_path_is_no_word(t);
    } else if let OperandV::Component(g) = o {
        assert(v == InitV::Raw(o));
        assert(emit_init(v) == emit_operand(o));
        assert(emit_operand(o) == emit_gen(*g));
        assert(emit_gen(*g)[0] == Tok::Punct(':', true));
        lemma_path_is_no_word(emit_gen(*g));
    }
}

/// What a style word resolves to is resolved already: the tokens that a
/// button style, select menu type, text input style or separator spacing
/// expands to, read back as the same property, expand to the same tokens.
pub proof fn resolved_words_stay_resolved(o: OperandV)
    requires
        o is Expr || o is Component,
    ensures
        emit_init(button_style(OperandV::Expr(emit_init(button_style(o))))) == emit_init(
            button_style(o),
        ),
        emit_init(select_menu_type(OperandV::Expr(emit_init(select_menu_type(o))))) == emit_init(
            select_menu_type(o),
        ),
        emit_init(text_input_style(OperandV::Expr(emit_init(text_input_style(o))))) == emit_init(
            text_input_style(o),
        ),
        emit_init(separator_spacing(OperandV::Expr(emit_init(separator_spacing(o)))))
            == emit_init(separator_spacing(o)),
{
    lemma_resolved_is_path_or_kept(button_style(o), o);
    let b = emit_init(button_style(o));
    if button_style(o) is Preset || o is Component {
        assert(!is_style_word(render(b)));
        assert(button_style(OperandV::Expr(b)) == InitV::Raw(OperandV::Expr(b)));
        assert(emit_operand(OperandV::Expr(b)) == b);
        assert(emit_init(InitV::Raw(OperandV::Expr(b))) == b);
    } else {
        assert(button_style(o) == InitV::Raw(o));
        assert(b == emit_operand(o));
        assert(b == o->Expr_0);
        assert(OperandV::Expr(b) == o);
        assert(button_style(OperandV::Expr(b)) == button_style(o));
    }
    lemma_resolved_is_path_or_kept(select_menu_type(o), o);
    let m = emit_init(select_menu_type(o));
    if select_menu_type(o) is Preset || o is Component {
        assert(!is_style_word(render(m)));
        assert(select_menu_type(OperandV::Expr(m)) == InitV::Raw(OperandV::Expr(m)));
        assert(emit_operand(OperandV::Expr(m)) == m);
        assert(emit_init(InitV::Raw(OperandV::Expr(m))) == m);
    } else {
        assert(select_menu_type(o) == InitV::Raw(o));
        assert(m == emit_operand(o));
        assert(m == o->Expr_0);
        assert(OperandV::Expr(m) == o);
        assert(select_menu_type(OperandV::Expr(m)) == select_menu_type(o));
    }
    lemma_resolved_is_path_or_kept(text_input_style(o), o);
    let t = emit_init(text_input_style(o));
    if text_input_style(o) is Preset || o is Component {
        assert(!is_style_word(render(t)));
        assert(text_input_style(OperandV::Expr(t)) == InitV::Raw(OperandV::Expr(t)));
        assert(emit_operand(OperandV::Expr(t)) == t);
        assert(emit_init(InitV::Raw(OperandV::Expr(t))) == t);
    } else {
        assert(text_input_style(o) == InitV::Raw(o));
        assert(t == emit_operand(o));
        assert(t == o->Expr_0);
        assert(OperandV::Expr(t) == o);
        assert(text_input_style(OperandV::Expr(t)) == text_input_style(o));
    }
    lemma_resolved_is_path_or_kept(separator_spacing(o), o);
    let sp = emit_init(separator_spacing(o));
    if separator_spacing(o) is Preset || o is Component {
        assert(!is_style_word(render(sp)));
        assert(separator_spacing(OperandV::Expr(sp)) == InitV::Raw(OperandV::Expr(sp)));
        assert(emit_operand(OperandV::Expr(sp)) == sp);
        assert(emit_init(InitV::Raw(OperandV::Expr(sp))) == sp);
    } else {
        assert(separator_spacing(o) == InitV::Raw(o));
        assert(sp == emit_operand(o));
        assert(sp == o->Expr_0);
        assert(OperandV::Expr(sp) == o);
        assert(separator_spacing(OperandV::Expr(sp)) == separator_spacing(o));
    }
}

} // verus!
