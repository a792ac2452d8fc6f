//! What a piece of the notation says: a component, its shorthand, its
//! properties and its children.
use vstd::prelude::*;

use crate::tokens::{same_text, view_trees, Tok, TokenTree};

verus! {

/// The kinds of component the notation names.
#[derive(Clone, Copy, Debug, PartialEq, Eq, Structural)]
pub enum ComponentKind {
    Text,
    Container,
    Section,
    Separator,
    MediaGallery,
    Thumbnail,
    File,
    FileUpload,
    Label,
    ActionRow,
    Button,
    SelectMenu,
    TextInput,
    MediaItem,
    SelectOption,
}

/// The kind that a name stands for, aliases included.
pub open spec fn kind_named(name: Seq<char>) -> Option<ComponentKind> {
    if name == "Text"@ || name == "TextDisplay"@ {
        Some(ComponentKind::Text)
    } else if name == "Container"@ {
        Some(ComponentKind::Container)
    } else if name == "Section"@ {
        Some(ComponentKind::Section)
    } else if name == "Separator"@ || name == "Sep"@ {
        Some(ComponentKind::Separator)
    } else if name == "MediaGallery"@ || name == "Gallery"@ {
        Some(ComponentKind::MediaGallery)
    } else if name == "Thumbnail"@ || name == "Thumb"@ {
        Some(ComponentKind::Thumbnail)
    } else if name == "File"@ || name == "FileDisplay"@ {
        Some(ComponentKind::File)
    } else if name == "FileUpload"@ || name == "Upload"@ {
        Some(ComponentKind::FileUpload)
    } else if name == "Label"@ {
        Some(ComponentKind::Label)
    } else if name == "ActionRow"@ || name == "Row"@ {
        Some(ComponentKind::ActionRow)
    } else if name == "Button"@ || name == "Btn"@ {
        Some(ComponentKind::Button)
    } else if name == "SelectMenu"@ || name == "Select"@ {
        Some(ComponentKind::SelectMenu)
    } else if name == "TextInput"@ || name == "Input"@ {
        Some(ComponentKind::TextInput)
    } else if name == "MediaItem"@ || name == "Item"@ {
        Some(ComponentKind::MediaItem)
    } else if name == "SelectOption"@ || name == "Option"@ {
        Some(ComponentKind::SelectOption)
    } else {
        None
    }
}

impl ComponentKind {
    /// The kind that a name stands for, if any.
    pub fn from_name(name: &str) -> (r: Option<ComponentKind>)
        ensures
            r == kind_named(name@),
    {
        if same_text(name, "Text") || same_text(name, "TextDisplay") {
            Some(ComponentKind::Text)
        } else if same_text(name, "Container") {
            Some(ComponentKind::Container)
        } else if same_text(name, "Section") {
            Some(ComponentKind::Section)
        } else if same_text(name, "Separator") || same_text(name, "Sep") {
            Some(ComponentKind::Separator)
        } else if same_text(name, "MediaGallery") || same_text(name, "Gallery") {
            Some(ComponentKind::MediaGallery)
        } else if same_text(name, "Thumbnail") || same_text(name, "Thumb") {
            Some(ComponentKind::Thumbnail)
        } else if same_text(name, "File") || same_text(name, "FileDisplay") {
            Some(ComponentKind::File)
        } else if same_text(name, "FileUpload") || same_text(name, "Upload") {
            Some(ComponentKind::FileUpload)
        } else if same_text(name, "Label") {
            Some(ComponentKind::Label)
        } else if same_text(name, "ActionRow") || same_text(name, "Row") {
            Some(ComponentKind::ActionRow)
        } else if same_text(name, "Button") || same_text(name, "Btn") {
            Some(ComponentKind::Button)
        } else if same_text(name, "SelectMenu") || same_text(name, "Select") {
            Some(ComponentKind::SelectMenu)
        } else if same_text(name, "TextInput") || same_text(name, "Input") {
            Some(ComponentKind::TextInput)
        } else if same_text(name, "MediaItem") || same_text(name, "Item") {
            Some(ComponentKind::MediaItem)
        } else if same_text(name, "SelectOption") || same_text(name, "Option") {
            Some(ComponentKind::SelectOption)
        } else {
            None
        }
    }
}

/// One component of the notation: `Kind(shorthand) { properties } [ children ]`,
/// each of the three parts optional.
#[derive(Debug)]
pub struct ComponentNode {
    pub kind: ComponentKind,
    /// The tokens of the expression in parentheses.
    pub shorthand: Option<Vec<TokenTree>>,
    pub properties: Option<Vec<Property>>,
    pub children: Option<Vec<ComponentNode>>,
}

/// One property: `key: value`.
#[derive(Debug)]
pub struct Property {
    pub key: String,
    pub value: PropertyValue,
}

/// The value of a property: a nested component, or a Rust expression.
#[derive(Debug)]
pub enum PropertyValue {
    Expr(Vec<TokenTree>),
    Component(Box<ComponentNode>),
}

/// The mathematical value of a component.
pub struct NodeV {
    pub kind: ComponentKind,
    pub shorthand: Option<Seq<Tok>>,
    pub properties: Option<Seq<PropV>>,
    pub children: Option<Seq<NodeV>>,
}

/// The mathematical value of a property.
pub struct PropV {
    pub key: Seq<char>,
    pub value: ValueV,
}

/// The mathematical value of a property's value.
pub enum ValueV {
    Expr(Seq<Tok>),
    Component(Box<NodeV>),
}

pub open spec fn view_node(n: ComponentNode) -> NodeV
    decreases n,
{
    NodeV {
        kind: n.kind,
        shorthand: match n.shorthand {
            Some(v) => Some(view_trees(v@)),
            None => None,
        },
        properties: match n.properties {
            Some(v) => Some(view_props(v@)),
            None => None,
        },
        children: match n.children {
            Some(v) => Some(view_nodes(v@)),
            None => None,
        },
    }
}

pub open spec fn view_props(s: Seq<Property>) -> Seq<PropV>
    decreases s,
{
    if s.len() == 0 {
        Seq::empty()
    } else {
        view_props(s.drop_last()).push(view_prop(s.last()))
    }
}

pub open spec fn view_prop(p: Property) -> PropV
    decreases p,
{
    PropV { key: p.key@, value: view_value(p.value) }
}

pub open spec fn view_value(v: PropertyValue) -> ValueV
    decreases v,
{
    match v {
        PropertyValue::Expr(t) => ValueV::Expr(view_trees(t@)),
        PropertyValue::Component(n) => ValueV::Component(Box::new(view_node(*n))),
    }
}

pub open spec fn view_nodes(s: Seq<ComponentNode>) -> Seq<NodeV>
    decreases s,
{
    if s.len() == 0 {
        Seq::empty()
    } else {
        view_nodes(s.drop_last()).push(view_node(s.last()))
    }
}

impl View for ComponentNode {
    type V = NodeV;

    open spec fn view(&self) -> NodeV {
        view_node(*self)
    }
}

impl View for Property {
    type V = PropV;

    open spec fn view(&self) -> PropV {
        view_prop(*self)
    }
}

impl View for PropertyValue {
    type V = ValueV;

    open spec fn view(&self) -> ValueV {
        view_value(*self)
    }
}

/// Viewing a sequence of properties views each in place.
pub broadcast proof fn lemma_view_props(s: Seq<Property>)
    ensures
        #[trigger] view_props(s).len() == s.len(),
        forall|i: int| 0 <= i < s.len() ==> #[trigger] view_props(s)[i] == view_prop(s[i]),
    decreases s.len(),
{
    if s.len() > 0 {
        lemma_view_props(s.drop_last());
    }
}

/// Viewing a sequence of components views each in place.
pub broadcast proof fn lemma_view_nodes(s: Seq<ComponentNode>)
    ensures
        #[trigger] view_nodes(s).len() == s.len(),
        forall|i: int| 0 <= i < s.len() ==> #[trigger] view_nodes(s)[i] == view_node(s[i]),
    decreases s.len(),
{
    if s.len() > 0 {
        lemma_view_nodes(s.drop_last());
    }
}

} // verus!
