use proc_macro2::{Delimiter as PDelimiter, Spacing, TokenStream, TokenTree as PTree};
use twilight_components::ast::ComponentKind;
use twilight_components::constructed::{Field, Generated, Init, Operand, Preset};
use twilight_components::emit::write_init;
use twilight_components::expand::{expand_component, expand_components};
use twilight_components::syntax::Syn;
use twilight_components::tokens::{render_trees, Delimiter, TokenTree};

fn convert(ts: TokenStream) -> Vec<TokenTree> {
    ts.into_iter()
        .map(|t| match t {
            PTree::Group(g) => {
                let d = match g.delimiter() {
                    PDelimiter::Parenthesis => Delimiter::Parenthesis,
                    PDelimiter::Brace => Delimiter::Brace,
                    PDelimiter::Bracket => Delimiter::Bracket,
                    PDelimiter::None => Delimiter::Invisible,
                };
                TokenTree::Group(d, convert(g.stream()))
            }
            PTree::Ident(i) => TokenTree::Ident(i.to_string()),
            PTree::Punct(p) => TokenTree::Punct(p.as_char(), p.spacing() == Spacing::Joint),
            PTree::Literal(l) => TokenTree::Literal(l.to_string()),
        })
        .collect()
}

fn lex(src: &str) -> Vec<TokenTree> {
    convert(src.parse::<TokenStream>().unwrap())
}

/// What `component!(src)` builds.
fn component(src: &str) -> Generated {
    expand_component(&Syn, &lex(src)).unwrap()
}

/// What `components!(src)` builds.
fn components(src: &str) -> Vec<Generated> {
    expand_components(&Syn, &lex(src)).unwrap()
}

fn init(g: &Generated, f: Field) -> &Init {
    &g.entries.iter().find(|e| e.field == f).expect("field is set").init
}

/// The source text that initialises a field.
fn code(g: &Generated, f: Field) -> String {
    let t = write_init(init(g, f));
    render_trees(&t, 0, t.len())
}

/// The components that a list field holds.
fn items(g: &Generated, f: Field) -> &Vec<Generated> {
    match init(g, f) {
        Init::List(v) => v,
        Init::Present(b) => match &**b {
            Init::List(v) => v,
            other => panic!("not a list: {:?}", other),
        },
        other => panic!("not a list: {:?}", other),
    }
}

/// The URL of a media field.
fn media_url(g: &Generated, f: Field) -> String {
    match init(g, f) {
        Init::Media(Operand::Expr(ts)) => render_trees(ts, 0, ts.len()),
        other => panic!("not media: {:?}", other),
    }
}

fn into(expr: &str) -> String {
    format!("({}) . into ()", expr)
}

fn some(expr: &str) -> String {
    format!("Some ({})", expr)
}

// =============================================================================
// TextDisplay Tests
// =============================================================================

#[test]
fn test_text_display_shorthand() {
    let text = component("Text(\"Hello, World!\")");
    assert_eq!(text.kind, ComponentKind::Text, "Expected TextDisplay component");
    assert_eq!(code(&text, Field::Content), into("\"Hello, World!\""));
    assert_eq!(code(&text, Field::Id), "None");
}

#[test]
fn test_text_display_with_content_property() {
    let text = component("Text { content: \"Hello\" }");
    assert_eq!(text.kind, ComponentKind::Text, "Expected TextDisplay component");
    assert_eq!(code(&text, Field::Content), into("\"Hello\""));
    assert_eq!(code(&text, Field::Id), "None");
}

#[test]
fn test_text_display_with_id() {
    let text = component(
        "Text {
        content: \"Hello\",
        id: Some(42)
    }",
    );
    assert_eq!(text.kind, ComponentKind::Text, "Expected TextDisplay component");
    assert_eq!(code(&text, Field::Content), into("\"Hello\""));
    assert_eq!(code(&text, Field::Id), some("42"));
}

#[test]
fn test_text_display_alias() {
    let text = component("TextDisplay(\"Using full name\")");
    assert_eq!(text.kind, ComponentKind::Text, "Expected TextDisplay component");
    assert_eq!(code(&text, Field::Content), into("\"Using full name\""));
}

#[test]
fn test_text_display_with_expression() {
    let text = component("Text(format!(\"Hello, {}!\", name))");
    assert_eq!(text.kind, ComponentKind::Text, "Expected TextDisplay component");
    assert_eq!(code(&text, Field::Content), into("format ! (\"Hello, {}!\" , name)"));
}

#[test]
fn test_text_display_empty() {
    // Test default when no content provided
    let text = component("Text {}");
    assert_eq!(text.kind, ComponentKind::Text, "Expected TextDisplay component");
    assert_eq!(code(&text, Field::Content), into("String :: new ()"));
}

// =============================================================================
// Container Tests
// =============================================================================

#[test]
fn test_container_empty() {
    let container = component("Container []");
    assert_eq!(container.kind, ComponentKind::Container, "Expected Container component");
    assert!(items(&container, Field::Components).is_empty());
    assert_eq!(code(&container, Field::Id), "None");
    assert_eq!(code(&container, Field::AccentColor), "None");
    assert_eq!(code(&container, Field::Spoiler), "None");
}

#[test]
fn test_container_with_color() {
    // User provides raw value, macro wraps in Some(Some(...))
    let container = component("Container { color: 0xFF0000 } []");
    assert_eq!(container.kind, ComponentKind::Container, "Expected Container component");
    assert_eq!(code(&container, Field::AccentColor), some(&some("0xFF0000")));
}

#[test]
fn test_container_with_accent_color_alias() {
    let container = component("Container { accent_color: 0x00FF00 } []");
    assert_eq!(container.kind, ComponentKind::Container, "Expected Container component");
    assert_eq!(code(&container, Field::AccentColor), some(&some("0x00FF00")));
}

#[test]
fn test_container_with_children() {
    let container = component(
        "Container [
        Text(\"First\"),
        Text(\"Second\"),
        Text(\"Third\"),
    ]",
    );
    assert_eq!(container.kind, ComponentKind::Container, "Expected Container component");
    assert_eq!(items(&container, Field::Components).len(), 3);
}

#[test]
fn test_container_with_spoiler() {
    let container = component("Container { spoiler: true } []");
    assert_eq!(container.kind, ComponentKind::Container, "Expected Container component");
    assert_eq!(code(&container, Field::Spoiler), some("true"));
}

#[test]
fn test_container_with_spoiler_false() {
    let container = component("Container { spoiler: false } []");
    assert_eq!(container.kind, ComponentKind::Container, "Expected Container component");
    assert_eq!(code(&container, Field::Spoiler), some("false"));
}

#[test]
fn test_container_all_properties() {
    let container = component(
        "Container { id: Some(1), color: 0x123456, spoiler: true } [
        Text(\"Content\"),
    ]",
    );
    assert_eq!(container.kind, ComponentKind::Container, "Expected Container component");
    assert_eq!(code(&container, Field::Id), some("1"));
    assert_eq!(code(&container, Field::AccentColor), some(&some("0x123456")));
    assert_eq!(code(&container, Field::Spoiler), some("true"));
    assert_eq!(items(&container, Field::Components).len(), 1);
}

#[test]
fn test_container_no_properties_with_children() {
    let container = component(
        "Container [
        Text(\"Child\"),
    ]",
    );
    assert_eq!(container.kind, ComponentKind::Container, "Expected Container component");
    assert_eq!(code(&container, Field::Id), "None");
    assert_eq!(code(&container, Field::AccentColor), "None");
    assert_eq!(code(&container, Field::Spoiler), "None");
    assert_eq!(items(&container, Field::Components).len(), 1);
}

// =============================================================================
// Separator Tests
// =============================================================================

#[test]
fn test_separator_default() {
    let sep = component("Separator");
    assert_eq!(sep.kind, ComponentKind::Separator, "Expected Separator component");
    // Default: divider = Some(true), spacing = None
    assert_eq!(code(&sep, Field::Divider), some("true"));
    assert_eq!(code(&sep, Field::Spacing), "None");
    assert_eq!(code(&sep, Field::Id), "None");
}

#[test]
fn test_separator_alias() {
    let sep = component("Sep");
    assert_eq!(sep.kind, ComponentKind::Separator, "Expected Separator component");
    assert_eq!(code(&sep, Field::Divider), some("true"));
}

#[test]
fn test_separator_no_divider() {
    let sep = component("Separator { divider: false }");
    assert_eq!(sep.kind, ComponentKind::Separator, "Expected Separator component");
    assert_eq!(code(&sep, Field::Divider), some("false"));
}

#[test]
fn test_separator_with_spacing_large() {
    let sep = component(
        "Separator {
        spacing: SeparatorSpacingSize::Large
    }",
    );
    assert_eq!(sep.kind, ComponentKind::Separator, "Expected Separator component");
    assert_eq!(code(&sep, Field::Spacing), some("SeparatorSpacingSize :: Large"));
}

#[test]
fn test_separator_with_spacing_small() {
    let sep = component(
        "Separator {
        spacing: SeparatorSpacingSize::Small
    }",
    );
    assert_eq!(sep.kind, ComponentKind::Separator, "Expected Separator component");
    assert_eq!(code(&sep, Field::Spacing), some("SeparatorSpacingSize :: Small"));
}

#[test]
fn test_separator_all_properties() {
    let sep = component(
        "Separator {
        id: Some(5),
        divider: false,
        spacing: SeparatorSpacingSize::Large
    }",
    );
    assert_eq!(sep.kind, ComponentKind::Separator, "Expected Separator component");
    assert_eq!(code(&sep, Field::Id), some("5"));
    assert_eq!(code(&sep, Field::Divider), some("false"));
    assert_eq!(code(&sep, Field::Spacing), some("SeparatorSpacingSize :: Large"));
}

// =============================================================================
// ActionRow Tests
// =============================================================================

#[test]
fn test_action_row_empty() {
    let row = component("ActionRow []");
    assert_eq!(row.kind, ComponentKind::ActionRow, "Expected ActionRow component");
    assert!(items(&row, Field::Components).is_empty());
    assert_eq!(code(&row, Field::Id), "None");
}

#[test]
fn test_action_row_alias() {
    let row = component("Row []");
    assert_eq!(row.kind, ComponentKind::ActionRow, "Expected ActionRow component");
    assert!(items(&row, Field::Components).is_empty());
}

#[test]
fn test_action_row_with_id() {
    let row = component("ActionRow { id: Some(10) } []");
    assert_eq!(row.kind, ComponentKind::ActionRow, "Expected ActionRow component");
    assert_eq!(code(&row, Field::Id), some("10"));
}

#[test]
fn test_action_row_with_buttons() {
    let row = component(
        "Row [
        Button { style: Primary, label: \"One\", custom_id: \"btn1\" },
        Button { style: Secondary, label: \"Two\", custom_id: \"btn2\" },
    ]",
    );
    assert_eq!(row.kind, ComponentKind::ActionRow, "Expected ActionRow component");
    assert_eq!(items(&row, Field::Components).len(), 2);
}

// =============================================================================
// Button Tests
// =============================================================================

fn style(g: &Generated) -> Preset {
    match init(g, Field::Style) {
        Init::Preset(p) => *p,
        other => panic!("not a preset style: {:?}", other),
    }
}

#[test]
fn test_button_minimal() {
    // Minimal button with just custom_id
    let btn = component("Button { custom_id: \"btn\" }");
    assert_eq!(btn.kind, ComponentKind::Button, "Expected Button component");
    assert_eq!(style(&btn), Preset::ButtonPrimary); // default
    assert_eq!(code(&btn, Field::CustomId), some(&into("\"btn\"")));
    assert_eq!(code(&btn, Field::Label), "None");
    assert_eq!(code(&btn, Field::Disabled), "false");
}

#[test]
fn test_button_with_label() {
    let btn = component(
        "Button {
        style: Primary,
        label: \"Click Me\",
        custom_id: \"btn\"
    }",
    );
    assert_eq!(btn.kind, ComponentKind::Button, "Expected Button component");
    assert_eq!(style(&btn), Preset::ButtonPrimary);
    assert_eq!(code(&btn, Field::Label), some(&into("\"Click Me\"")));
    assert_eq!(code(&btn, Field::CustomId), some(&into("\"btn\"")));
    assert_eq!(code(&btn, Field::Disabled), "false");
}

#[test]
fn test_button_all_styles() {
    let primary = component("Button { style: Primary, custom_id: \"p\" }");
    let secondary = component("Button { style: Secondary, custom_id: \"s\" }");
    let success = component("Button { style: Success, custom_id: \"su\" }");
    let danger = component("Button { style: Danger, custom_id: \"d\" }");
    let link = component("Button { style: Link, url: \"https://example.com\" }");

    assert_eq!(style(&primary), Preset::ButtonPrimary);
    assert_eq!(style(&secondary), Preset::ButtonSecondary);
    assert_eq!(style(&success), Preset::ButtonSuccess);
    assert_eq!(style(&danger), Preset::ButtonDanger);
    assert_eq!(link.kind, ComponentKind::Button, "Expected Button");
    assert_eq!(style(&link), Preset::ButtonLink);
    assert_eq!(code(&link, Field::Url), some(&into("\"https://example.com\"")));
}

#[test]
fn test_button_alias() {
    let btn = component("Btn { style: Primary, custom_id: \"b\" }");
    assert_eq!(btn.kind, ComponentKind::Button, "Expected Button component");
}

#[test]
fn test_button_shorthand_label() {
    let btn = component("Button(\"Click Me\") { style: Primary, custom_id: \"btn\" }");
    assert_eq!(btn.kind, ComponentKind::Button, "Expected Button component");
    assert_eq!(code(&btn, Field::Label), some(&into("\"Click Me\"")));
}

#[test]
fn test_button_disabled() {
    let btn = component(
        "Button {
        style: Primary,
        custom_id: \"btn\",
        disabled: true
    }",
    );
    assert_eq!(btn.kind, ComponentKind::Button, "Expected Button component");
    assert_eq!(code(&btn, Field::Disabled), "true");
}

#[test]
fn test_button_not_disabled_default() {
    let btn = component(
        "Button {
        style: Primary,
        custom_id: \"btn\"
    }",
    );
    assert_eq!(btn.kind, ComponentKind::Button, "Expected Button component");
    assert_eq!(code(&btn, Field::Disabled), "false");
}

#[test]
fn test_button_with_url_no_custom_id() {
    let btn = component(
        "Button {
        style: Link,
        url: \"https://example.com\",
        label: \"Visit\"
    }",
    );
    assert_eq!(btn.kind, ComponentKind::Button, "Expected Button component");
    assert_eq!(style(&btn), Preset::ButtonLink);
    assert_eq!(code(&btn, Field::Url), some(&into("\"https://example.com\"")));
    assert_eq!(code(&btn, Field::CustomId), "None");
}

// =============================================================================
// SelectMenu Tests
// =============================================================================

fn menu_type(g: &Generated) -> Preset {
    match init(g, Field::Kind) {
        Init::Preset(p) => *p,
        other => panic!("not a preset type: {:?}", other),
    }
}

#[test]
fn test_select_menu_minimal() {
    let select = component("SelectMenu { custom_id: \"menu\" } []");
    assert_eq!(select.kind, ComponentKind::SelectMenu, "Expected SelectMenu component");
    assert_eq!(code(&select, Field::CustomId), into("\"menu\""));
    assert_eq!(menu_type(&select), Preset::SelectText); // default
    assert_eq!(code(&select, Field::Placeholder), "None");
    assert_eq!(code(&select, Field::MinValues), "None");
    assert_eq!(code(&select, Field::MaxValues), "None");
    assert_eq!(code(&select, Field::Disabled), "false");
}

#[test]
fn test_select_menu_alias() {
    let select = component("Select { custom_id: \"sel\" } []");
    assert_eq!(select.kind, ComponentKind::SelectMenu, "Expected SelectMenu component");
}

#[test]
fn test_select_menu_with_options() {
    let select = component(
        "Select { custom_id: \"color\" } [
        Option { label: \"Red\", value: \"red\" },
        Option { label: \"Blue\", value: \"blue\" },
    ]",
    );
    assert_eq!(select.kind, ComponentKind::SelectMenu, "Expected SelectMenu component");
    let options = items(&select, Field::Options);
    assert_eq!(options.len(), 2);
    assert_eq!(code(&options[0], Field::Label), into("\"Red\""));
    assert_eq!(code(&options[0], Field::Value), into("\"red\""));
}

#[test]
fn test_select_menu_types() {
    let text = component("Select { custom_id: \"t\", kind: Text } []");
    let user = component("Select { custom_id: \"u\", kind: User } []");
    let role = component("Select { custom_id: \"r\", kind: Role } []");
    let channel = component("Select { custom_id: \"c\", kind: Channel } []");
    let mentionable = component("Select { custom_id: \"m\", kind: Mentionable } []");

    assert_eq!(menu_type(&text), Preset::SelectText);
    assert_eq!(menu_type(&user), Preset::SelectUser);
    assert_eq!(menu_type(&role), Preset::SelectRole);
    assert_eq!(menu_type(&channel), Preset::SelectChannel);
    assert_eq!(menu_type(&mentionable), Preset::SelectMentionable);
}

#[test]
fn test_select_menu_with_placeholder() {
    let select = component("Select { custom_id: \"s\", placeholder: \"Choose...\" } []");
    assert_eq!(select.kind, ComponentKind::SelectMenu, "Expected SelectMenu component");
    assert_eq!(code(&select, Field::Placeholder), some(&into("\"Choose...\"")));
}

#[test]
fn test_select_menu_with_min_max_values() {
    let select = component("Select { custom_id: \"s\", min_values: 1, max_values: 5 } []");
    assert_eq!(select.kind, ComponentKind::SelectMenu, "Expected SelectMenu component");
    assert_eq!(code(&select, Field::MinValues), some("1"));
    assert_eq!(code(&select, Field::MaxValues), some("5"));
}

#[test]
fn test_select_menu_disabled() {
    let select = component("Select { custom_id: \"s\", disabled: true } []");
    assert_eq!(select.kind, ComponentKind::SelectMenu, "Expected SelectMenu component");
    assert_eq!(code(&select, Field::Disabled), "true");
}

#[test]
fn test_select_option_with_description() {
    let select = component(
        "Select { custom_id: \"s\" } [
        Option { label: \"Item\", value: \"item\", description: \"A description\" },
    ]",
    );
    assert_eq!(select.kind, ComponentKind::SelectMenu, "Expected SelectMenu component");
    let options = items(&select, Field::Options);
    assert_eq!(code(&options[0], Field::Description), some(&into("\"A description\"")));
}

#[test]
fn test_select_option_default() {
    let select = component(
        "Select { custom_id: \"s\" } [
        Option { label: \"Default\", value: \"def\", default: true },
        Option { label: \"Other\", value: \"other\" },
    ]",
    );
    assert_eq!(select.kind, ComponentKind::SelectMenu, "Expected SelectMenu component");
    let options = items(&select, Field::Options);
    assert_eq!(code(&options[0], Field::Default), "true");
    assert_eq!(code(&options[1], Field::Default), "false");
}

#[test]
fn test_select_option_shorthand() {
    let select = component(
        "Select { custom_id: \"s\" } [
        Option(\"Quick Label\") { value: \"val\" },
    ]",
    );
    assert_eq!(select.kind, ComponentKind::SelectMenu, "Expected SelectMenu component");
    let options = items(&select, Field::Options);
    assert_eq!(code(&options[0], Field::Label), into("\"Quick Label\""));
}

// =============================================================================
// TextInput Tests
// =============================================================================

fn input_style(g: &Generated) -> Preset {
    match init(g, Field::Style) {
        Init::Preset(p) => *p,
        other => panic!("not a preset style: {:?}", other),
    }
}

#[test]
fn test_text_input_minimal() {
    let input = component("TextInput { custom_id: \"input\" }");
    assert_eq!(input.kind, ComponentKind::TextInput, "Expected TextInput component");
    assert_eq!(code(&input, Field::CustomId), into("\"input\""));
    assert_eq!(code(&input, Field::Label), "None");
    assert_eq!(input_style(&input), Preset::InputShort); // default
    assert_eq!(code(&input, Field::Placeholder), "None");
    assert_eq!(code(&input, Field::MinLength), "None");
    assert_eq!(code(&input, Field::MaxLength), "None");
    assert_eq!(code(&input, Field::Required), "None");
}

#[test]
fn test_text_input_with_label() {
    let input = component(
        "TextInput {
        custom_id: \"input\",
        label: \"Your Name\"
    }",
    );
    assert_eq!(input.kind, ComponentKind::TextInput, "Expected TextInput component");
    assert_eq!(code(&input, Field::CustomId), into("\"input\""));
    assert_eq!(code(&input, Field::Label), some(&into("\"Your Name\"")));
}

#[test]
fn test_text_input_alias() {
    let input = component("Input { custom_id: \"i\" }");
    assert_eq!(input.kind, ComponentKind::TextInput, "Expected TextInput component");
}

#[test]
fn test_text_input_paragraph() {
    let input = component(
        "Input {
        custom_id: \"bio\",
        style: Paragraph
    }",
    );
    assert_eq!(input.kind, ComponentKind::TextInput, "Expected TextInput component");
    assert_eq!(input_style(&input), Preset::InputParagraph);
}

#[test]
fn test_text_input_short_style() {
    let input = component(
        "Input {
        custom_id: \"name\",
        style: Short
    }",
    );
    assert_eq!(input.kind, ComponentKind::TextInput, "Expected TextInput component");
    assert_eq!(input_style(&input), Preset::InputShort);
}

#[test]
fn test_text_input_with_constraints() {
    let input = component(
        "Input {
        custom_id: \"msg\",
        label: \"Message\",
        min_length: 10,
        max_length: 100,
        required: true,
        placeholder: \"Enter message...\"
    }",
    );
    assert_eq!(input.kind, ComponentKind::TextInput, "Expected TextInput component");
    assert_eq!(code(&input, Field::MinLength), some("10"));
    assert_eq!(code(&input, Field::MaxLength), some("100"));
    assert_eq!(code(&input, Field::Required), some("true"));
    assert_eq!(code(&input, Field::Placeholder), some(&into("\"Enter message...\"")));
}

#[test]
fn test_text_input_with_value() {
    let input = component(
        "Input {
        custom_id: \"prefilled\",
        value: \"Default text\"
    }",
    );
    assert_eq!(input.kind, ComponentKind::TextInput, "Expected TextInput component");
    assert_eq!(code(&input, Field::Value), some(&into("\"Default text\"")));
}

// =============================================================================
// Section Tests (accessory is REQUIRED)
// =============================================================================

fn accessory(g: &Generated) -> &Generated {
    match init(g, Field::Accessory) {
        Init::Boxed(Operand::Component(inner)) => inner,
        other => panic!("no component accessory: {:?}", other),
    }
}

#[test]
fn test_section_with_button_accessory() {
    let section = component(
        "Section {
        accessory: Button { style: Link, url: \"https://example.com\", label: \"Visit\" }
    } [
        Text(\"Check out our site!\"),
    ]",
    );
    assert_eq!(section.kind, ComponentKind::Section, "Expected Section component");
    // accessory is Box<Component>, always present
    assert_eq!(accessory(&section).kind, ComponentKind::Button);
    assert_eq!(items(&section, Field::Components).len(), 1);
}

#[test]
fn test_section_with_thumbnail_accessory() {
    let section = component(
        "Section {
        accessory: Thumbnail(\"https://example.com/image.png\")
    } [
        Text(\"Image description\"),
    ]",
    );
    assert_eq!(section.kind, ComponentKind::Section, "Expected Section component");
    // accessory is present
    assert_eq!(accessory(&section).kind, ComponentKind::Thumbnail);
    assert_eq!(items(&section, Field::Components).len(), 1);
}

#[test]
fn test_section_with_id_and_accessory() {
    let section = component(
        "Section {
        id: Some(99),
        accessory: Button { style: Primary, custom_id: \"btn\", label: \"Click\" }
    } []",
    );
    assert_eq!(section.kind, ComponentKind::Section, "Expected Section component");
    assert_eq!(code(&section, Field::Id), some("99"));
}

#[test]
fn test_section_multiple_text_children() {
    let section = component(
        "Section {
        accessory: Thumbnail(\"https://example.com/img.png\")
    } [
        Text(\"Line 1\"),
        Text(\"Line 2\"),
        Text(\"Line 3\"),
    ]",
    );
    assert_eq!(section.kind, ComponentKind::Section, "Expected Section component");
    assert_eq!(items(&section, Field::Components).len(), 3);
}

// =============================================================================
// MediaGallery Tests
// =============================================================================

#[test]
fn test_media_gallery_empty() {
    let gallery = component("MediaGallery []");
    assert_eq!(gallery.kind, ComponentKind::MediaGallery, "Expected MediaGallery component");
    assert!(items(&gallery, Field::Items).is_empty());
    assert_eq!(code(&gallery, Field::Id), "None");
}

#[test]
fn test_media_gallery_with_items() {
    let gallery = component(
        "MediaGallery [
        Item(\"https://example.com/image1.png\"),
        Item(\"https://example.com/image2.png\"),
    ]",
    );
    assert_eq!(gallery.kind, ComponentKind::MediaGallery, "Expected MediaGallery component");
    assert_eq!(items(&gallery, Field::Items).len(), 2);
}

#[test]
fn test_media_gallery_alias() {
    let gallery = component("Gallery []");
    assert_eq!(gallery.kind, ComponentKind::MediaGallery, "Expected MediaGallery component");
}

#[test]
fn test_media_item_with_properties() {
    let gallery = component(
        "MediaGallery [
        Item { url: \"https://example.com/img.png\", description: \"Alt text\", spoiler: true },
    ]",
    );
    assert_eq!(gallery.kind, ComponentKind::MediaGallery, "Expected MediaGallery component");
    let item = &items(&gallery, Field::Items)[0];
    assert_eq!(code(item, Field::Description), some(&into("\"Alt text\"")));
    assert_eq!(code(item, Field::Spoiler), some("true"));
}

#[test]
fn test_media_item_shorthand() {
    let gallery = component(
        "MediaGallery [
        MediaItem(\"https://example.com/img.png\"),
    ]",
    );
    assert_eq!(gallery.kind, ComponentKind::MediaGallery, "Expected MediaGallery component");
    assert_eq!(items(&gallery, Field::Items).len(), 1);
    assert_eq!(
        media_url(&items(&gallery, Field::Items)[0], Field::Media),
        "\"https://example.com/img.png\""
    );
}

#[test]
fn test_media_item_no_spoiler_default() {
    let gallery = component(
        "MediaGallery [
        Item(\"https://example.com/img.png\"),
    ]",
    );
    assert_eq!(gallery.kind, ComponentKind::MediaGallery, "Expected MediaGallery component");
    assert_eq!(code(&items(&gallery, Field::Items)[0], Field::Spoiler), "None");
}

#[test]
fn test_media_gallery_with_id() {
    let gallery = component("MediaGallery { id: Some(7) } []");
    assert_eq!(gallery.kind, ComponentKind::MediaGallery, "Expected MediaGallery component");
    assert_eq!(code(&gallery, Field::Id), some("7"));
}

// =============================================================================
// Thumbnail Tests (returns Component::Thumbnail)
// =============================================================================

#[test]
fn test_thumbnail_shorthand() {
    let thumb = component("Thumbnail(\"https://example.com/thumb.png\")");
    assert_eq!(thumb.kind, ComponentKind::Thumbnail, "Expected Thumbnail component");
    assert_eq!(media_url(&thumb, Field::Media), "\"https://example.com/thumb.png\"");
    assert_eq!(code(&thumb, Field::Description), "None");
    assert_eq!(code(&thumb, Field::Spoiler), "None");
}

#[test]
fn test_thumbnail_alias() {
    let thumb = component("Thumb(\"https://example.com/t.png\")");
    assert_eq!(thumb.kind, ComponentKind::Thumbnail, "Expected Thumbnail component");
    assert_eq!(media_url(&thumb, Field::Media), "\"https://example.com/t.png\"");
}

#[test]
fn test_thumbnail_with_properties() {
    let thumb = component(
        "Thumbnail {
        url: \"https://example.com/img.png\",
        description: \"Description text\",
        spoiler: true
    }",
    );
    assert_eq!(thumb.kind, ComponentKind::Thumbnail, "Expected Thumbnail component");
    assert_eq!(code(&thumb, Field::Description), some(&some(&into("\"Description text\""))));
    assert_eq!(code(&thumb, Field::Spoiler), some("true"));
}

#[test]
fn test_thumbnail_no_spoiler_default() {
    let thumb = component("Thumbnail(\"https://example.com/img.png\")");
    assert_eq!(thumb.kind, ComponentKind::Thumbnail, "Expected Thumbnail component");
    assert_eq!(code(&thumb, Field::Spoiler), "None");
}

// =============================================================================
// FileDisplay Tests (returns Component::File)
// =============================================================================

#[test]
fn test_file_display_shorthand() {
    let file = component("File(\"https://example.com/doc.pdf\")");
    assert_eq!(file.kind, ComponentKind::File, "Expected File component");
    assert_eq!(media_url(&file, Field::File), "\"https://example.com/doc.pdf\"");
    assert_eq!(code(&file, Field::Spoiler), "None");
}

#[test]
fn test_file_display_alias() {
    let file = component("FileDisplay(\"https://example.com/f.txt\")");
    assert_eq!(file.kind, ComponentKind::File, "Expected File component");
}

#[test]
fn test_file_display_with_spoiler() {
    let file = component(
        "File {
        url: \"https://example.com/file.zip\",
        spoiler: true
    }",
    );
    assert_eq!(file.kind, ComponentKind::File, "Expected File component");
    assert_eq!(code(&file, Field::Spoiler), some("true"));
}

#[test]
fn test_file_display_no_spoiler_default() {
    let file = component(
        "File {
        url: \"https://example.com/file.zip\"
    }",
    );
    assert_eq!(file.kind, ComponentKind::File, "Expected File component");
    assert_eq!(code(&file, Field::Spoiler), "None");
}

// =============================================================================
// components! Macro Tests
// =============================================================================

#[test]
fn test_components_macro_single() {
    let comps = components("Text(\"Hello\")");

    assert_eq!(comps.len(), 1);
}

#[test]
fn test_components_macro_multiple() {
    let comps = components(
        "
        Container [
            Text(\"First container\"),
        ],
        Container [
            Text(\"Second container\"),
        ],
    ",
    );

    assert_eq!(comps.len(), 2);
}

#[test]
fn test_components_macro_mixed() {
    let comps = components(
        "
        Container { color: 0xFF0000 } [
            Text(\"Header\"),
            Separator,
            Row [
                Button { style: Primary, label: \"OK\", custom_id: \"ok\" },
            ],
        ],
        Row [
            Button { style: Link, label: \"Help\", url: \"https://example.com\" },
        ],
    ",
    );

    assert_eq!(comps.len(), 2);
}

// =============================================================================
// Complex Integration Tests
// =============================================================================

#[test]
fn test_nested_structure() {
    let ui = component(
        "Container { color: 0x5865F2 } [
        Text(\"# Welcome\"),
        Separator { spacing: SeparatorSpacingSize::Large },
        Section {
            accessory: Thumbnail(\"https://example.com/avatar.png\")
        } [
            Text(\"**Profile**\"),
            Text(\"Level 42\"),
        ],
        Separator,
        Row [
            Button { style: Primary, label: \"Stats\", custom_id: \"stats\" },
            Button { style: Secondary, label: \"Settings\", custom_id: \"settings\" },
        ],
    ]",
    );
    assert_eq!(ui.kind, ComponentKind::Container, "Expected Container");
    assert_eq!(items(&ui, Field::Components).len(), 5);
    assert_eq!(code(&ui, Field::AccentColor), some(&some("0x5865F2")));
}

#[test]
fn test_expression_in_values() {
    let btn = component(
        "Button {
        style: Primary,
        label: label.clone(),
        custom_id: \"btn\",
        disabled: is_disabled
    }",
    );
    assert_eq!(btn.kind, ComponentKind::Button, "Expected Button");
    assert_eq!(code(&btn, Field::Label), some(&into("label . clone ()")));
    assert_eq!(code(&btn, Field::Disabled), "is_disabled");

    let container = component("Container { color: color } []");
    assert_eq!(container.kind, ComponentKind::Container, "Expected Container");
    assert_eq!(code(&container, Field::AccentColor), some(&some("color")));
}

#[test]
fn test_conditional_expression() {
    let container = component(
        "Container {
        color: if premium { 0xFFD700 } else { 0x808080 }
    } []",
    );
    assert_eq!(container.kind, ComponentKind::Container, "Expected Container");
    assert_eq!(
        code(&container, Field::AccentColor),
        some(&some("if premium {0xFFD700} else {0x808080}"))
    );

    let container2 = component(
        "Container {
        color: if not_premium { 0xFFD700 } else { 0x808080 }
    } []",
    );
    assert_eq!(container2.kind, ComponentKind::Container, "Expected Container");
    assert_eq!(
        code(&container2, Field::AccentColor),
        some(&some("if not_premium {0xFFD700} else {0x808080}"))
    );
}

#[test]
fn test_format_macro_in_text() {
    let text = component("Text(format!(\"Welcome, {}! Level: {}\", username, level))");
    assert_eq!(text.kind, ComponentKind::Text, "Expected TextDisplay");
    assert_eq!(
        code(&text, Field::Content),
        into("format ! (\"Welcome, {}! Level: {}\" , username , level)")
    );
}

// =============================================================================
// Modal Form Test
// =============================================================================

#[test]
fn test_modal_form_layout() {
    let form = components(
        "
        Row[Input {
            custom_id: \"name\",
            label: \"Your Name\",
            style: Short,
            placeholder: \"Enter name...\",
            required: true
        }],
        Row[Input {
            custom_id: \"bio\",
            label: \"About You\",
            style: Paragraph,
            min_length: 10,
            max_length: 500
        }]
    ",
    );

    assert_eq!(form.len(), 2);
    assert_eq!(form[0].kind, ComponentKind::ActionRow, "Expected ActionRow");
    let row = items(&form[0], Field::Components);
    assert_eq!(row.len(), 1);
    assert_eq!(row[0].kind, ComponentKind::TextInput, "Expected TextInput");
    assert_eq!(code(&row[0], Field::CustomId), into("\"name\""));
    assert_eq!(input_style(&row[0]), Preset::InputShort);
    assert_eq!(code(&row[0], Field::Required), some("true"));
}

// =============================================================================
// Select Menu Complete Example
// =============================================================================

#[test]
fn test_complete_select_menu() {
    let menu = component(
        "Row [
        Select {
            custom_id: \"fruit_select\",
            placeholder: \"Pick a fruit\",
            min_values: 1,
            max_values: 3
        } [
            Option { label: \"Apple\", value: \"apple\", description: \"A red fruit\" },
            Option { label: \"Banana\", value: \"banana\", description: \"A yellow fruit\" },
            Option { label: \"Cherry\", value: \"cherry\", default: true },
        ]
    ]",
    );
    assert_eq!(menu.kind, ComponentKind::ActionRow, "Expected ActionRow");
    let sm = &items(&menu, Field::Components)[0];
    assert_eq!(sm.kind, ComponentKind::SelectMenu, "Expected SelectMenu");
    assert_eq!(code(sm, Field::Placeholder), some(&into("\"Pick a fruit\"")));
    assert_eq!(code(sm, Field::MinValues), some("1"));
    assert_eq!(code(sm, Field::MaxValues), some("3"));
    let options = items(sm, Field::Options);
    assert_eq!(options.len(), 3);
    assert_eq!(code(&options[2], Field::Default), "true");
}

// =============================================================================
// Default Value Tests (verifying omitted optional fields)
// =============================================================================

#[test]
fn test_button_defaults() {
    // Only provide required fields, verify all optionals have correct defaults
    let btn = component("Button { custom_id: \"test\" }");
    assert_eq!(btn.kind, ComponentKind::Button, "Expected Button");
    assert_eq!(style(&btn), Preset::ButtonPrimary); // default style
    assert_eq!(code(&btn, Field::Label), "None");
    assert_eq!(code(&btn, Field::Url), "None");
    assert_eq!(code(&btn, Field::Emoji), "None");
    assert_eq!(code(&btn, Field::SkuId), "None");
    assert_eq!(code(&btn, Field::Disabled), "false"); // default false
    assert_eq!(code(&btn, Field::Id), "None");
}

#[test]
fn test_select_menu_defaults() {
    let select = component("Select { custom_id: \"test\" } []");
    assert_eq!(select.kind, ComponentKind::SelectMenu, "Expected SelectMenu");
    assert_eq!(menu_type(&select), Preset::SelectText); // default
    assert_eq!(code(&select, Field::Placeholder), "None");
    assert_eq!(code(&select, Field::MinValues), "None");
    assert_eq!(code(&select, Field::MaxValues), "None");
    assert_eq!(code(&select, Field::Disabled), "false");
    assert_eq!(code(&select, Field::ChannelTypes), "None");
    assert_eq!(code(&select, Field::DefaultValues), "None");
    assert_eq!(code(&select, Field::Required), "None");
}

#[test]
fn test_text_input_defaults() {
    let input = component("Input { custom_id: \"test\" }");
    assert_eq!(input.kind, ComponentKind::TextInput, "Expected TextInput");
    assert_eq!(input_style(&input), Preset::InputShort); // default
    assert_eq!(code(&input, Field::Label), "None");
    assert_eq!(code(&input, Field::Placeholder), "None");
    assert_eq!(code(&input, Field::MinLength), "None");
    assert_eq!(code(&input, Field::MaxLength), "None");
    assert_eq!(code(&input, Field::Required), "None");
    assert_eq!(code(&input, Field::Value), "None");
}

#[test]
fn test_container_defaults() {
    let container = component("Container []");
    assert_eq!(container.kind, ComponentKind::Container, "Expected Container");
    assert_eq!(code(&container, Field::Id), "None");
    assert_eq!(code(&container, Field::AccentColor), "None");
    assert_eq!(code(&container, Field::Spoiler), "None");
}

#[test]
fn test_separator_defaults() {
    let sep = component("Separator");
    assert_eq!(sep.kind, ComponentKind::Separator, "Expected Separator");
    assert_eq!(code(&sep, Field::Id), "None");
    assert_eq!(code(&sep, Field::Divider), some("true")); // default per design
    assert_eq!(code(&sep, Field::Spacing), "None");
}

#[test]
fn test_select_option_defaults() {
    let select = component(
        "Select { custom_id: \"s\" } [
        Option { label: \"Test\", value: \"test\" },
    ]",
    );
    assert_eq!(select.kind, ComponentKind::SelectMenu, "Expected SelectMenu");
    let options = items(&select, Field::Options);
    assert_eq!(code(&options[0], Field::Default), "false"); // default false
    assert_eq!(code(&options[0], Field::Description), "None");
    assert_eq!(code(&options[0], Field::Emoji), "None");
}

#[test]
fn test_thumbnail_defaults() {
    let thumb = component("Thumbnail(\"https://example.com/img.png\")");
    assert_eq!(thumb.kind, ComponentKind::Thumbnail, "Expected Thumbnail");
    assert_eq!(code(&thumb, Field::Id), "None");
    assert_eq!(code(&thumb, Field::Description), "None");
    assert_eq!(code(&thumb, Field::Spoiler), "None");
}

#[test]
fn test_file_defaults() {
    let file = component("File(\"https://example.com/file.txt\")");
    assert_eq!(file.kind, ComponentKind::File, "Expected File");
    assert_eq!(code(&file, Field::Id), "None");
    assert_eq!(code(&file, Field::Spoiler), "None");
}
