use proc_macro2::{Delimiter as PDelimiter, Spacing, TokenStream, TokenTree as PTree};
use twilight_components::ast::ComponentKind;
use twilight_components::constructed::{Field, Generated, Init, Missing, Operand};
use twilight_components::expand::{expand_component, expand_components};
use twilight_components::parse::{ParseError, ParseErrorKind};
use twilight_components::syntax::Syn;
use twilight_components::tokens::{render_trees, Delimiter, TokenTree};
use twilight_components::{component, components};

fn convert(ts: TokenStream) -> Vec<TokenTree> {
    ts.into_iter()
        .map(|t| match t {
            PTree::Group(g) => {
                let d = match g.delimiter() {
                    PDelimiter::Parenthesis => Delimiter::Parenthesis,
                    PDelimiter::Brace => Delimiter::Brace,
                    PDelimiter::Bracket => Delimiter::Bracket,
                    PDelimiter::None => Delimiter::Invisible,
                };
                TokenTree::Group(d, convert(g.stream()))
            }
            PTree::Ident(i) => TokenTree::Ident(i.to_string()),
            PTree::Punct(p) => TokenTree::Punct(p.as_char(), p.spacing() == Spacing::Joint),
            PTree::Literal(l) => TokenTree::Literal(l.to_string()),
        })
        .collect()
}

fn lex(src: &str) -> Vec<TokenTree> {
    convert(src.parse::<TokenStream>().unwrap())
}

fn text(ts: &Vec<TokenTree>) -> String {
    render_trees(ts, 0, ts.len())
}

/// The source text that `component!(src)` expands to.
fn expansion(src: &str) -> String {
    text(&component(&lex(src)))
}

/// The source text that `components!(src)` expands to.
fn list_expansion(src: &str) -> String {
    text(&components(&lex(src)))
}

fn error_of(src: &str) -> ParseError {
    match expand_component(&Syn, &lex(src)) {
        Err(e) => e,
        Ok(g) => panic!("unexpectedly read: {:?}", g),
    }
}

fn init(g: &Generated, f: Field) -> &Init {
    &g.entries.iter().find(|e| e.field == f).expect("field is set").init
}

fn expr_text(init: &Init) -> String {
    match init {
        Init::Raw(Operand::Expr(ts)) => text(ts),
        Init::Into(Operand::Expr(ts)) => text(ts),
        Init::Boxed(Operand::Expr(ts)) => text(ts),
        Init::Present(b) => expr_text(b),
        other => panic!("not an expression: {:?}", other),
    }
}

// --- laws, on chosen values -------------------------------------------------

#[test]
fn alias_expands_like_full_name() {
    assert_eq!(expansion("Text(\"Hi\")"), expansion("TextDisplay(\"Hi\")"));
    assert_eq!(expansion("Row [ Btn { custom_id: \"a\" } ]"), expansion("ActionRow [ Button { custom_id: \"a\" } ]"));
    assert_eq!(expansion("Sep"), expansion("Separator"));
    assert_eq!(expansion("Thumb(\"u\")"), expansion("Thumbnail(\"u\")"));
}

#[test]
fn shorthand_expands_like_primary_property() {
    assert_eq!(expansion("Text(\"Hi\")"), expansion("Text { content: \"Hi\" }"));
    assert_eq!(expansion("Button(\"Go\") { custom_id: \"go\" }"), expansion("Button { label: \"Go\", custom_id: \"go\" }"));
    assert_eq!(expansion("File(\"f.txt\")"), expansion("File { url: \"f.txt\" }"));
    // The shorthand comes first, so it wins over a property of the same key.
    assert_eq!(expansion("Text(\"a\") { content: \"b\" }"), expansion("Text { content: \"a\" }"));
}

#[test]
fn shorthand_ignored_without_primary_field() {
    assert_eq!(expansion("Container(\"x\") []"), expansion("Container []"));
    assert_eq!(expansion("Separator(1)"), expansion("Separator"));
}

#[test]
fn unread_property_changes_nothing() {
    assert_eq!(expansion("Text { content: \"a\", colour: 3 }"), expansion("Text { content: \"a\" }"));
    assert_eq!(expansion("Separator { label: \"x\" }"), expansion("Separator"));
}

#[test]
fn first_of_repeated_keys_counts() {
    assert_eq!(expansion("Text { content: \"a\", content: \"b\" }"), expansion("Text { content: \"a\" }"));
}

#[test]
fn property_order_changes_nothing() {
    assert_eq!(
        expansion("Button { label: \"a\", custom_id: \"b\", disabled: true }"),
        expansion("Button { disabled: true, custom_id: \"b\", label: \"a\" }")
    );
}

#[test]
fn list_of_one_is_array_of_one() {
    let one = expansion("Text(\"x\")");
    assert_eq!(list_expansion("Text(\"x\")"), format!("[{}]", one));
    assert_eq!(list_expansion("Text(\"x\"),"), format!("[{}]", one));
}

#[test]
fn list_is_array_of_each_component_in_order() {
    let a = expansion("Text(\"a\")");
    let b = expansion("Separator");
    let c = expansion("Row [ Button { label: \"c\", custom_id: \"c\" } ]");
    assert_eq!(
        list_expansion("Text(\"a\"), Separator, Row [ Button { label: \"c\", custom_id: \"c\" } ]"),
        format!("[{} , {} , {}]", a, b, c)
    );
}

#[test]
fn brackets_ignored_where_no_children_are_taken() {
    assert_eq!(expansion("Text(\"x\") [ Separator ]"), expansion("Text(\"x\")"));
    assert_eq!(
        expansion("Button { label: \"b\" } [ Text(\"y\") ]"),
        expansion("Button { label: \"b\" }")
    );
}

#[test]
fn separator_spacing_words_name_sizes() {
    let path = ":: twilight_model :: channel :: message :: component :: SeparatorSpacingSize ::";
    let large = expansion("Separator { spacing: Large }");
    assert!(large.contains(&format!("spacing : Some ({} Large)", path)), "{}", large);
    let small = expansion("Sep { spacing: Small }");
    assert!(small.contains(&format!("spacing : Some ({} Small)", path)), "{}", small);
    let other = expansion("Separator { spacing: size }");
    assert!(other.contains("spacing : Some (size)"), "{}", other);
    let none = expansion("Separator");
    assert!(none.contains("spacing : None"), "{}", none);
}

#[test]
fn resolved_words_resolve_to_themselves() {
    let cases = [
        ("Button { style: Danger }", "style"),
        ("Select { kind: User }", "kind"),
        ("Input { style: Paragraph }", "style"),
        ("Separator { spacing: Large }", "spacing"),
    ];
    for (src, key) in cases {
        let g = expand_component(&Syn, &lex(src)).unwrap();
        let field = match key {
            "style" => Field::Style,
            "kind" => Field::Kind,
            _ => Field::Spacing,
        };
        let t = twilight_components::emit::write_init(init(&g, field));
        let mut resolved = text(&t);
        if let Some(inner) = resolved.strip_prefix("Some (").and_then(|r| r.strip_suffix(")")) {
            resolved = inner.to_string();
        }
        let again = src.replace(src[src.find(": ").unwrap() + 2..src.len() - 2].trim(), &resolved);
        assert_eq!(expansion(&again), expansion(src), "{}", again);
    }
}

// --- what the expansion is ----------------------------------------------------

#[test]
fn text_expansion_is_exact() {
    assert_eq!(
        expansion("Text(\"Hi\")"),
        ":: twilight_model :: channel :: message :: Component :: TextDisplay (:: twilight_model :: channel :: message :: component :: TextDisplay {id : None , content : (\"Hi\") . into () ,})"
    );
}

#[test]
fn media_item_is_not_wrapped() {
    assert_eq!(
        expansion("Item(\"u\")"),
        ":: twilight_model :: channel :: message :: component :: MediaGalleryItem {description : None , media : :: twilight_model :: channel :: message :: component :: UnfurledMediaItem {url : (\"u\") . into () , proxy_url : None , height : None , width : None , content_type : None ,} , spoiler : None ,}"
    );
}

#[test]
fn expansions_are_rust_expressions() {
    for src in [
        "Text(\"Hi\")",
        "Container { color: 0x5865F2, spoiler: true } [ Text(\"a\"), Separator { spacing: SeparatorSpacingSize::Large } ]",
        "Section { accessory: Button { style: Link, url: \"https://x\", label: \"Visit\" } } [ Text(\"t\") ]",
        "Section [ Text(\"no accessory\") ]",
        "Select { custom_id: \"s\", kind: User } [ Option(\"a\") { value: \"a\" } ]",
        "Input { custom_id: \"i\", label: \"L\", style: Paragraph }",
        "Label(\"Name\") [ Input { custom_id: \"n\" } ]",
        "Upload { custom_id: \"u\", max_values: 2 }",
        "Gallery [ Item { url: \"u\", alt: \"a\" } ]",
        "Thumb { url: \"u\", description: \"d\" }",
        "File(\"f\")",
        "Unknown(1)",
    ] {
        let out = expansion(src);
        assert!(syn::parse_str::<syn::Expr>(&out).is_ok(), "{} expands to {}", src, out);
    }
    let list = list_expansion("Text(\"a\"), Row [ Button(\"b\") ]");
    assert!(syn::parse_str::<syn::Expr>(&list).is_ok(), "{}", list);
}

#[test]
fn section_without_accessory_fails_to_compile() {
    let g = expand_component(&Syn, &lex("Section [ Text(\"x\") ]")).unwrap();
    assert!(matches!(init(&g, Field::Accessory), Init::Missing(Missing::SectionAccessory)));
    assert!(expansion("Section [ Text(\"x\") ]").contains(
        "compile_error ! (\"Section requires an accessory (Button or Thumbnail)\")"
    ));
}

#[test]
fn label_takes_first_child_or_component_property() {
    let g = expand_component(&Syn, &lex("Label(\"Name\") [ Input { custom_id: \"n\" }, Text(\"x\") ]")).unwrap();
    match init(&g, Field::Component) {
        Init::Boxed(Operand::Component(c)) => assert_eq!(c.kind, ComponentKind::TextInput),
        other => panic!("{:?}", other),
    }
    let h = expand_component(&Syn, &lex("Label { label: \"L\", component: Input { custom_id: \"n\" } }")).unwrap();
    match init(&h, Field::Component) {
        Init::Boxed(Operand::Component(c)) => assert_eq!(c.kind, ComponentKind::TextInput),
        other => panic!("{:?}", other),
    }
    let e = expand_component(&Syn, &lex("Label(\"L\") []")).unwrap();
    assert!(matches!(init(&e, Field::Component), Init::Missing(Missing::LabelComponent)));
}

#[test]
fn select_menu_options_absent_without_brackets() {
    let g = expand_component(&Syn, &lex("Select { custom_id: \"s\" }")).unwrap();
    assert!(matches!(init(&g, Field::Options), Init::Absent));
    let h = expand_component(&Syn, &lex("Select { custom_id: \"s\" } []")).unwrap();
    assert!(matches!(init(&h, Field::Options), Init::Present(_)));
}

#[test]
fn select_menu_kind_word_and_string_alias() {
    let g = expand_component(&Syn, &lex("Select { kind: String }")).unwrap();
    assert!(matches!(init(&g, Field::Kind), Init::Preset(twilight_components::constructed::Preset::SelectText)));
    let h = expand_component(&Syn, &lex("Select { kind: SelectMenuType::Role }")).unwrap();
    assert_eq!(expr_text(init(&h, Field::Kind)), "SelectMenuType :: Role");
}

#[test]
fn file_upload_defaults() {
    let g = expand_component(&Syn, &lex("FileUpload {}")).unwrap();
    assert_eq!(g.kind, ComponentKind::FileUpload);
    assert_eq!(expansion("Upload {}"), expansion("FileUpload"));
    assert!(expansion("FileUpload").contains("custom_id : String :: new () ,"));
}

// --- how values are read --------------------------------------------------------

#[test]
fn closure_with_commas_is_one_value() {
    let g = expand_component(&Syn, &lex("Text { content: |a, b| a, id: 3 }")).unwrap();
    assert_eq!(expr_text(init(&g, Field::Content)), "| a , b | a");
    assert_eq!(expr_text(init(&g, Field::Id)), "3");
}

#[test]
fn turbofish_with_commas_is_one_value() {
    let g = expand_component(&Syn, &lex("Text { id: pick::<u8, u16>(), content: \"c\" }")).unwrap();
    assert_eq!(expr_text(init(&g, Field::Id)), "pick ::< u8 , u16 > ()");
}

#[test]
fn capitalised_value_with_group_is_a_component() {
    let g = expand_component(&Syn, &lex("Section { accessory: Thumb(\"u\") }")).unwrap();
    assert!(matches!(init(&g, Field::Accessory), Init::Boxed(Operand::Component(_))));
    // Standard constructors, paths and lowercase calls stay expressions.
    let b = expand_component(&Syn, &lex("Button { emoji: Some(e), label: make(1) }")).unwrap();
    assert_eq!(expr_text(init(&b, Field::Emoji)), "Some (e)");
    assert_eq!(expr_text(init(&b, Field::Label)), "make (1)");
}

#[test]
fn non_ascii_capital_starts_a_component() {
    kind_is(
        "Section { accessory: Énorme(1) }",
        ParseErrorKind::UnknownComponent("Énorme".to_string()),
        &[1, 2],
    );
    let g = expand_component(&Syn, &lex("Section { accessory: élan(1) }")).unwrap();
    assert_eq!(expr_text(init(&g, Field::Accessory)), "élan (1)");
}

// --- errors ---------------------------------------------------------------------

/// The kind of error that reading `src` as one component gives, and where.
fn fails(src: &str) -> (ParseErrorKind, Vec<usize>) {
    let e = error_of(src);
    (e.kind, e.at)
}

fn kind_is(src: &str, expected: ParseErrorKind, at: &[usize]) {
    let (kind, where_) = fails(src);
    assert_eq!(format!("{:?}", kind), format!("{:?}", expected), "{}", src);
    assert_eq!(where_, at.to_vec(), "{}", src);
}

#[test]
fn unknown_component_is_refused_by_name() {
    kind_is("Foo(\"x\")", ParseErrorKind::UnknownComponent("Foo".to_string()), &[0]);
    kind_is("Row [ Text(\"a\"), Bar ]", ParseErrorKind::UnknownComponent("Bar".to_string()), &[1, 3]);
    assert_eq!(
        error_of("Foo").message(),
        "Unknown component type: `Foo`. Valid types are: Text, Container, Section, Separator, MediaGallery, Thumbnail, File, FileUpload, Label, ActionRow, Button, SelectMenu, TextInput, MediaItem, SelectOption"
    );
}

#[test]
fn unknown_component_expands_to_compile_error() {
    assert_eq!(
        expansion("Foo"),
        ":: core :: compile_error ! {\"Unknown component type: `Foo`. Valid types are: Text, Container, Section, Separator, MediaGallery, Thumbnail, File, FileUpload, Label, ActionRow, Button, SelectMenu, TextInput, MediaItem, SelectOption\"}"
    );
}

#[test]
fn compile_error_escapes_quotes() {
    let e = ParseError { kind: ParseErrorKind::UnknownComponent("a\"b\\c".to_string()), at: vec![0] };
    let out = text(&e.to_compile_error());
    assert!(out.contains("`a\\\"b\\\\c`"), "{}", out);
}

#[test]
fn reserved_word_is_not_a_key() {
    kind_is("Select { type: User }", ParseErrorKind::ExpectedIdentifier, &[1, 0]);
    kind_is("fn", ParseErrorKind::ExpectedIdentifier, &[0]);
    // A raw identifier is a key; no kind reads it.
    assert_eq!(expansion("Select { r#type: User }"), expansion("Select {}"));
}

#[test]
fn missing_name_is_refused() {
    kind_is("", ParseErrorKind::ExpectedIdentifier, &[0]);
    kind_is("\"Text\"", ParseErrorKind::ExpectedIdentifier, &[0]);
    kind_is("Text { 1: 2 }", ParseErrorKind::ExpectedIdentifier, &[1, 0]);
}

#[test]
fn missing_colon_is_refused() {
    kind_is("Text { content \"x\" }", ParseErrorKind::ExpectedColon, &[1, 1]);
    kind_is("Text { content }", ParseErrorKind::ExpectedColon, &[1, 1]);
}

#[test]
fn missing_comma_is_refused() {
    kind_is("Row [ Text(\"a\") Text(\"b\") ]", ParseErrorKind::ExpectedComma, &[1, 2]);
    kind_is("Section { accessory: Thumb(\"u\") id: 1 }", ParseErrorKind::ExpectedComma, &[1, 4]);
}

#[test]
fn non_expression_is_refused() {
    kind_is("Text(\"a\", \"b\")", ParseErrorKind::ExpectedExpression, &[1]);
    kind_is("Text()", ParseErrorKind::ExpectedExpression, &[1]);
    kind_is("Text { content: }", ParseErrorKind::ExpectedExpression, &[1, 2]);
    kind_is("Text { content: \"a\" id: 1 }", ParseErrorKind::ExpectedExpression, &[1, 2]);
}

#[test]
fn leftover_tokens_are_refused() {
    kind_is("Text(\"a\") Text(\"b\")", ParseErrorKind::UnexpectedToken, &[2]);
    kind_is("Text(\"a\"),", ParseErrorKind::UnexpectedToken, &[2]);
}

fn invisible(inner: Vec<TokenTree>) -> TokenTree {
    TokenTree::Group(Delimiter::Invisible, inner)
}

fn word(w: &str) -> TokenTree {
    TokenTree::Ident(w.to_string())
}

#[test]
fn invisible_group_of_one_token_is_that_token() {
    // `Btn` and `{ <label> : "x" }`, with the name and the key each wrapped.
    let mut input = vec![invisible(vec![word("Btn")])];
    let mut props = vec![invisible(vec![word("label")])];
    props.extend(lex(": \"x\""));
    input.push(TokenTree::Group(Delimiter::Brace, props));
    assert_eq!(text(&component(&input)), expansion("Button { label: \"x\" }"));
    // A wrapped comma separates components.
    let mut list = lex("Sep");
    list.push(invisible(vec![TokenTree::Punct(',', false)]));
    list.extend(lex("Sep"));
    assert_eq!(text(&components(&list)), list_expansion("Sep, Sep"));
    // A wrapped run of several tokens holds one whole component.
    let two = vec![invisible(vec![word("Text"), word("Text")])];
    match expand_component(&Syn, &two) {
        Err(e) => {
            assert!(matches!(e.kind, ParseErrorKind::UnexpectedToken));
            assert_eq!(e.at, vec![0, 1]);
        }
        Ok(g) => panic!("unexpectedly read: {:?}", g),
    }
}

#[test]
fn invisible_group_of_a_whole_component_is_that_component() {
    // `component!($c)`, with `$c` an expression fragment.
    let whole = vec![invisible(lex("Text(\"a\")"))];
    assert_eq!(text(&component(&whole)), expansion("Text(\"a\")"));
    // `Row [ $b ]`.
    let mut row = lex("Row");
    row.push(TokenTree::Group(
        Delimiter::Bracket,
        vec![invisible(lex("Button { label: \"x\", custom_id: \"x\" }"))],
    ));
    assert_eq!(
        text(&component(&row)),
        expansion("Row [ Button { label: \"x\", custom_id: \"x\" } ]")
    );
    // `Section { accessory: $acc } [ .. ]`.
    let mut props = lex("accessory:");
    props.push(invisible(lex("Thumb(\"u\")")));
    let mut section = lex("Section");
    section.push(TokenTree::Group(Delimiter::Brace, props));
    section.extend(lex("[ Text(\"t\") ]"));
    assert_eq!(
        text(&component(&section)),
        expansion("Section { accessory: Thumb(\"u\") } [ Text(\"t\") ]")
    );
    // A wrapped expression stays one expression value, group and all.
    let mut value = lex("content:");
    value.push(invisible(lex("a + b")));
    let mut text_node = lex("Text");
    text_node.push(TokenTree::Group(Delimiter::Brace, value));
    let g = expand_component(&Syn, &text_node).unwrap();
    match init(&g, Field::Content) {
        Init::Into(Operand::Expr(ts)) => {
            assert_eq!(ts.len(), 1);
            assert!(matches!(&ts[0], TokenTree::Group(Delimiter::Invisible, _)));
        }
        other => panic!("{:?}", other),
    }
    // An error inside the group points into it.
    let bad = vec![invisible(lex("Foo {}"))];
    match expand_component(&Syn, &bad) {
        Err(e) => assert_eq!(e.at, vec![0, 0]),
        Ok(g) => panic!("unexpectedly read: {:?}", g),
    }
}

#[test]
fn list_errors_expand_to_compile_error() {
    assert!(list_expansion("Text(\"a\"), Foo").starts_with(":: core :: compile_error !"));
    assert!(expand_components(&Syn, &lex("")).unwrap().is_empty());
}
