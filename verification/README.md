# twilight_components

A declarative notation for Discord message components, expanded into
constructor expressions of `twilight_model` types:

```text
Container { color: 0x5865F2 } [
    Text("# Dashboard"),
    Separator,
    Section { accessory: Button { style: Link, url: "https://example.com", label: "Visit" } } [
        Text("Check out our website."),
    ],
]
```

Braces hold properties, brackets hold children, and parentheses hold a
shorthand for a component's primary field (`Text("x")` is `Text { content: "x" }`).

## Layout

- `src/` is the library, verified with Verus:
  - `tokens.rs`: token trees, their mathematical values, and their source text;
  - `ast.rs`: components, properties, and the names and aliases of the kinds;
  - `parse.rs`: the grammar, as recursive specifications, and the parser proved to follow it,
    errors and their positions included;
  - `generate.rs`: what each kind of component becomes, field by field;
  - `constructed.rs`: the constructor expressions that components become;
  - `emit.rs`: writing those expressions out as token trees;
  - `expand.rs`: from the tokens of a macro call to the tokens it expands to, errors included;
  - `laws.rs`: properties of the notation as a whole (aliases, shorthands, ignored and
    repeated properties, property order, ignored brackets, lists of components, trailing
    commas, style words that stay resolved, and that every expression read is one that
    `syn` reads);
  - `syntax.rs` and `outside.rs`: the questions about Rust syntax that `syn` answers, and the
    few calls into `syn` and the standard library whose contracts are trusted.
- `app/` converts between the compiler's token streams and the library's tokens.
- `tests/` runs the library on concrete notation.
