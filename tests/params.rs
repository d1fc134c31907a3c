use wasmcloud_provider_macros::paths::{insert_path, PathEntry};
use wasmcloud_provider_macros::tokens::Tok;
use wasmcloud_provider_macros::transform::{invocation_fields, rewrite_param};
use wasmcloud_provider_macros::tree::FnDecl;

fn id(s: &str) -> Tok {
    Tok::Ident(s.to_string())
}

fn p(c: char) -> Tok {
    Tok::Punct(c, false)
}

fn group(s: &str) -> Tok {
    Tok::Group(s.to_string())
}

fn table() -> Vec<PathEntry> {
    let mut t = Vec::new();
    insert_path(
        &mut t,
        "CustomType".to_string(),
        vec![
            "wasmcloud".to_string(),
            "example".to_string(),
            "types".to_string(),
            "CustomType".to_string(),
        ],
    );
    t
}

fn qualified_custom() -> Vec<Tok> {
    vec![
        id("wasmcloud"),
        Tok::Punct(':', true),
        p(':'),
        id("example"),
        Tok::Punct(':', true),
        p(':'),
        id("types"),
        Tok::Punct(':', true),
        p(':'),
        id("CustomType"),
    ]
}

#[test]
fn mixed_parameter_shapes() {
    let f = FnDecl {
        name: "call".to_string(),
        params: vec![
            vec![id("a"), p(':'), p('&'), id("str")],
            vec![id("b"), p(':'), id("Option"), p('<'), p('&'), group("[u8]"), p('>')],
            vec![id("c"), p(':'), p('&'), id("CustomType")],
            vec![id("d"), p(':'), id("u32")],
        ],
        output: vec![],
    };
    let (fields, args) = invocation_fields(&f, &table());
    let mut c_field = vec![id("c"), p(':')];
    c_field.extend(qualified_custom());
    assert_eq!(
        fields,
        vec![
            vec![id("a"), p(':'), id("String")],
            vec![
                id("b"),
                p(':'),
                id("Option"),
                p('<'),
                id("Vec"),
                Tok::Punct('<', true),
                id("u8"),
                Tok::Punct('>', true),
                Tok::Punct('>', true),
            ],
            c_field,
            vec![id("d"), p(':'), id("u32")],
        ]
    );
    assert_eq!(args, vec!["a", "b", "c", "d"]);
}

#[test]
fn wrapped_str_becomes_wrapped_string() {
    let a = vec![id("s"), p(':'), id("Option"), p('<'), p('&'), id("str"), p('>')];
    assert_eq!(
        rewrite_param(&a, &table()),
        vec![id("s"), p(':'), id("Option"), p('<'), id("String"), p('>')]
    );
}

#[test]
fn borrowed_unknown_type_is_taken_by_value() {
    let a = vec![id("m"), p(':'), p('&'), id("Other")];
    assert_eq!(rewrite_param(&a, &table()), vec![id("m"), p(':'), id("Other")]);
}

#[test]
fn wrapped_borrowed_known_type_is_qualified() {
    let a = vec![id("m"), p(':'), id("Option"), p('<'), p('&'), id("CustomType"), p('>')];
    let mut want = vec![id("m"), p(':'), id("Option"), p('<'), p('&')];
    want.extend(qualified_custom());
    want.push(p('>'));
    assert_eq!(rewrite_param(&a, &table()), want);
}

#[test]
fn other_shapes_pass_through() {
    let a = vec![id("v"), p(':'), id("Vec"), p('<'), id("u8"), p('>')];
    assert_eq!(rewrite_param(&a, &table()), a);
}

#[test]
fn parameter_without_leading_name_is_not_forwarded() {
    let f = FnDecl {
        name: "f".to_string(),
        params: vec![vec![group("(x, y)"), p(':'), group("(u8, u8)")], vec![id("z"), p(':'), id("u8")]],
        output: vec![],
    };
    let (fields, args) = invocation_fields(&f, &table());
    assert_eq!(fields.len(), 2);
    assert_eq!(args, vec!["z"]);
}

#[test]
fn later_structure_path_replaces_earlier() {
    let mut t = table();
    insert_path(&mut t, "CustomType".to_string(), vec!["other".to_string(), "CustomType".to_string()]);
    assert_eq!(t.len(), 1);
    let a = vec![id("c"), p(':'), p('&'), id("CustomType")];
    assert_eq!(
        rewrite_param(&a, &t),
        vec![id("c"), p(':'), id("other"), Tok::Punct(':', true), p(':'), id("CustomType")]
    );
}
