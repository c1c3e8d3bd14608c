use caller_utils_gen::parser::parse_wit_source;
use caller_utils_gen::world::SourceFile;
use caller_utils_gen::world::find_world_imports;
use caller_utils_gen::world::resolve_world;

fn file(name: &str, content: &str) -> SourceFile {
    SourceFile { name: name.to_string(), content: content.to_string() }
}

#[test]
fn parses_signatures_and_type_names() {
    let text = "interface account {\n\
                record order {\n    id: u64,\n}\n\
                variant status {\n    open,\n    closed,\n}\n\
                record get-balance-signature-local {\n\
                    // the routing field\n\
                    target: string,\n\
                \n\
                    returning: u64,\n\
                }\n\
                }\n";
    let (sigs, types) = parse_wit_source(text);
    assert_eq!(types, vec!["order".to_string(), "status".to_string()]);
    assert_eq!(sigs.len(), 1);
    assert_eq!(sigs[0].function_name, "get-balance");
    assert_eq!(sigs[0].attr_type, "local");
    assert_eq!(sigs[0].fields.len(), 2);
    assert_eq!(sigs[0].fields[0].name, "target");
    assert_eq!(sigs[0].fields[0].wit_type, "string");
    assert_eq!(sigs[0].fields[1].name, "returning");
    assert_eq!(sigs[0].fields[1].wit_type, "u64");
}

#[test]
fn malformed_signature_name_is_skipped() {
    let text = "record a-signature-b-signature-c {\n    target: string,\n}\n\
                record transfer-signature-remote {\n    target: string,\n    amount: u64,\n    returning: bool,\n}\n";
    let (sigs, types) = parse_wit_source(text);
    assert!(types.is_empty());
    assert_eq!(sigs.len(), 1);
    assert_eq!(sigs[0].function_name, "transfer");
    assert_eq!(sigs[0].attr_type, "remote");
    assert_eq!(sigs[0].fields.len(), 3);
}

#[test]
fn field_types_keep_nested_generics() {
    let text = "record list-orders-signature-local {\n\
                    target: string,\n\
                    filters: map<string, list<u8>>,\n\
                    returning: list<order>,\n\
                }\n";
    let (sigs, _) = parse_wit_source(text);
    assert_eq!(sigs[0].fields[1].wit_type, "map<string, list<u8>>");
    assert_eq!(sigs[0].fields[2].wit_type, "list<order>");
}

#[test]
fn world_prefers_types_prefixed_declaration() {
    let files = vec![
        file("app.wit", "world foo {\n    import alpha;\n}\n"),
        file("types-app.wit", "world types-foo {\n    import beta;\n}\n"),
    ];
    let w = resolve_world(&files).unwrap();
    assert_eq!(w.name, "types-foo");
    assert!(!w.plain_fallback);
}

#[test]
fn plain_world_is_promoted_when_prefixed_file_exists() {
    let files = vec![
        file("app.wit", "world foo {\n}\n"),
        file("types-foo.wit", "interface t {\n}\n"),
    ];
    let w = resolve_world(&files).unwrap();
    assert_eq!(w.name, "types-foo");
    assert!(!w.plain_fallback);
}

#[test]
fn plain_world_stands_with_fallback_mark() {
    let files = vec![file("app.wit", "world foo {\n}\n")];
    let w = resolve_world(&files).unwrap();
    assert_eq!(w.name, "foo");
    assert!(w.plain_fallback);
}

#[test]
fn missing_world_fails_resolution() {
    let files = vec![file("a.wit", "interface only {\n}\n")];
    assert!(resolve_world(&files).is_none());
}

#[test]
fn imports_come_from_world_files_only() {
    let files = vec![
        file("app.wit", "world foo {\n    import alpha;\n    import beta-x;\n}\n"),
        file("other.wit", "interface x {\n    import hidden;\n}\n"),
    ];
    let imports = find_world_imports(&files);
    assert_eq!(imports, vec!["alpha".to_string(), "beta-x".to_string()]);
}

#[test]
fn carriage_returns_are_stripped_from_lines() {
    let text = "record pay-signature-remote {\r\n    target: string,\r\n    returning: u64,\r\n}\r\n";
    let (sigs, _) = parse_wit_source(text);
    assert_eq!(sigs.len(), 1);
    assert_eq!(sigs[0].fields[0].name, "target");
    assert_eq!(sigs[0].fields[0].wit_type, "string");
}
