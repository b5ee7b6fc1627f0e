use starpls_ext::{
    convert_to_builtins, load_single_extension, parse_extension_file, parse_python_stub,
    source_format, APIContext, Builtins, ExtensionCallable, ExtensionDefinition, ExtensionError,
    ExtensionLoader, ExtensionParam, ExtensionSymbol, SourceFormat,
};

fn text_field(object: &serde_json::Map<String, serde_json::Value>, key: &str, required: bool) -> Result<String, String> {
    match object.get(key) {
        Some(v) => v.as_str().map(|s| s.to_string()).ok_or_else(|| format!("`{}` is not a string", key)),
        None if required => Err(format!("missing field `{}`", key)),
        None => Ok(String::new()),
    }
}

fn flag(object: &serde_json::Map<String, serde_json::Value>, key: &str) -> Result<bool, String> {
    match object.get(key) {
        Some(v) => v.as_bool().ok_or_else(|| format!("`{}` is not a bool", key)),
        None => Ok(false),
    }
}

fn items<'a>(object: &'a serde_json::Map<String, serde_json::Value>, key: &str) -> Result<&'a Vec<serde_json::Value>, String> {
    object
        .get(key)
        .ok_or_else(|| format!("missing field `{}`", key))?
        .as_array()
        .ok_or_else(|| format!("`{}` is not an array", key))
}

fn object(v: &serde_json::Value) -> Result<&serde_json::Map<String, serde_json::Value>, String> {
    v.as_object().ok_or_else(|| "expected an object".to_string())
}

/// Decodes the declaration format by hand, for tests only.
fn decode(text: String) -> Result<ExtensionDefinition, String> {
    let root: serde_json::Value = serde_json::from_str(&text).map_err(|e| e.to_string())?;
    let mut symbols = Vec::new();
    for s in items(object(&root)?, "symbols")? {
        let s = object(s)?;
        let callable = match s.get("callable") {
            None | Some(serde_json::Value::Null) => None,
            Some(c) => {
                let c = object(c)?;
                let mut params = Vec::new();
                for p in items(c, "params")? {
                    let p = object(p)?;
                    params.push(ExtensionParam {
                        name: text_field(p, "name", true)?,
                        type_tag: text_field(p, "type", true)?,
                        doc: text_field(p, "doc", false)?,
                        default_value: text_field(p, "default_value", false)?,
                        is_mandatory: flag(p, "is_mandatory")?,
                        is_star_arg: flag(p, "is_star_arg")?,
                        is_star_star_arg: flag(p, "is_star_star_arg")?,
                    });
                }
                Some(ExtensionCallable { params, return_type: text_field(c, "return_type", true)? })
            }
        };
        symbols.push(ExtensionSymbol {
            name: text_field(s, "name", true)?,
            type_tag: text_field(s, "type", true)?,
            doc: text_field(s, "doc", false)?,
            callable,
        });
    }
    Ok(ExtensionDefinition { symbols })
}

fn plain(name: &str, type_tag: &str, doc: &str) -> ExtensionSymbol {
    ExtensionSymbol {
        name: name.to_string(),
        type_tag: type_tag.to_string(),
        doc: doc.to_string(),
        callable: None,
    }
}

fn definition(names: &[&str]) -> ExtensionDefinition {
    ExtensionDefinition { symbols: names.iter().map(|n| plain(n, "string", "")).collect() }
}

fn names(b: &Builtins) -> Vec<String> {
    b.global.iter().map(|v| v.name.clone()).collect()
}

const EXAMPLE: &str = r#"{"symbols":[{"name":"foo","type":"function","callable":{"params":[{"name":"x","type":"int","is_mandatory":true}],"return_type":"int"}}]}"#;

#[test]
fn example_declaration_converts() {
    let definition =
        parse_extension_file("ext/foo.json", "json", Ok(EXAMPLE.to_string()), decode).unwrap();
    let b = convert_to_builtins(&definition).unwrap();
    assert_eq!(b.global.len(), 1);
    assert!(b.types.is_empty());
    let v = &b.global[0];
    assert_eq!(v.name, "foo");
    assert_eq!(v.type_tag, "function");
    assert_eq!(v.doc, "");
    assert_eq!(v.api_context, APIContext::Bzl);
    let c = v.callable.as_ref().unwrap();
    assert_eq!(c.return_type, "int");
    assert_eq!(c.param.len(), 1);
    let p = &c.param[0];
    assert_eq!(p.name, "x");
    assert_eq!(p.type_tag, "int");
    assert!(p.is_mandatory);
    assert!(!p.is_star_arg);
    assert!(!p.is_star_star_arg);
    assert_eq!(p.default_value, "");
    assert_eq!(p.doc, "");
}

#[test]
fn fields_round_trip_through_conversion() {
    let params = vec![
        ExtensionParam {
            name: "args".to_string(),
            type_tag: "list".to_string(),
            doc: "extra".to_string(),
            default_value: String::new(),
            is_mandatory: false,
            is_star_arg: true,
            is_star_star_arg: false,
        },
        ExtensionParam {
            name: "mode".to_string(),
            type_tag: "string".to_string(),
            doc: String::new(),
            default_value: "\"fast\"".to_string(),
            is_mandatory: false,
            is_star_arg: false,
            is_star_star_arg: true,
        },
    ];
    let definition = ExtensionDefinition {
        symbols: vec![
            plain("VERSION", "string", "The version."),
            ExtensionSymbol {
                name: "run".to_string(),
                type_tag: "function".to_string(),
                doc: "Runs.".to_string(),
                callable: Some(ExtensionCallable { params, return_type: "None".to_string() }),
            },
        ],
    };
    let b = convert_to_builtins(&definition).unwrap();
    assert_eq!(b.global.len(), 2);
    assert_eq!(b.global[0].name, "VERSION");
    assert_eq!(b.global[0].doc, "The version.");
    assert!(b.global[0].callable.is_none());
    let c = b.global[1].callable.as_ref().unwrap();
    assert_eq!(c.return_type, "None");
    assert_eq!(c.param.len(), 2);
    assert_eq!(c.param[0].name, "args");
    assert!(c.param[0].is_star_arg);
    assert_eq!(c.param[0].doc, "extra");
    assert_eq!(c.param[1].name, "mode");
    assert_eq!(c.param[1].default_value, "\"fast\"");
    assert!(c.param[1].is_star_star_arg);
    for (v, s) in b.global.iter().zip(definition.symbols.iter()) {
        assert_eq!(v.name, s.name);
        assert_eq!(v.type_tag, s.type_tag);
        assert_eq!(v.doc, s.doc);
        assert_eq!(v.api_context, APIContext::Bzl);
    }
}

#[test]
fn symbol_without_callable_has_none() {
    let b = convert_to_builtins(&definition(&["x"])).unwrap();
    assert!(b.global[0].callable.is_none());
}

#[test]
fn callable_without_params_keeps_return_type() {
    let definition = ExtensionDefinition {
        symbols: vec![ExtensionSymbol {
            name: "now".to_string(),
            type_tag: "function".to_string(),
            doc: String::new(),
            callable: Some(ExtensionCallable { params: vec![], return_type: "int".to_string() }),
        }],
    };
    let b = convert_to_builtins(&definition).unwrap();
    let c = b.global[0].callable.as_ref().unwrap();
    assert!(c.param.is_empty());
    assert_eq!(c.return_type, "int");
}

#[test]
fn empty_definition_converts_to_empty_catalog() {
    let b = convert_to_builtins(&definition(&[])).unwrap();
    assert!(b.global.is_empty());
    assert!(b.types.is_empty());
}

#[test]
fn well_named_definition_loads_every_symbol() {
    let b = load_single_extension(Ok(definition(&["a", "b", "c"]))).unwrap();
    assert_eq!(names(&b), vec!["a", "b", "c"]);
}

#[test]
fn two_files_concatenate_in_order() {
    let mut loader = ExtensionLoader::new();
    assert_eq!(loader.load_extension_file(Ok(definition(&["a", "b"]))), Ok(()));
    assert_eq!(loader.load_extension_file(Ok(definition(&["c", "d", "e"]))), Ok(()));
    let b = loader.into_builtins().unwrap();
    assert_eq!(b.global.len(), 5);
    assert_eq!(names(&b), vec!["a", "b", "c", "d", "e"]);
}

#[test]
fn name_in_two_files_is_not_rejected_when_merging() {
    let mut loader = ExtensionLoader::new();
    assert_eq!(loader.load_extension_file(Ok(definition(&["shared", "one"]))), Ok(()));
    assert_eq!(loader.load_extension_file(Ok(definition(&["shared"]))), Ok(()));
    let b = loader.into_builtins().unwrap();
    assert_eq!(names(&b), vec!["shared", "one", "shared"]);
}

#[test]
fn failed_file_leaves_catalog_unchanged() {
    let mut loader = ExtensionLoader::default();
    assert_eq!(loader.load_extension_file(Ok(definition(&["a"]))), Ok(()));
    let failure = ExtensionError::UnsupportedFormat { format: "txt".to_string() };
    assert_eq!(loader.load_extension_file(Err(failure.clone())), Err(failure));
    let b = loader.into_builtins().unwrap();
    assert_eq!(names(&b), vec!["a"]);
}

#[test]
fn loading_does_not_validate() {
    let b = load_single_extension(Ok(definition(&["dup", "dup"]))).unwrap();
    assert_eq!(names(&b), vec!["dup", "dup"]);
}

#[test]
fn merge_appends_both_lists() {
    let mut first = convert_to_builtins(&definition(&["a"])).unwrap();
    let second = convert_to_builtins(&definition(&["b", "c"])).unwrap();
    first.merge(second);
    assert_eq!(names(&first), vec!["a", "b", "c"]);
    assert!(first.types.is_empty());
    assert!(Builtins::default().global.is_empty());
}

#[test]
fn formats_by_extension() {
    assert_eq!(source_format("json"), Some(SourceFormat::Json));
    assert_eq!(source_format("py"), Some(SourceFormat::Python));
    assert_eq!(source_format("JSON"), None);
    assert_eq!(source_format(""), None);
    assert_eq!(source_format("jso"), None);
    assert_eq!(source_format("jsonc"), None);
}

#[test]
fn non_json_extension_is_unsupported_even_for_json_text() {
    for ext in ["txt", "py", "", "yaml", "JSON"] {
        let r = parse_extension_file("decl.x", ext, Ok(EXAMPLE.to_string()), decode);
        assert_eq!(r, Err(ExtensionError::UnsupportedFormat { format: ext.to_string() }));
    }
}

#[test]
fn python_stub_is_reserved() {
    assert_eq!(
        parse_python_stub("def foo(x): ..."),
        Err(ExtensionError::UnsupportedFormat { format: "py".to_string() })
    );
}

#[test]
fn read_failure_comes_first() {
    let r = parse_extension_file("gone.txt", "txt", Err("No such file".to_string()), decode);
    assert_eq!(
        r,
        Err(ExtensionError::FileReadError {
            path: "gone.txt".to_string(),
            source: "No such file".to_string()
        })
    );
}

#[test]
fn malformed_json_is_a_parse_error() {
    let r = parse_extension_file("bad.json", "json", Ok("{not json".to_string()), decode);
    assert!(matches!(r, Err(ExtensionError::ParseError { ref path, .. }) if path == "bad.json"));
}

#[test]
fn missing_required_field_is_a_parse_error() {
    let text = r#"{"symbols":[{"name":"foo"}]}"#.to_string();
    let r = parse_extension_file("m.json", "json", Ok(text), decode);
    assert_eq!(
        r,
        Err(ExtensionError::ParseError {
            path: "m.json".to_string(),
            source: "missing field `type`".to_string()
        })
    );
}

#[test]
fn optional_fields_default_when_absent() {
    let text = r#"{"symbols":[{"name":"foo","type":"object"}]}"#.to_string();
    let d = parse_extension_file("o.json", "json", Ok(text), decode).unwrap();
    assert_eq!(d.symbols.len(), 1);
    assert_eq!(d.symbols[0].doc, "");
    assert!(d.symbols[0].callable.is_none());
}
