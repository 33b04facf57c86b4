use test_data_file::config::ConfigurationError;
use test_data_file::config::FileStatus;
use test_data_file::config::Property;
use test_data_file::emit::body;
use test_data_file::emit::call_statement;
use test_data_file::emit::escape;
use test_data_file::emit::string_literal;
use test_data_file::format::FormatKind;
use test_data_file::generate::generate;
use test_data_file::generate::impl_test_data_file;
use test_data_file::rewrite::attribute_lines;
use test_data_file::rewrite::inner_function;
use test_data_file::rewrite::inner_name;
use test_data_file::signature::extract_schema;
use test_data_file::signature::Attribute;
use test_data_file::signature::Field;
use test_data_file::signature::ItemFn;
use test_data_file::signature::Parameter;
use test_data_file::test_data_file;

fn attribute(path: &str, text: &str) -> Attribute {
    Attribute {
        leading_colon: path.starts_with("::"),
        segments: path.trim_start_matches("::").split("::").map(|s| s.to_string()).collect(),
        text: text.to_string(),
    }
}

fn binding(name: &str, ty: &str) -> Parameter {
    Parameter::Binding { name: name.to_string(), pattern: name.to_string(), ty: ty.to_string() }
}

fn field(name: &str, ty: &str) -> Field {
    Field { name: name.to_string(), ty: ty.to_string() }
}

fn test_me() -> ItemFn {
    ItemFn {
        attrs: vec![attribute("test", "#[test]")],
        vis: String::new(),
        is_async: false,
        name: "test_me".to_string(),
        inputs: vec![binding("max_value", "usize"), binding("expected", "bool")],
        output: String::new(),
        block: "{\n    assert_eq!(max_value > 10, expected);\n}".to_string(),
        ..Default::default()
    }
}

const LIST_UNIT: &str = r#"#[test]
fn test_me() {
    use std::io::BufRead;
    let file_path = "test_me.list";
    let f = std::fs::File::open(file_path).unwrap();
    let lines = std::io::BufReader::new(f).lines();
    let mut executed = false;
    for (n, line) in lines.enumerate() {
        if n == 0 {
            continue;
        }
        executed = true;
        let line = line.unwrap();
        let mut iter = line.split_whitespace();
        let mut column = 0;
        let field = iter.next().unwrap();
        let max_value = field.parse().map_err(|e| format!("Invalid value in row={n} column={column} {file_path} {e}")).unwrap();
        column += 1;
        let field = iter.next().unwrap();
        let expected = field.parse().map_err(|e| format!("Invalid value in row={n} column={column} {file_path} {e}")).unwrap();
        column += 1;
        _test_me(max_value, expected, );
    }
    if !executed {
        panic!("Empty test data provided in {file_path}");
    }
}
fn _test_me(max_value: usize, expected: bool, ) {
    assert_eq!(max_value > 10, expected);
}
"#;

const CSV_WRAPPER: &str = r#"#[test]
#[should_panic(expected = "boom")]
fn rows() {
    #[derive(Debug, serde::Deserialize)]
    struct _Data {
        id: u32,
        label: Option<String>,
    }
    let file_path = "tests/samples/rows.csv";
    let mut rdr = csv::ReaderBuilder::new().from_path(file_path).unwrap();
    let mut executed = false;
    for result in rdr.deserialize() {
        let record: _Data = result.unwrap();
        executed = true;
        let _Data { id, label, } = record;
        _rows(id, label, );
    }
    if !executed {
        panic!("Empty test data provided in {file_path}");
    }
}
"#;

const CSV_INNER: &str = r#"/// Checks one row.
#[allow(unused_variables)]
pub(crate) fn _rows(id: u32, mut label: Option<String>, ) -> Result<(), String> {
    panic!("boom")
}
"#;

const JSON_UNIT: &str = r#"#[tokio::test(flavor = "multi_thread")]
async fn check() {
    #[derive(Debug, serde::Deserialize)]
    struct _Data {
        value: Vec<String>,
    }
    #[derive(Debug, serde::Deserialize)]
    #[serde(untagged)]
    enum Collection {
        Index(Vec<_Data>),
        Map(std::collections::HashMap<String, _Data>),
    }
    let file_path = "check_array";
    let values: Collection = serde_json::from_reader(std::fs::File::open(file_path).unwrap()).map_err(|e| format!("Failed to load data in {file_path} {e}")).unwrap();
    let values = match values {
        Collection::Index(v) => v,
        Collection::Map(m) => m.into_iter().map(|(_, v)| v).collect(),
    };
    if values.is_empty() {
        panic!("Empty test data provided in {file_path}");
    }
    for test_data in values {
        let _Data { value, } = test_data;
        _check(value, ).await;
    }
}
async fn _check(value: Vec<String>, ) {
    assert!(!value.is_empty());
}
"#;

#[test]
fn generates_a_list_test() {
    let properties = vec![Property::new("path", "test_me.list", FileStatus::File)];
    assert_eq!(test_data_file(&properties, &test_me()).unwrap(), LIST_UNIT);
}

#[test]
fn generates_a_csv_test() {
    let item = ItemFn {
        attrs: vec![
            attribute("doc", "/// Checks one row."),
            attribute("test", "#[test]"),
            attribute("allow", "#[allow(unused_variables)]"),
            attribute("should_panic", "#[should_panic(expected = \"boom\")]"),
        ],
        vis: "pub(crate)".to_string(),
        is_async: false,
        name: "rows".to_string(),
        inputs: vec![
            binding("id", "u32"),
            Parameter::Binding {
                name: "label".to_string(),
                pattern: "mut label".to_string(),
                ty: "Option<String>".to_string(),
            },
        ],
        output: "-> Result<(), String>".to_string(),
        block: "{\n    panic!(\"boom\")\n}".to_string(),
        ..Default::default()
    };
    assert_eq!(impl_test_data_file(&item, "tests/samples/rows.csv", FormatKind::Csv), CSV_WRAPPER);
    assert_eq!(inner_function(&item), CSV_INNER);
    let properties = vec![Property::new("path", "tests/samples/rows.csv", FileStatus::File)];
    assert_eq!(
        test_data_file(&properties, &item).unwrap(),
        format!("{CSV_WRAPPER}{CSV_INNER}")
    );
}

#[test]
fn generates_an_asynchronous_json_test() {
    let item = ItemFn {
        attrs: vec![attribute("tokio::test", "#[tokio::test(flavor = \"multi_thread\")]")],
        vis: String::new(),
        is_async: true,
        name: "check".to_string(),
        inputs: vec![binding("value", "Vec<String>")],
        output: String::new(),
        block: "{\n    assert!(!value.is_empty());\n}".to_string(),
        ..Default::default()
    };
    let properties = vec![
        Property::new("kind", "json", FileStatus::Missing),
        Property::new("path", "check_array", FileStatus::File),
    ];
    assert_eq!(test_data_file(&properties, &item).unwrap(), JSON_UNIT);
}

#[test]
fn each_structured_kind_has_its_decoder() {
    let open = "(std::fs::File::open(file_path).unwrap())";
    let read = "(&std::fs::read_to_string(file_path).unwrap())";
    let fails = ".map_err(|e| format!(\"Failed to load data in {file_path} {e}\")).unwrap();\n";
    for (kind, decoder) in [
        (FormatKind::Json, format!("serde_json::from_reader{open}")),
        (FormatKind::Yaml, format!("serde_yaml::from_reader{open}")),
        (FormatKind::Toml, format!("toml::from_str{read}")),
        (FormatKind::Ron, format!("ron::de::from_reader{open}")),
    ] {
        let text = body(kind, "p", &vec![field("a", "u8")], "_f(a, );");
        assert!(text.contains(&format!("    let values: Collection = {decoder}{fails}")), "{text}");
        assert!(text.contains("        Map(std::collections::HashMap<String, _Data>),\n"));
        assert!(text.contains("    if values.is_empty() {\n"));
    }
}

#[test]
fn every_kind_guards_against_empty_data_and_calls_once() {
    for kind in [
        FormatKind::Csv,
        FormatKind::Json,
        FormatKind::Yaml,
        FormatKind::Ron,
        FormatKind::Toml,
        FormatKind::List,
    ] {
        let text = body(kind, "some/file", &vec![field("a", "u8")], "_f(a, );");
        assert_eq!(text.matches("panic!(\"Empty test data provided in {file_path}\");").count(), 1);
        assert_eq!(text.matches("    let file_path = \"some/file\";\n").count(), 1);
        assert_eq!(text.matches("_f(a, );").count(), 1);
    }
}

#[test]
fn a_rejected_configuration_gives_no_text() {
    let missing = vec![
        Property::new("kind", "toml", FileStatus::Missing),
        Property::new("path", "tests/samples/nowhere.toml", FileStatus::Missing),
    ];
    assert_eq!(test_data_file(&missing, &test_me()), Err(ConfigurationError::FileDoesNotExist));
    let directory = vec![Property::new("path", "tests", FileStatus::NotAFile)];
    assert_eq!(test_data_file(&directory, &test_me()), Err(ConfigurationError::PathMustBeFile));
    let unknown_kind = vec![Property::new("kind", "xml", FileStatus::Missing)];
    assert_eq!(test_data_file(&unknown_kind, &test_me()), Err(ConfigurationError::UnsupportedKind));
    let unknown_key = vec![Property::new("file", "a.json", FileStatus::File)];
    assert_eq!(
        test_data_file(&unknown_key, &test_me()),
        Err(ConfigurationError::UnsupportedProperty)
    );
    assert_eq!(test_data_file(&vec![], &test_me()), Err(ConfigurationError::MissingPath));
    let no_kind = vec![Property::new("path", "data", FileStatus::File)];
    assert_eq!(test_data_file(&no_kind, &test_me()), Err(ConfigurationError::MissingKind));
}

#[test]
fn the_schema_follows_the_parameters() {
    let parameters = vec![
        Parameter::Receiver { text: "&self".to_string() },
        binding("first", "u8"),
        Parameter::Pattern { pattern: "(a, b)".to_string(), ty: "(u8, u8)".to_string() },
        Parameter::Binding {
            name: "second".to_string(),
            pattern: "mut second".to_string(),
            ty: "Vec<&'static str>".to_string(),
        },
    ];
    assert_eq!(
        extract_schema(&parameters),
        vec![field("first", "u8"), field("second", "Vec<&'static str>")]
    );
    assert_eq!(extract_schema(&vec![]), vec![]);
    assert_eq!(
        extract_schema(&vec![Parameter::Receiver { text: "self".to_string() }]),
        vec![]
    );
}

#[test]
fn parameters_without_a_plain_name_stay_on_the_function_only() {
    let item = ItemFn {
        attrs: vec![attribute("test", "#[test]")],
        vis: "pub".to_string(),
        is_async: false,
        name: "pairs".to_string(),
        inputs: vec![
            Parameter::Pattern { pattern: "(a, b)".to_string(), ty: "(u8, u8)".to_string() },
            binding("sum", "u8"),
        ],
        output: String::new(),
        block: "{}".to_string(),
        ..Default::default()
    };
    let wrapper = impl_test_data_file(&item, "pairs.yaml", FormatKind::Yaml);
    assert!(wrapper.contains("    struct _Data {\n        sum: u8,\n    }\n"));
    assert!(wrapper.contains("        _pairs(sum, );\n"));
    assert_eq!(inner_function(&item), "pub fn _pairs((a, b): (u8, u8), sum: u8, ) {}\n");
}

#[test]
fn a_function_without_parameters_is_called_once_per_record() {
    let item = ItemFn {
        attrs: vec![attribute("test", "#[test]")],
        vis: String::new(),
        is_async: false,
        name: "tick".to_string(),
        inputs: vec![],
        output: String::new(),
        block: "{}".to_string(),
        ..Default::default()
    };
    let wrapper = impl_test_data_file(&item, "ticks.list", FormatKind::List);
    assert!(wrapper.contains("        let mut column = 0;\n        _tick();\n    }\n"));
    assert_eq!(inner_function(&item), "fn _tick() {}\n");
}

#[test]
fn registration_attributes_move_to_the_wrapper() {
    let attrs = vec![
        attribute("doc", "#[doc = \"x\"]"),
        attribute("test", "#[test]"),
        attribute("ignore", "#[ignore]"),
        attribute("should_panic", "#[should_panic]"),
        attribute("tokio::test", "#[tokio::test]"),
        attribute("::tokio::test", "#[::tokio::test]"),
        attribute("tokio::main", "#[tokio::main]"),
        attribute("::test", "#[::test]"),
        attribute("core::prelude::v1::test", "#[core::prelude::v1::test]"),
        attribute("test::case", "#[test::case]"),
        attribute("tokio_test", "#[tokio_test]"),
    ];
    assert_eq!(
        attribute_lines(&attrs, true),
        "#[test]\n#[should_panic]\n#[tokio::test]\n#[::tokio::test]\n#[tokio::main]\n"
    );
    assert_eq!(
        attribute_lines(&attrs, false),
        "#[doc = \"x\"]\n#[ignore]\n#[::test]\n#[core::prelude::v1::test]\n#[test::case]\n#[tokio_test]\n"
    );
    for attr in &attrs {
        let moved = attribute_lines(&vec![attr.clone()], true);
        let kept = attribute_lines(&vec![attr.clone()], false);
        assert_eq!(attr.is_registration(), !moved.is_empty());
        assert_eq!(format!("{moved}{kept}"), format!("{}\n", attr.text));
    }
    assert_eq!(attribute_lines(&vec![], true), "");
}

#[test]
fn attribute_paths() {
    assert!(attribute("test", "#[test]").is_ident("test"));
    assert!(!attribute("::test", "#[::test]").is_ident("test"));
    assert!(!attribute("tokio::test", "#[tokio::test]").is_ident("test"));
    assert!(!attribute("test", "#[test]").is_ident("tes"));
    let empty = Attribute { leading_colon: false, segments: vec![], text: String::new() };
    assert!(!empty.is_ident("test"));
    assert!(!empty.is_registration());
}

#[test]
fn the_renamed_function_keeps_its_name_behind_an_underscore() {
    assert_eq!(inner_name("test_me"), "_test_me");
    assert_eq!(inner_name("_hidden"), "__hidden");
    assert_eq!(inner_name(""), "_");
}

#[test]
fn calls_pass_the_fields_in_order() {
    let fields = vec![field("a", "u8"), field("b", "u8"), field("c", "u8")];
    assert_eq!(call_statement("_f", &fields, false), "_f(a, b, c, );");
    assert_eq!(call_statement("_f", &fields, true), "_f(a, b, c, ).await;");
    assert_eq!(call_statement("_g", &vec![], false), "_g();");
    assert_eq!(call_statement("_g", &vec![], true), "_g().await;");
}

#[test]
fn paths_are_written_as_string_literals() {
    assert_eq!(string_literal("tests/samples/a.csv"), "\"tests/samples/a.csv\"");
    assert_eq!(string_literal(""), "\"\"");
    assert_eq!(string_literal("C:\\data\\a b.csv"), "\"C:\\\\data\\\\a b.csv\"");
    assert_eq!(string_literal("say \"hi\".json"), "\"say \\\"hi\\\".json\"");
    assert_eq!(escape("a\nb\rc\td\0e"), "a\\nb\\rc\\td\\0e");
    assert_eq!(escape("{braces} 'quote' ünï"), "{braces} 'quote' ünï");
    let text = body(FormatKind::List, "odd \"name\"\\.list", &vec![], "_f();");
    assert!(text.contains("    let file_path = \"odd \\\"name\\\"\\\\.list\";\n"));
}

#[test]
fn the_signature_is_kept_but_for_the_name() {
    let item = ItemFn {
        attrs: vec![attribute("test", "#[test]"), attribute("inline", "#[inline]")],
        vis: "pub(super)".to_string(),
        is_const: true,
        is_async: true,
        is_unsafe: true,
        abi: "extern \"C\"".to_string(),
        name: "odd".to_string(),
        generics: "<'a, T: Clone>".to_string(),
        inputs: vec![
            Parameter::Receiver { text: "&'a mut self".to_string() },
            binding("value", "T"),
            Parameter::Variadic { text: "...".to_string() },
        ],
        output: "-> Option<&'a T>".to_string(),
        where_clause: "where T: Send".to_string(),
        block: "{ None }".to_string(),
    };
    assert_eq!(
        inner_function(&item),
        "#[inline]\npub(super) const async unsafe extern \"C\" fn _odd<'a, T: Clone>(&'a mut self, value: T, ..., ) -> Option<&'a T> where T: Send { None }\n"
    );
    let wrapper = impl_test_data_file(&item, "odd.json", FormatKind::Json);
    assert!(wrapper.starts_with("#[test]\nasync fn odd() {\n"));
    assert!(wrapper.contains("        _odd(value, ).await;\n"));
    let plain = ItemFn { name: "plain".to_string(), block: "{}".to_string(), ..Default::default() };
    assert_eq!(inner_function(&plain), "fn _plain() {}\n");
    assert_eq!(
        impl_test_data_file(&plain, "p.list", FormatKind::List).lines().next(),
        Some("fn plain() {")
    );
}

#[test]
fn a_unit_is_the_wrapper_and_the_renamed_function() {
    let properties = vec![Property::new("path", "test_me.list", FileStatus::File)];
    let unit = generate(&properties, &test_me()).unwrap();
    assert_eq!(unit.wrapper, impl_test_data_file(&test_me(), "test_me.list", FormatKind::List));
    assert_eq!(unit.inner, inner_function(&test_me()));
    assert_eq!(unit.source(), LIST_UNIT);
    assert_eq!(unit.source(), format!("{}{}", unit.wrapper, unit.inner));
    assert_eq!(
        generate(&vec![], &test_me()),
        Err(ConfigurationError::MissingPath)
    );
}
