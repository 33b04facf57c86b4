use test_data_file::config::FileStatus;
use test_data_file::config::Property;
use test_data_file::records::require_records;
use test_data_file::records::Collection;
use test_data_file::signature::Attribute;
use test_data_file::signature::ItemFn;
use test_data_file::signature::Parameter;
use test_data_file::test_data_file;

const CHECK_ARRAY: &str = r#"[
    {"value": ["one"]},
    {"value": ["one", "two"]},
    {"value": ["", ""]}
]"#;

#[test]
fn test_check_array() {
    let path = "tests/samples/check_array";
    let item = ItemFn {
        attrs: vec![Attribute {
            leading_colon: false,
            segments: vec!["tokio".to_string(), "test".to_string()],
            text: "#[tokio::test]".to_string(),
        }],
        vis: String::new(),
        is_async: true,
        name: "test_check_array".to_string(),
        inputs: vec![Parameter::Binding {
            name: "value".to_string(),
            pattern: "value".to_string(),
            ty: "Vec<String>".to_string(),
        }],
        output: String::new(),
        block: "{\n    assert!(!value.is_empty());\n}".to_string(),
        ..Default::default()
    };
    let properties = vec![
        Property::new("kind", "json", FileStatus::Missing),
        Property::new("path", path, FileStatus::File),
    ];
    let text = test_data_file(&properties, &item).unwrap();
    assert!(text.starts_with("#[tokio::test]\nasync fn test_check_array() {\n"));
    assert!(text.contains("        _test_check_array(value, ).await;\n"));
    assert!(text.ends_with(
        "}\nasync fn _test_check_array(value: Vec<String>, ) {\n    assert!(!value.is_empty());\n}\n"
    ));
    assert_eq!(text.matches("#[tokio::test]").count(), 1);

    let decoded: serde_json::Value = serde_json::from_str(CHECK_ARRAY).unwrap();
    let values: Vec<Vec<String>> = decoded
        .as_array()
        .unwrap()
        .iter()
        .map(|record| {
            record["value"]
                .as_array()
                .unwrap()
                .iter()
                .map(|item| item.as_str().unwrap().to_string())
                .collect()
        })
        .collect();
    let records = require_records(Collection::Index(values).into_records(), path).unwrap();
    assert_eq!(records.len(), 3);
    for value in records {
        assert!(!value.is_empty());
    }
}
