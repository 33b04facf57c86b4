use test_data_file::config::FileStatus;
use test_data_file::config::Property;
use test_data_file::mapping::Mapping;
use test_data_file::records::invalid_value_message;
use test_data_file::records::list_records;
use test_data_file::records::load_failure_message;
use test_data_file::records::require_records;
use test_data_file::records::Collection;
use test_data_file::signature::Attribute;
use test_data_file::signature::ItemFn;
use test_data_file::signature::Parameter;
use test_data_file::test_data_file;

const LIST: &str = "name max_size is_above
None 0 false
None 10 false
Ann 2 true
Ann 3 false
Bartholomew 10 true
Bartholomew 11 false
";

const YAML: &str = "- name: Ann
  max_size: 2
  is_above: true
- name: Ann
  max_size: 3
  is_above: false
- name: null
  max_size: 0
  is_above: false
- max_size: 10
  is_above: false
- name: Bartholomew
  max_size: 10
  is_above: true
";

const JSON: &str = r#"[
    {"name": "Ann", "max_size": 2, "is_above": true},
    {"name": "Ann", "max_size": 3, "is_above": false},
    {"name": null, "max_size": 0, "is_above": false},
    {"max_size": 10, "is_above": false},
    {"name": "Bartholomew", "max_size": 10, "is_above": true}
]"#;

const RON: &str = r#"[
    (name: Some("Ann"), max_size: 2, is_above: true),
    (name: Some("Ann"), max_size: 3, is_above: false),
    (name: None, max_size: 0, is_above: false),
    (max_size: 10, is_above: false),
    (name: Some("Bartholomew"), max_size: 10, is_above: true),
]"#;

const TOML: &str = r#"[short]
name = "Ann"
max_size = 2
is_above = true

[exact]
name = "Ann"
max_size = 3
is_above = false

[nameless]
max_size = 10
is_above = false

[long]
name = "Bartholomew"
max_size = 10
is_above = true
"#;

const CSV: &str = "name,max_size,is_above
Ann,2,true
Ann,3,false
,0,false
,10,false
Bartholomew,10,true
";

struct Data {
    name: Option<String>,
    max_size: usize,
    is_above: bool,
}

fn is_name_above_max_size(name: Option<&str>, max_size: usize) -> bool {
    name.map(|n| n.len()) > Some(max_size)
}

/// The annotated function as the generator sees it.
fn target(name: &str, name_type: &str) -> ItemFn {
    let binding = |name: &str, ty: &str| Parameter::Binding {
        name: name.to_string(),
        pattern: name.to_string(),
        ty: ty.to_string(),
    };
    ItemFn {
        attrs: vec![Attribute {
            leading_colon: false,
            segments: vec!["test".to_string()],
            text: "#[test]".to_string(),
        }],
        vis: String::new(),
        is_async: false,
        name: name.to_string(),
        inputs: vec![
            binding("name", name_type),
            binding("max_size", "usize"),
            binding("is_above", "bool"),
        ],
        output: String::new(),
        block: "{\n    assert_eq!(\n        is_name_above_max_size(name.as_deref(), max_size),\n        is_above,\n        \"failed for {max_size}\"\n    );\n}".to_string(),
        ..Default::default()
    }
}

/// Generates the test for `name` over the file at `path` and checks the frame that every
/// kind shares; hands back the generated text.
fn generate(name: &str, name_type: &str, path: &str) -> String {
    let properties = vec![Property::new("path", path, FileStatus::File)];
    let text = test_data_file(&properties, &target(name, name_type)).unwrap();
    assert!(text.starts_with(&format!("#[test]\nfn {name}() {{\n")));
    assert!(text.contains(&format!("    let file_path = \"{path}\";\n")));
    assert!(text.contains(&format!("        _{name}(name, max_size, is_above, );\n")));
    assert!(text.contains("panic!(\"Empty test data provided in {file_path}\");"));
    assert!(text.contains(&format!(
        "}}\nfn _{name}(name: {name_type}, max_size: usize, is_above: bool, ) {{\n"
    )));
    assert_eq!(text.matches("#[test]").count(), 1);
    text
}

fn assert_data(data: Data) {
    let Data { name, max_size, is_above } = data;
    assert_eq!(
        is_name_above_max_size(name.as_deref(), max_size),
        is_above,
        "failed for {max_size}"
    );
}

/// Runs the records as the generated test does: none is a failure, each is one call.
fn run(collection: Collection<Data>, path: &str) -> usize {
    let records = require_records(collection.into_records(), path).unwrap();
    let count = records.len();
    for data in records {
        assert_data(data);
    }
    count
}

#[test]
fn test_test_me_with_list() {
    let path = "tests/samples/test_me.list";
    let text = generate("test_test_me_with_list", "String", path);
    assert!(text.contains("let mut iter = line.split_whitespace();"));
    assert_eq!(text.matches("let field = iter.next().unwrap();").count(), 3);

    let records = require_records(list_records(LIST), path).unwrap();
    assert_eq!(records.len(), 6);
    for record in records {
        let row = record.row;
        let fields = record.arguments(3).unwrap();
        let name: String = fields[0]
            .parse()
            .map_err(|e: std::convert::Infallible| invalid_value_message(row, 0, path, &e.to_string()))
            .unwrap();
        let max_size: usize = fields[1]
            .parse()
            .map_err(|e: std::num::ParseIntError| invalid_value_message(row, 1, path, &e.to_string()))
            .unwrap();
        let is_above: bool = fields[2]
            .parse()
            .map_err(|e: std::str::ParseBoolError| invalid_value_message(row, 2, path, &e.to_string()))
            .unwrap();
        let name = if name == "None" {
            None
        } else {
            name.as_str().into()
        };
        assert_eq!(
            is_name_above_max_size(name, max_size),
            is_above,
            "failed for {max_size}"
        );
    }
}

#[test]
fn test_test_me_with_yaml() {
    let path = "tests/samples/test_me.yaml";
    let text = generate("test_test_me_with_yaml", "Option<String>", path);
    assert!(text.contains(
        "let values: Collection = serde_yaml::from_reader(std::fs::File::open(file_path).unwrap())"
    ));

    let data = |value: &serde_yaml::Value| Data {
        name: value.get("name").and_then(|name| name.as_str()).map(|name| name.to_string()),
        max_size: value["max_size"].as_u64().unwrap() as usize,
        is_above: value["is_above"].as_bool().unwrap(),
    };
    let decoded: serde_yaml::Value = serde_yaml::from_str(YAML)
        .map_err(|e| load_failure_message(path, &e.to_string()))
        .unwrap();
    let collection = match decoded {
        serde_yaml::Value::Sequence(items) => Collection::Index(items.iter().map(data).collect()),
        serde_yaml::Value::Mapping(entries) => Collection::Keyed(Mapping::from_entries(
            entries.iter().map(|(key, value)| (key.as_str().unwrap().to_string(), data(value))).collect(),
        )),
        other => panic!("{}", load_failure_message(path, &format!("{other:?}"))),
    };
    assert_eq!(run(collection, path), 5);
}

#[test]
fn test_test_me_with_json() {
    let path = "tests/samples/test_me.json";
    let text = generate("test_test_me_with_json", "Option<String>", path);
    assert!(text.contains(
        "let values: Collection = serde_json::from_reader(std::fs::File::open(file_path).unwrap())"
    ));

    let data = |value: &serde_json::Value| Data {
        name: value.get("name").and_then(|name| name.as_str()).map(|name| name.to_string()),
        max_size: value["max_size"].as_u64().unwrap() as usize,
        is_above: value["is_above"].as_bool().unwrap(),
    };
    let decoded: serde_json::Value = serde_json::from_str(JSON)
        .map_err(|e| load_failure_message(path, &e.to_string()))
        .unwrap();
    let collection = match decoded {
        serde_json::Value::Array(items) => Collection::Index(items.iter().map(data).collect()),
        serde_json::Value::Object(entries) => Collection::Keyed(Mapping::from_entries(
            entries.iter().map(|(key, value)| (key.clone(), data(value))).collect(),
        )),
        other => panic!("{}", load_failure_message(path, &other.to_string())),
    };
    assert_eq!(run(collection, path), 5);
}

#[test]
fn test_test_me_with_ron() {
    let path = "tests/samples/test_me.ron";
    let text = generate("test_test_me_with_ron", "Option<String>", path);
    assert!(text.contains(
        "let values: Collection = ron::de::from_reader(std::fs::File::open(file_path).unwrap())"
    ));

    let field = |value: &ron::Value, name: &str| match value {
        ron::Value::Map(fields) => fields.get(&ron::Value::String(name.to_string())).cloned(),
        _ => None,
    };
    let data = |value: &ron::Value| Data {
        name: match field(value, "name") {
            Some(ron::Value::Option(Some(name))) => match *name {
                ron::Value::String(name) => Some(name),
                other => panic!("{other:?}"),
            },
            Some(ron::Value::Option(None)) | None => None,
            Some(other) => panic!("{other:?}"),
        },
        max_size: match field(value, "max_size") {
            Some(ron::Value::Number(number)) => number.into_f64() as usize,
            other => panic!("{other:?}"),
        },
        is_above: match field(value, "is_above") {
            Some(ron::Value::Bool(is_above)) => is_above,
            other => panic!("{other:?}"),
        },
    };
    let decoded: ron::Value = ron::from_str(RON)
        .map_err(|e| load_failure_message(path, &e.to_string()))
        .unwrap();
    let collection = match decoded {
        ron::Value::Seq(items) => Collection::Index(items.iter().map(data).collect()),
        ron::Value::Map(entries) => Collection::Keyed(Mapping::from_entries(
            entries
                .iter()
                .map(|(key, value)| match key {
                    ron::Value::String(key) => (key.clone(), data(value)),
                    other => panic!("{other:?}"),
                })
                .collect(),
        )),
        other => panic!("{}", load_failure_message(path, &format!("{other:?}"))),
    };
    assert_eq!(run(collection, path), 5);
}

#[test]
fn test_test_me_with_toml() {
    let path = "tests/samples/test_me.toml";
    let text = generate("test_test_me_with_toml", "Option<String>", path);
    assert!(text.contains(
        "let values: Collection = toml::from_str(&std::fs::read_to_string(file_path).unwrap())"
    ));

    let data = |value: &toml::Value| Data {
        name: value.get("name").and_then(|name| name.as_str()).map(|name| name.to_string()),
        max_size: value["max_size"].as_integer().unwrap() as usize,
        is_above: value["is_above"].as_bool().unwrap(),
    };
    let decoded: toml::Table = toml::from_str(TOML)
        .map_err(|e| load_failure_message(path, &e.to_string()))
        .unwrap();
    let collection = Collection::Keyed(Mapping::from_entries(
        decoded.iter().map(|(key, value)| (key.clone(), data(value))).collect(),
    ));
    assert_eq!(run(collection, path), 4);
}

#[test]
fn test_test_me_with_csv() {
    let path = "tests/samples/test_me.csv";
    let text = generate("test_test_me_with_csv", "Option<String>", path);
    assert!(text.contains("let mut rdr = csv::ReaderBuilder::new().from_path(file_path).unwrap();"));

    let mut rdr = csv::ReaderBuilder::new().from_reader(CSV.as_bytes());
    let headers = rdr.headers().unwrap().clone();
    let column = |name: &str| headers.iter().position(|header| header == name).unwrap();
    let (name, max_size, is_above) = (column("name"), column("max_size"), column("is_above"));
    let mut records = Vec::new();
    for result in rdr.records() {
        let record = result.unwrap();
        records.push(Data {
            name: if record[name].is_empty() { None } else { Some(record[name].to_string()) },
            max_size: record[max_size].parse().unwrap(),
            is_above: record[is_above].parse().unwrap(),
        });
    }
    assert_eq!(run(Collection::Index(records), path), 5);
}
