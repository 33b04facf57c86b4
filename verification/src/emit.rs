//! The code emitters: for each kind of data file, the source text of a test that reads the
//! file, decodes it into records and calls the target function once per record.

use vstd::prelude::*;

use crate::format::FormatKind;
use crate::format::Strategy;
use crate::signature::field_views;
use crate::signature::Field;
use crate::signature::FieldView;
use crate::text::chars_of;

verus! {

/// Opens the declaration of the record type.
pub const DATA_OPEN: &'static str =
    "    #[derive(Debug, serde::Deserialize)]\n    struct _Data {\n";

/// Closes the declaration of the record type.
pub const DATA_CLOSE: &'static str = "    }\n";

/// The two shapes a structured file may have: an array of records, or a mapping onto records.
pub const COLLECTION: &'static str =
    "    #[derive(Debug, serde::Deserialize)]\n    #[serde(untagged)]\n    enum Collection {\n        Index(Vec<_Data>),\n        Map(std::collections::HashMap<String, _Data>),\n    }\n";

/// Binds the path of the data file.
pub const PATH_OPEN: &'static str = "    let file_path = ";

/// Opens the loop over the rows of a CSV file, up to the fields of the record pattern.
pub const CSV_LOOP: &'static str =
    "    let mut rdr = csv::ReaderBuilder::new().from_path(file_path).unwrap();\n    let mut executed = false;\n    for result in rdr.deserialize() {\n        let record: _Data = result.unwrap();\n        executed = true;\n        let _Data { ";

/// Opens the loop over the lines of a list file: the first line is skipped, every other
/// line is split into its columns.
pub const LIST_LOOP: &'static str =
    "    let f = std::fs::File::open(file_path).unwrap();\n    let lines = std::io::BufReader::new(f).lines();\n    let mut executed = false;\n    for (n, line) in lines.enumerate() {\n        if n == 0 {\n            continue;\n        }\n        executed = true;\n        let line = line.unwrap();\n        let mut iter = line.split_whitespace();\n        let mut column = 0;\n";

/// Takes the next column of a list line.
pub const LIST_NEXT: &'static str = "        let field = iter.next().unwrap();\n        let ";

/// Parses the column into the parameter's type, or fails with the row, the column and the
/// path.
pub const LIST_PARSE: &'static str =
    " = field.parse().map_err(|e| format!(\"Invalid value in row={n} column={column} {file_path} {e}\")).unwrap();\n        column += 1;\n";

/// Tests whether the loop over the records ever ran.
pub const UNLESS_EXECUTED: &'static str = "    if !executed {\n";

/// Tests whether there is any record.
pub const IF_EMPTY: &'static str = "    if values.is_empty() {\n";

/// Fails a test without records, with the path of its file.
pub const EMPTY_PANIC: &'static str =
    "        panic!(\"Empty test data provided in {file_path}\");\n    }\n";

/// Opens the decoding of a structured file.
pub const VALUES_OPEN: &'static str = "    let values: Collection = ";

/// Fails a test whose file cannot be decoded, with the path and the decoder's error.
pub const VALUES_CLOSE: &'static str =
    ".map_err(|e| format!(\"Failed to load data in {file_path} {e}\")).unwrap();\n";

/// Flattens the collection into the sequence of its records.
pub const FLATTEN: &'static str =
    "    let values = match values {\n        Collection::Index(v) => v,\n        Collection::Map(m) => m.into_iter().map(|(_, v)| v).collect(),\n    };\n";

/// Opens the loop over the records of a structured file, up to the fields of the record
/// pattern.
pub const STRUCTURED_LOOP: &'static str =
    "    for test_data in values {\n        let _Data { ";

/// Opens the data file for a decoder that reads from a stream.
pub const OPEN_FILE: &'static str = "(std::fs::File::open(file_path).unwrap())";

/// Reads the data file for a decoder that reads from text.
pub const READ_FILE: &'static str = "(&std::fs::read_to_string(file_path).unwrap())";

/// How one character is written inside a string literal.
pub open spec fn spec_escape_char(c: char) -> Seq<char> {
    if c == '\\' {
        "\\\\"@
    } else if c == '"' {
        "\\\""@
    } else if c == '\n' {
        "\\n"@
    } else if c == '\r' {
        "\\r"@
    } else if c == '\t' {
        "\\t"@
    } else if c == '\0' {
        "\\0"@
    } else {
        seq![c]
    }
}

/// How a text is written inside a string literal: each character escaped, in order.
pub open spec fn spec_escape(value: Seq<char>) -> Seq<char>
    decreases value.len(),
{
    if value.len() == 0 {
        Seq::empty()
    } else {
        spec_escape(value.drop_last()) + spec_escape_char(value.last())
    }
}

/// The string literal whose value is `value`.
pub open spec fn spec_string_literal(value: Seq<char>) -> Seq<char> {
    "\""@ + spec_escape(value) + "\""@
}

/// The declarations of the record's fields, one per line.
pub open spec fn spec_field_lines(fields: Seq<FieldView>) -> Seq<char>
    decreases fields.len(),
{
    if fields.len() == 0 {
        Seq::empty()
    } else {
        spec_field_lines(fields.drop_last()) + "        "@ + fields.last().name + ": "@
            + fields.last().ty + ",\n"@
    }
}

/// The names of the record's fields in schema order, each followed by a comma.
pub open spec fn spec_name_list(fields: Seq<FieldView>) -> Seq<char>
    decreases fields.len(),
{
    if fields.len() == 0 {
        Seq::empty()
    } else {
        spec_name_list(fields.drop_last()) + fields.last().name + ", "@
    }
}

/// The statements that bind the columns of a list line to the fields, in schema order.
pub open spec fn spec_list_bindings(fields: Seq<FieldView>) -> Seq<char>
    decreases fields.len(),
{
    if fields.len() == 0 {
        Seq::empty()
    } else {
        spec_list_bindings(fields.drop_last()) + LIST_NEXT@ + fields.last().name + LIST_PARSE@
    }
}

/// The call of the function `callee` with the record's fields as positional arguments,
/// awaited where the function is asynchronous.
pub open spec fn spec_call(callee: Seq<char>, fields: Seq<FieldView>, is_async: bool) -> Seq<
    char,
> {
    callee + "("@ + spec_name_list(fields) + ")"@ + (if is_async {
        ".await"@
    } else {
        ""@
    }) + ";"@
}

/// The expression that decodes a structured file of the given kind.
pub open spec fn spec_reader(kind: FormatKind) -> Seq<char> {
    match kind {
        FormatKind::Json | FormatKind::Yaml => "serde_"@ + kind.spec_name() + "::from_reader"@
            + OPEN_FILE@,
        FormatKind::Toml => kind.spec_name() + "::from_str"@ + READ_FILE@,
        _ => kind.spec_name() + "::de::from_reader"@ + OPEN_FILE@,
    }
}

/// The body of a test over a CSV file.
pub open spec fn spec_csv_body(path: Seq<char>, fields: Seq<FieldView>, call: Seq<char>) -> Seq<
    char,
> {
    DATA_OPEN@ + spec_field_lines(fields) + DATA_CLOSE@ + PATH_OPEN@ + spec_string_literal(path)
        + ";\n"@ + CSV_LOOP@ + spec_name_list(fields) + "} = record;\n        "@ + call
        + "\n    }\n"@ + UNLESS_EXECUTED@ + EMPTY_PANIC@
}

/// The body of a test over a list file.
pub open spec fn spec_list_body(path: Seq<char>, fields: Seq<FieldView>, call: Seq<char>) -> Seq<
    char,
> {
    "    use std::io::BufRead;\n"@ + PATH_OPEN@ + spec_string_literal(path) + ";\n"@ + LIST_LOOP@
        + spec_list_bindings(fields) + "        "@ + call + "\n    }\n"@ + UNLESS_EXECUTED@
        + EMPTY_PANIC@
}

/// The body of a test over a structured file of the given kind.
pub open spec fn spec_structured_body(
    kind: FormatKind,
    path: Seq<char>,
    fields: Seq<FieldView>,
    call: Seq<char>,
) -> Seq<char> {
    DATA_OPEN@ + spec_field_lines(fields) + DATA_CLOSE@ + COLLECTION@ + PATH_OPEN@
        + spec_string_literal(path) + ";\n"@ + VALUES_OPEN@ + spec_reader(kind) + VALUES_CLOSE@
        + FLATTEN@ + IF_EMPTY@ + EMPTY_PANIC@ + STRUCTURED_LOOP@ + spec_name_list(fields)
        + "} = test_data;\n        "@ + call + "\n    }\n"@
}

/// The body of a test over a file of the given kind.
pub open spec fn spec_body(
    kind: FormatKind,
    path: Seq<char>,
    fields: Seq<FieldView>,
    call: Seq<char>,
) -> Seq<char> {
    match kind.spec_strategy() {
        Strategy::Csv => spec_csv_body(path, fields, call),
        Strategy::List => spec_list_body(path, fields, call),
        Strategy::Structured => spec_structured_body(kind, path, fields, call),
    }
}

/// Writes `value` as it stands inside a string literal.
pub fn escape(value: &str) -> (out: String)
    ensures
        out@ == spec_escape(value@),
{
    let chars = chars_of(value);
    let mut out = String::new();
    let mut i: usize = 0;
    while i < chars.len()
        invariant
            i <= chars.len(),
            chars@ == value@,
            out@ == spec_escape(chars@.take(i as int)),
        decreases chars.len() - i,
    {
        let c = chars[i];
        assert(chars@.take(i + 1).drop_last() == chars@.take(i as int));
        assert(chars@.take(i + 1).last() == c);
        if c == '\\' {
            out.append("\\\\");
        } else if c == '"' {
            out.append("\\\"");
        } else if c == '\n' {
            out.append("\\n");
        } else if c == '\r' {
            out.append("\\r");
        } else if c == '\t' {
            out.append("\\t");
        } else if c == '\0' {
            out.append("\\0");
        } else {
            let ghost before = out@;
            out.push(c);
            assert(before.push(c) == before + seq![c]);
        }
        i += 1;
    }
    assert(chars@.take(i as int) == chars@);
    out
}

/// Writes the string literal whose value is `value`.
pub fn string_literal(value: &str) -> (out: String)
    ensures
        out@ == spec_string_literal(value@),
{
    let mut out = "\"".to_owned();
    out.append(escape(value).as_str());
    out.append("\"");
    out
}

fn field_lines(fields: &Vec<Field>) -> (out: String)
    ensures
        out@ == spec_field_lines(field_views(fields@)),
{
    let ghost views = field_views(fields@);
    let mut out = String::new();
    let mut i: usize = 0;
    while i < fields.len()
        invariant
            i <= fields.len(),
            views == field_views(fields@),
            out@ == spec_field_lines(views.take(i as int)),
        decreases fields.len() - i,
    {
        assert(views.take(i + 1).drop_last() == views.take(i as int));
        assert(views.take(i + 1).last() == fields@[i as int]@);
        out.append("        ");
        out.append(fields[i].name.as_str());
        out.append(": ");
        out.append(fields[i].ty.as_str());
        out.append(",\n");
        i += 1;
    }
    assert(views.take(i as int) == views);
    out
}

fn name_list(fields: &Vec<Field>) -> (out: String)
    ensures
        out@ == spec_name_list(field_views(fields@)),
{
    let ghost views = field_views(fields@);
    let mut out = String::new();
    let mut i: usize = 0;
    while i < fields.len()
        invariant
            i <= fields.len(),
            views == field_views(fields@),
            out@ == spec_name_list(views.take(i as int)),
        decreases fields.len() - i,
    {
        assert(views.take(i + 1).drop_last() == views.take(i as int));
        assert(views.take(i + 1).last() == fields@[i as int]@);
        out.append(fields[i].name.as_str());
        out.append(", ");
        i += 1;
    }
    assert(views.take(i as int) == views);
    out
}

fn list_bindings(fields: &Vec<Field>) -> (out: String)
    ensures
        out@ == spec_list_bindings(field_views(fields@)),
{
    let ghost views = field_views(fields@);
    let mut out = String::new();
    let mut i: usize = 0;
    while i < fields.len()
        invariant
            i <= fields.len(),
            views == field_views(fields@),
            out@ == spec_list_bindings(views.take(i as int)),
        decreases fields.len() - i,
    {
        assert(views.take(i + 1).drop_last() == views.take(i as int));
        assert(views.take(i + 1).last() == fields@[i as int]@);
        out.append(LIST_NEXT);
        out.append(fields[i].name.as_str());
        out.append(LIST_PARSE);
        i += 1;
    }
    assert(views.take(i as int) == views);
    out
}

/// Writes the call of `callee` with the record's fields as positional arguments.
pub fn call_statement(callee: &str, fields: &Vec<Field>, is_async: bool) -> (out: String)
    ensures
        out@ == spec_call(callee@, field_views(fields@), is_async),
{
    let mut out = callee.to_owned();
    out.append("(");
    out.append(name_list(fields).as_str());
    out.append(")");
    out.append(
        if is_async {
            ".await"
        } else {
            ""
        },
    );
    out.append(";");
    out
}

fn reader(kind: FormatKind) -> (out: String)
    ensures
        out@ == spec_reader(kind),
{
    match kind {
        FormatKind::Json | FormatKind::Yaml => {
            let mut out = "serde_".to_owned();
            out.append(kind.name());
            out.append("::from_reader");
            out.append(OPEN_FILE);
            out
        },
        FormatKind::Toml => {
            let mut out = kind.name().to_owned();
            out.append("::from_str");
            out.append(READ_FILE);
            out
        },
        _ => {
            let mut out = kind.name().to_owned();
            out.append("::de::from_reader");
            out.append(OPEN_FILE);
            out
        },
    }
}

fn csv_body(path: &str, fields: &Vec<Field>, call: &str) -> (out: String)
    ensures
        out@ == spec_csv_body(path@, field_views(fields@), call@),
{
    let mut out = DATA_OPEN.to_owned();
    out.append(field_lines(fields).as_str());
    out.append(DATA_CLOSE);
    out.append(PATH_OPEN);
    out.append(string_literal(path).as_str());
    out.append(";\n");
    out.append(CSV_LOOP);
    out.append(name_list(fields).as_str());
    out.append("} = record;\n        ");
    out.append(call);
    out.append("\n    }\n");
    out.append(UNLESS_EXECUTED);
    out.append(EMPTY_PANIC);
    out
}

fn list_body(path: &str, fields: &Vec<Field>, call: &str) -> (out: String)
    ensures
        out@ == spec_list_body(path@, field_views(fields@), call@),
{
    let mut out = "    use std::io::BufRead;\n".to_owned();
    out.append(PATH_OPEN);
    out.append(string_literal(path).as_str());
    out.append(";\n");
    out.append(LIST_LOOP);
    out.append(list_bindings(fields).as_str());
    out.append("        ");
    out.append(call);
    out.append("\n    }\n");
    out.append(UNLESS_EXECUTED);
    out.append(EMPTY_PANIC);
    out
}

fn structured_body(kind: FormatKind, path: &str, fields: &Vec<Field>, call: &str) -> (out: String)
    ensures
        out@ == spec_structured_body(kind, path@, field_views(fields@), call@),
{
    let mut out = DATA_OPEN.to_owned();
    out.append(field_lines(fields).as_str());
    out.append(DATA_CLOSE);
    out.append(COLLECTION);
    out.append(PATH_OPEN);
    out.append(string_literal(path).as_str());
    out.append(";\n");
    out.append(VALUES_OPEN);
    out.append(reader(kind).as_str());
    out.append(VALUES_CLOSE);
    out.append(FLATTEN);
    out.append(IF_EMPTY);
    out.append(EMPTY_PANIC);
    out.append(STRUCTURED_LOOP);
    out.append(name_list(fields).as_str());
    out.append("} = test_data;\n        ");
    out.append(call);
    out.append("\n    }\n");
    out
}

/// Writes the body of a test over a file of the given kind: the statements that read the
/// file at `path`, decode it into records of the given fields, fail where there is no
/// record, and run `call` once per record.
pub fn body(kind: FormatKind, path: &str, fields: &Vec<Field>, call: &str) -> (out: String)
    ensures
        out@ == spec_body(kind, path@, field_views(fields@), call@),
{
    match kind.strategy() {
        Strategy::Csv => csv_body(path, fields, call),
        Strategy::List => list_body(path, fields, call),
        Strategy::Structured => structured_body(kind, path, fields, call),
    }
}

} // verus!
