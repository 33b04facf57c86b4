//! Laws of the generated text: where the attributes go, what the schema holds, what
//! every test body holds, and that a string literal holds its value.

use vstd::prelude::*;

use crate::emit::COLLECTION;
use crate::emit::CSV_LOOP;
use crate::emit::DATA_CLOSE;
use crate::emit::DATA_OPEN;
use crate::emit::EMPTY_PANIC;
use crate::emit::FLATTEN;
use crate::emit::IF_EMPTY;
use crate::emit::LIST_LOOP;
use crate::emit::PATH_OPEN;
use crate::emit::spec_body;
use crate::emit::spec_csv_body;
use crate::emit::spec_escape;
use crate::emit::spec_escape_char;
use crate::emit::spec_field_lines;
use crate::emit::spec_list_bindings;
use crate::emit::spec_list_body;
use crate::emit::spec_name_list;
use crate::emit::spec_reader;
use crate::emit::spec_string_literal;
use crate::emit::spec_structured_body;
use crate::emit::STRUCTURED_LOOP;
use crate::emit::UNLESS_EXECUTED;
use crate::emit::VALUES_CLOSE;
use crate::emit::VALUES_OPEN;
use crate::format::FormatKind;
use crate::format::Strategy;
use crate::rewrite::spec_select;
use crate::signature::AttributeView;
use crate::signature::FieldView;
use crate::signature::ParameterView;
use crate::signature::spec_schema;
use crate::text::lemma_occurs_in_end;
use crate::text::lemma_occurs_in_longer;
use crate::text::occurs_in;

verus! {

/// No attribute is lost or doubled: each attribute of the target function goes either to
/// the wrapper, where it is a registration attribute, or stays on the renamed function,
/// where it is none.
pub proof fn lemma_select_partition(attrs: Seq<AttributeView>)
    ensures
        spec_select(attrs, true).len() + spec_select(attrs, false).len() == attrs.len(),
        forall|k: int|
            0 <= k < spec_select(attrs, true).len() ==> (#[trigger] spec_select(
                attrs,
                true,
            )[k]).is_registration(),
        forall|k: int|
            0 <= k < spec_select(attrs, false).len() ==> !(#[trigger] spec_select(
                attrs,
                false,
            )[k]).is_registration(),
        spec_select(attrs, true).to_multiset().add(spec_select(attrs, false).to_multiset())
            == attrs.to_multiset(),
    decreases attrs.len(),
{
    broadcast use vstd::seq_lib::group_to_multiset_ensures;

    if attrs.len() > 0 {
        let front = attrs.drop_last();
        lemma_select_partition(front);
        assert(front.push(attrs.last()) == attrs);
        assert(spec_select(attrs, true).to_multiset().add(
            spec_select(attrs, false).to_multiset(),
        ) =~= attrs.to_multiset());
    } else {
        assert(spec_select(attrs, true).to_multiset().add(
            spec_select(attrs, false).to_multiset(),
        ) =~= attrs.to_multiset());
    }
}

/// The schema follows the parameter list: the schema of two lists in a row is the schema
/// of the first followed by that of the second, so declaration order is kept.
pub proof fn lemma_schema_concat(first: Seq<ParameterView>, second: Seq<ParameterView>)
    ensures
        spec_schema(first + second) == spec_schema(first) + spec_schema(second),
    decreases second.len(),
{
    if second.len() == 0 {
        assert(first + second == first);
        assert(spec_schema(first) + spec_schema(second) == spec_schema(first));
    } else {
        let whole = first + second;
        assert(whole.drop_last() == first + second.drop_last());
        assert(whole.last() == second.last());
        lemma_schema_concat(first, second.drop_last());
        assert(spec_schema(whole) == spec_schema(first) + spec_schema(second));
    }
}

/// A parameter bound to a plain name gives one field, its name and its type; a receiver
/// or a parameter bound to another pattern gives none.
pub proof fn lemma_schema_single(parameter: ParameterView)
    ensures
        parameter is Binding ==> spec_schema(seq![parameter]) == seq![
            (FieldView { name: parameter->name, ty: parameter->Binding_ty }),
        ],
        !(parameter is Binding) ==> spec_schema(seq![parameter]) == Seq::<FieldView>::empty(),
{
    let one = seq![parameter];
    assert(one.drop_last().len() == 0);
    assert(one.last() == parameter);
    assert(spec_schema(one.drop_last()) == Seq::<FieldView>::empty());
    if parameter is Binding {
        let field = FieldView { name: parameter->name, ty: parameter->Binding_ty };
        assert(Seq::<FieldView>::empty().push(field) == seq![field]);
    }
}

/// The body of a generated test, of whatever kind, binds the path of its file, runs the
/// call, and holds the statement that fails a test without records with that path.
pub proof fn lemma_body_guards_empty(
    kind: FormatKind,
    path: Seq<char>,
    fields: Seq<FieldView>,
    call: Seq<char>,
)
    ensures
        occurs_in(PATH_OPEN@ + spec_string_literal(path), spec_body(kind, path, fields, call)),
        occurs_in(call, spec_body(kind, path, fields, call)),
        occurs_in(EMPTY_PANIC@, spec_body(kind, path, fields, call)),
{
    let bind = PATH_OPEN@ + spec_string_literal(path);
    match kind.spec_strategy() {
        Strategy::Csv => {
            let a = DATA_OPEN@ + spec_field_lines(fields) + DATA_CLOSE@;
            let b = a + PATH_OPEN@ + spec_string_literal(path);
            assert(b == a + bind);
            lemma_occurs_in_end(a, bind);
            let c = b + ";\n"@ + CSV_LOOP@ + spec_name_list(fields) + "} = record;\n        "@;
            lemma_occurs_in_longer(bind, b, ";\n"@);
            lemma_occurs_in_longer(bind, b + ";\n"@, CSV_LOOP@);
            lemma_occurs_in_longer(bind, b + ";\n"@ + CSV_LOOP@, spec_name_list(fields));
            lemma_occurs_in_longer(
                bind,
                b + ";\n"@ + CSV_LOOP@ + spec_name_list(fields),
                "} = record;\n        "@,
            );
            let d = c + call;
            lemma_occurs_in_longer(bind, c, call);
            lemma_occurs_in_end(c, call);
            let e = d + "\n    }\n"@ + UNLESS_EXECUTED@;
            lemma_occurs_in_longer(bind, d, "\n    }\n"@);
            lemma_occurs_in_longer(call, d, "\n    }\n"@);
            lemma_occurs_in_longer(bind, d + "\n    }\n"@, UNLESS_EXECUTED@);
            lemma_occurs_in_longer(call, d + "\n    }\n"@, UNLESS_EXECUTED@);
            lemma_occurs_in_longer(bind, e, EMPTY_PANIC@);
            lemma_occurs_in_longer(call, e, EMPTY_PANIC@);
            lemma_occurs_in_end(e, EMPTY_PANIC@);
            assert(e + EMPTY_PANIC@ == spec_csv_body(path, fields, call));
        },
        Strategy::List => {
            let a = "    use std::io::BufRead;\n"@;
            let b = a + PATH_OPEN@ + spec_string_literal(path);
            assert(b == a + bind);
            lemma_occurs_in_end(a, bind);
            let c = b + ";\n"@ + LIST_LOOP@ + spec_list_bindings(fields) + "        "@;
            lemma_occurs_in_longer(bind, b, ";\n"@);
            lemma_occurs_in_longer(bind, b + ";\n"@, LIST_LOOP@);
            lemma_occurs_in_longer(bind, b + ";\n"@ + LIST_LOOP@, spec_list_bindings(fields));
            lemma_occurs_in_longer(
                bind,
                b + ";\n"@ + LIST_LOOP@ + spec_list_bindings(fields),
                "        "@,
            );
            let d = c + call;
            lemma_occurs_in_longer(bind, c, call);
            lemma_occurs_in_end(c, call);
            let e = d + "\n    }\n"@ + UNLESS_EXECUTED@;
            lemma_occurs_in_longer(bind, d, "\n    }\n"@);
            lemma_occurs_in_longer(call, d, "\n    }\n"@);
            lemma_occurs_in_longer(bind, d + "\n    }\n"@, UNLESS_EXECUTED@);
            lemma_occurs_in_longer(call, d + "\n    }\n"@, UNLESS_EXECUTED@);
            lemma_occurs_in_longer(bind, e, EMPTY_PANIC@);
            lemma_occurs_in_longer(call, e, EMPTY_PANIC@);
            lemma_occurs_in_end(e, EMPTY_PANIC@);
            assert(e + EMPTY_PANIC@ == spec_list_body(path, fields, call));
        },
        Strategy::Structured => {
            let a = DATA_OPEN@ + spec_field_lines(fields) + DATA_CLOSE@ + COLLECTION@;
            let b = a + PATH_OPEN@ + spec_string_literal(path);
            assert(b == a + bind);
            lemma_occurs_in_end(a, bind);
            let c = b + ";\n"@ + VALUES_OPEN@ + spec_reader(kind) + VALUES_CLOSE@ + FLATTEN@
                + IF_EMPTY@;
            lemma_occurs_in_longer(bind, b, ";\n"@);
            lemma_occurs_in_longer(bind, b + ";\n"@, VALUES_OPEN@);
            lemma_occurs_in_longer(bind, b + ";\n"@ + VALUES_OPEN@, spec_reader(kind));
            lemma_occurs_in_longer(
                bind,
                b + ";\n"@ + VALUES_OPEN@ + spec_reader(kind),
                VALUES_CLOSE@,
            );
            lemma_occurs_in_longer(
                bind,
                b + ";\n"@ + VALUES_OPEN@ + spec_reader(kind) + VALUES_CLOSE@,
                FLATTEN@,
            );
            lemma_occurs_in_longer(
                bind,
                b + ";\n"@ + VALUES_OPEN@ + spec_reader(kind) + VALUES_CLOSE@ + FLATTEN@,
                IF_EMPTY@,
            );
            let d = c + EMPTY_PANIC@;
            lemma_occurs_in_longer(bind, c, EMPTY_PANIC@);
            lemma_occurs_in_end(c, EMPTY_PANIC@);
            let e = d + STRUCTURED_LOOP@ + spec_name_list(fields) + "} = test_data;\n        "@;
            lemma_occurs_in_longer(bind, d, STRUCTURED_LOOP@);
            lemma_occurs_in_longer(EMPTY_PANIC@, d, STRUCTURED_LOOP@);
            lemma_occurs_in_longer(bind, d + STRUCTURED_LOOP@, spec_name_list(fields));
            lemma_occurs_in_longer(EMPTY_PANIC@, d + STRUCTURED_LOOP@, spec_name_list(fields));
            lemma_occurs_in_longer(
                bind,
                d + STRUCTURED_LOOP@ + spec_name_list(fields),
                "} = test_data;\n        "@,
            );
            lemma_occurs_in_longer(
                EMPTY_PANIC@,
                d + STRUCTURED_LOOP@ + spec_name_list(fields),
                "} = test_data;\n        "@,
            );
            let f = e + call;
            lemma_occurs_in_longer(bind, e, call);
            lemma_occurs_in_longer(EMPTY_PANIC@, e, call);
            lemma_occurs_in_end(e, call);
            lemma_occurs_in_longer(bind, f, "\n    }\n"@);
            lemma_occurs_in_longer(EMPTY_PANIC@, f, "\n    }\n"@);
            lemma_occurs_in_longer(call, f, "\n    }\n"@);
            assert(f + "\n    }\n"@ == spec_structured_body(kind, path, fields, call));
        },
    }
}

/// The character that stands behind a backslash in a string literal.
pub open spec fn spec_escaped(c: char) -> char {
    if c == 'n' {
        '\n'
    } else if c == 'r' {
        '\r'
    } else if c == 't' {
        '\t'
    } else if c == '0' {
        '\0'
    } else {
        c
    }
}

/// The value of the inside of a string literal that holds no other escapes than those
/// that `spec_escape` writes.
pub open spec fn spec_unescape(text: Seq<char>) -> Seq<char>
    decreases text.len(),
{
    if text.len() == 0 {
        Seq::empty()
    } else if text[0] == '\\' && text.len() >= 2 {
        seq![spec_escaped(text[1])] + spec_unescape(text.skip(2))
    } else {
        seq![text[0]] + spec_unescape(text.skip(1))
    }
}

/// Escaping goes character by character: the escape of two texts in a row is the escape of
/// the first followed by that of the second.
pub proof fn lemma_escape_concat(first: Seq<char>, second: Seq<char>)
    ensures
        spec_escape(first + second) == spec_escape(first) + spec_escape(second),
    decreases second.len(),
{
    if second.len() == 0 {
        assert(first + second == first);
        assert(spec_escape(first) + spec_escape(second) == spec_escape(first));
    } else {
        let whole = first + second;
        assert(whole.drop_last() == first + second.drop_last());
        assert(whole.last() == second.last());
        lemma_escape_concat(first, second.drop_last());
        assert(spec_escape(whole) == spec_escape(first) + spec_escape(second));
    }
}

/// What stands written for one character reads back as that character.
pub proof fn lemma_unescape_char(c: char, rest: Seq<char>)
    ensures
        spec_unescape(spec_escape_char(c) + rest) == seq![c] + spec_unescape(rest),
{
    reveal_strlit("\\\\");
    reveal_strlit("\\\"");
    reveal_strlit("\\n");
    reveal_strlit("\\r");
    reveal_strlit("\\t");
    reveal_strlit("\\0");
    let written = spec_escape_char(c);
    let text = written + rest;
    if written.len() == 2 {
        assert(text[0] == '\\');
        assert(text[1] == written[1]);
        assert(text.skip(2) == rest);
    } else {
        assert(written == seq![c]);
        assert(text[0] == c);
        assert(text.skip(1) == rest);
    }
}

/// A string literal holds its value: what is written for a text reads back as that text.
pub proof fn lemma_escape_round_trip(value: Seq<char>)
    ensures
        spec_unescape(spec_escape(value)) == value,
    decreases value.len(),
{
    if value.len() > 0 {
        let first = seq![value[0]];
        let rest = value.skip(1);
        assert(first + rest == value);
        lemma_escape_concat(first, rest);
        assert(first.drop_last().len() == 0);
        assert(spec_escape(first.drop_last()) == Seq::<char>::empty());
        assert(first.last() == value[0]);
        assert(spec_escape(first) == Seq::<char>::empty() + spec_escape_char(value[0]));
        assert(spec_escape(first) == spec_escape_char(value[0]));
        lemma_unescape_char(value[0], spec_escape(rest));
        lemma_escape_round_trip(rest);
    }
}

} // verus!
