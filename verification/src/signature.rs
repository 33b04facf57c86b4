//! The target function as the generator sees it: its attributes, its name and its
//! parameters, from which the schema of a record is read.

use vstd::prelude::*;

use crate::text::str_eq;

verus! {

/// The views of a sequence of strings.
pub open spec fn string_views(strings: Seq<String>) -> Seq<Seq<char>> {
    strings.map_values(|s: String| s@)
}

/// An attribute written above the target function.
#[derive(Clone, Debug, PartialEq, Eq)]
pub struct Attribute {
    /// Whether the attribute's path starts with `::`.
    pub leading_colon: bool,
    /// The identifiers of the attribute's path, in order.
    pub segments: Vec<String>,
    /// The attribute as written, from `#` to the closing bracket.
    pub text: String,
}

/// An attribute as the contracts see it.
pub struct AttributeView {
    pub leading_colon: bool,
    pub segments: Seq<Seq<char>>,
    pub text: Seq<char>,
}

impl View for Attribute {
    type V = AttributeView;

    open spec fn view(&self) -> AttributeView {
        AttributeView {
            leading_colon: self.leading_colon,
            segments: string_views(self.segments@),
            text: self.text@,
        }
    }
}

impl AttributeView {
    /// Whether the attribute's path is the single identifier `ident`.
    pub open spec fn is_ident(self, ident: Seq<char>) -> bool {
        !self.leading_colon && self.segments.len() == 1 && self.segments[0] == ident
    }

    /// Whether the attribute registers the function with a test runner or steers its life
    /// cycle there: `test`, `should_panic`, and every attribute of `tokio`. Such an attribute
    /// belongs on the generated wrapper and must not stay on the renamed function.
    pub open spec fn is_registration(self) -> bool {
        ||| self.is_ident("test"@)
        ||| self.is_ident("should_panic"@)
        ||| (self.segments.len() > 0 && self.segments[0] == "tokio"@)
    }
}

impl Attribute {
    /// Whether the attribute's path is the single identifier `ident`.
    pub fn is_ident(&self, ident: &str) -> (result: bool)
        ensures
            result == self@.is_ident(ident@),
    {
        !self.leading_colon && self.segments.len() == 1 && str_eq(
            self.segments[0].as_str(),
            ident,
        )
    }

    /// Whether the attribute belongs on the generated wrapper.
    pub fn is_registration(&self) -> (result: bool)
        ensures
            result == self@.is_registration(),
    {
        self.is_ident("test") || self.is_ident("should_panic") || (self.segments.len() > 0
            && str_eq(self.segments[0].as_str(), "tokio"))
    }
}

/// The views of a sequence of attributes.
pub open spec fn attribute_views(attributes: Seq<Attribute>) -> Seq<AttributeView> {
    attributes.map_values(|a: Attribute| a@)
}

/// One formal parameter of the target function.
#[derive(Clone, Debug, PartialEq, Eq)]
pub enum Parameter {
    /// A receiver such as `self` or `&mut self`, as written.
    Receiver { text: String },
    /// A parameter bound to a plain name. `pattern` is the binding as written (the name,
    /// with `mut` or `ref` where present); `ty` is the declared type as written.
    Binding { name: String, pattern: String, ty: String },
    /// A parameter bound to any other pattern.
    Pattern { pattern: String, ty: String },
    /// The dots that stand for further arguments, as written.
    Variadic { text: String },
}

/// A parameter as the contracts see it.
pub enum ParameterView {
    Receiver { text: Seq<char> },
    Binding { name: Seq<char>, pattern: Seq<char>, ty: Seq<char> },
    Pattern { pattern: Seq<char>, ty: Seq<char> },
    Variadic { text: Seq<char> },
}

impl View for Parameter {
    type V = ParameterView;

    open spec fn view(&self) -> ParameterView {
        match self {
            Parameter::Receiver { text } => ParameterView::Receiver { text: text@ },
            Parameter::Binding { name, pattern, ty } => ParameterView::Binding {
                name: name@,
                pattern: pattern@,
                ty: ty@,
            },
            Parameter::Pattern { pattern, ty } => ParameterView::Pattern {
                pattern: pattern@,
                ty: ty@,
            },
            Parameter::Variadic { text } => ParameterView::Variadic { text: text@ },
        }
    }
}

/// The views of a sequence of parameters.
pub open spec fn parameter_views(parameters: Seq<Parameter>) -> Seq<ParameterView> {
    parameters.map_values(|p: Parameter| p@)
}

/// One field of a record: the name and declared type of one parameter.
#[derive(Clone, Debug, PartialEq, Eq)]
pub struct Field {
    pub name: String,
    pub ty: String,
}

/// A field as the contracts see it.
pub struct FieldView {
    pub name: Seq<char>,
    pub ty: Seq<char>,
}

impl View for Field {
    type V = FieldView;

    open spec fn view(&self) -> FieldView {
        FieldView { name: self.name@, ty: self.ty@ }
    }
}

/// The views of a sequence of fields.
pub open spec fn field_views(fields: Seq<Field>) -> Seq<FieldView> {
    fields.map_values(|f: Field| f@)
}

/// The schema of a record: one field for each parameter bound to a plain name, in
/// declaration order. Receivers and parameters bound to other patterns give no field.
pub open spec fn spec_schema(parameters: Seq<ParameterView>) -> Seq<FieldView>
    decreases parameters.len(),
{
    if parameters.len() == 0 {
        Seq::empty()
    } else {
        let front = spec_schema(parameters.drop_last());
        match parameters.last() {
            ParameterView::Binding { name, pattern, ty } => front.push(FieldView { name, ty }),
            _ => front,
        }
    }
}

/// Reads the schema of a record off a parameter list.
pub fn extract_schema(parameters: &Vec<Parameter>) -> (fields: Vec<Field>)
    ensures
        field_views(fields@) == spec_schema(parameter_views(parameters@)),
{
    let ghost views = parameter_views(parameters@);
    let mut fields: Vec<Field> = Vec::new();
    let mut i: usize = 0;
    while i < parameters.len()
        invariant
            i <= parameters.len(),
            views == parameter_views(parameters@),
            field_views(fields@) == spec_schema(views.take(i as int)),
        decreases parameters.len() - i,
    {
        let ghost before = field_views(fields@);
        assert(views.take(i + 1).drop_last() == views.take(i as int));
        assert(views.take(i + 1).last() == parameters@[i as int]@);
        match &parameters[i] {
            Parameter::Binding { name, pattern, ty } => {
                fields.push(Field { name: name.clone(), ty: ty.clone() });
                assert(field_views(fields@) == before.push(
                    FieldView { name: name@, ty: ty@ },
                ));
            },
            _ => {},
        }
        i += 1;
    }
    assert(views.take(i as int) == views);
    fields
}

/// The target function: what the generator reads of it and what it needs to write the
/// function out again under another name. Each text is held as written and is empty where
/// the function has no such part.
#[derive(Clone, Debug, Default, PartialEq, Eq)]
pub struct ItemFn {
    /// The attributes above the function, in order.
    pub attrs: Vec<Attribute>,
    /// The visibility, such as `pub` or `pub(crate)`.
    pub vis: String,
    /// Whether the function is declared `const`.
    pub is_const: bool,
    /// Whether the function is declared `async`.
    pub is_async: bool,
    /// Whether the function is declared `unsafe`.
    pub is_unsafe: bool,
    /// The binary interface, from `extern` on.
    pub abi: String,
    /// The function's name.
    pub name: String,
    /// The generic parameters, angle brackets included.
    pub generics: String,
    /// The formal parameters, in order.
    pub inputs: Vec<Parameter>,
    /// The return type, from `->` on.
    pub output: String,
    /// The bounds on the generic parameters, from `where` on.
    pub where_clause: String,
    /// The body, braces included.
    pub block: String,
}

/// A target function as the contracts see it.
pub struct ItemFnView {
    pub attrs: Seq<AttributeView>,
    pub vis: Seq<char>,
    pub is_const: bool,
    pub is_async: bool,
    pub is_unsafe: bool,
    pub abi: Seq<char>,
    pub name: Seq<char>,
    pub generics: Seq<char>,
    pub inputs: Seq<ParameterView>,
    pub output: Seq<char>,
    pub where_clause: Seq<char>,
    pub block: Seq<char>,
}

impl View for ItemFn {
    type V = ItemFnView;

    open spec fn view(&self) -> ItemFnView {
        ItemFnView {
            attrs: attribute_views(self.attrs@),
            vis: self.vis@,
            is_const: self.is_const,
            is_async: self.is_async,
            is_unsafe: self.is_unsafe,
            abi: self.abi@,
            name: self.name@,
            generics: self.generics@,
            inputs: parameter_views(self.inputs@),
            output: self.output@,
            where_clause: self.where_clause@,
            block: self.block@,
        }
    }
}

} // verus!
