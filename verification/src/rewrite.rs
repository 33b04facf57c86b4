//! The function rewriter: the target function written out again under a derived name, with
//! the attributes that belong to the generated wrapper taken off it.

use vstd::prelude::*;

use crate::signature::attribute_views;
use crate::signature::parameter_views;
use crate::signature::Attribute;
use crate::signature::AttributeView;
use crate::signature::ItemFn;
use crate::signature::ItemFnView;
use crate::signature::Parameter;
use crate::signature::ParameterView;

verus! {

/// The name under which the target function is kept: its own name behind an underscore.
pub open spec fn spec_inner_name(name: Seq<char>) -> Seq<char> {
    "_"@ + name
}

/// The attributes that are registration attributes (`registration` true) or that are not
/// (`registration` false), in the order in which they stand above the function.
pub open spec fn spec_select(attrs: Seq<AttributeView>, registration: bool) -> Seq<AttributeView>
    decreases attrs.len(),
{
    if attrs.len() == 0 {
        Seq::empty()
    } else {
        let front = spec_select(attrs.drop_last(), registration);
        if attrs.last().is_registration() == registration {
            front.push(attrs.last())
        } else {
            front
        }
    }
}

/// The attributes as written, one per line.
pub open spec fn spec_attribute_lines(attrs: Seq<AttributeView>) -> Seq<char>
    decreases attrs.len(),
{
    if attrs.len() == 0 {
        Seq::empty()
    } else {
        spec_attribute_lines(attrs.drop_last()) + attrs.last().text + "\n"@
    }
}

/// One formal parameter as written.
pub open spec fn spec_parameter(parameter: ParameterView) -> Seq<char> {
    match parameter {
        ParameterView::Receiver { text } => text,
        ParameterView::Binding { name, pattern, ty } => pattern + ": "@ + ty,
        ParameterView::Pattern { pattern, ty } => pattern + ": "@ + ty,
        ParameterView::Variadic { text } => text,
    }
}

/// The formal parameters as written, each followed by a comma.
pub open spec fn spec_parameter_list(parameters: Seq<ParameterView>) -> Seq<char>
    decreases parameters.len(),
{
    if parameters.len() == 0 {
        Seq::empty()
    } else {
        spec_parameter_list(parameters.drop_last()) + spec_parameter(parameters.last()) + ", "@
    }
}

/// A part of a signature followed by the space that parts it from the next; nothing where
/// the part is absent.
pub open spec fn spec_word(part: Seq<char>) -> Seq<char> {
    if part.len() == 0 {
        part
    } else {
        part + " "@
    }
}

/// A keyword of a signature followed by a space; nothing where the keyword is absent.
pub open spec fn spec_keyword(present: bool, keyword: Seq<char>) -> Seq<char> {
    if present {
        keyword + " "@
    } else {
        Seq::empty()
    }
}

/// The target function under its derived name: the attributes that are no registration
/// attributes, then the signature and the body as they were, but for the name.
pub open spec fn spec_inner(item: ItemFnView) -> Seq<char> {
    spec_attribute_lines(spec_select(item.attrs, false)) + spec_word(item.vis) + spec_keyword(
        item.is_const,
        "const"@,
    ) + spec_keyword(item.is_async, "async"@) + spec_keyword(item.is_unsafe, "unsafe"@)
        + spec_word(item.abi) + "fn "@ + spec_inner_name(item.name) + item.generics + "("@
        + spec_parameter_list(item.inputs) + ") "@ + spec_word(item.output) + spec_word(
        item.where_clause,
    ) + item.block + "\n"@
}

/// Writes the name under which the target function is kept.
pub fn inner_name(name: &str) -> (out: String)
    ensures
        out@ == spec_inner_name(name@),
{
    let mut out = "_".to_owned();
    out.append(name);
    out
}

/// Writes the attributes that are registration attributes, or those that are not, one per
/// line and in the order in which they stand above the function.
pub fn attribute_lines(attrs: &Vec<Attribute>, registration: bool) -> (out: String)
    ensures
        out@ == spec_attribute_lines(spec_select(attribute_views(attrs@), registration)),
{
    let ghost views = attribute_views(attrs@);
    let mut out = String::new();
    let mut i: usize = 0;
    while i < attrs.len()
        invariant
            i <= attrs.len(),
            views == attribute_views(attrs@),
            out@ == spec_attribute_lines(spec_select(views.take(i as int), registration)),
        decreases attrs.len() - i,
    {
        let ghost before = spec_select(views.take(i as int), registration);
        assert(views.take(i + 1).drop_last() == views.take(i as int));
        assert(views.take(i + 1).last() == attrs@[i as int]@);
        if attrs[i].is_registration() == registration {
            assert(before.push(attrs@[i as int]@).drop_last() == before);
            out.append(attrs[i].text.as_str());
            out.append("\n");
        }
        i += 1;
    }
    assert(views.take(i as int) == views);
    out
}

fn parameter_text(parameter: &Parameter) -> (out: String)
    ensures
        out@ == spec_parameter(parameter@),
{
    match parameter {
        Parameter::Receiver { text } => text.clone(),
        Parameter::Binding { name, pattern, ty } => {
            let mut out = pattern.clone();
            out.append(": ");
            out.append(ty.as_str());
            out
        },
        Parameter::Pattern { pattern, ty } => {
            let mut out = pattern.clone();
            out.append(": ");
            out.append(ty.as_str());
            out
        },
        Parameter::Variadic { text } => text.clone(),
    }
}

fn parameter_list(parameters: &Vec<Parameter>) -> (out: String)
    ensures
        out@ == spec_parameter_list(parameter_views(parameters@)),
{
    let ghost views = parameter_views(parameters@);
    let mut out = String::new();
    let mut i: usize = 0;
    while i < parameters.len()
        invariant
            i <= parameters.len(),
            views == parameter_views(parameters@),
            out@ == spec_parameter_list(views.take(i as int)),
        decreases parameters.len() - i,
    {
        assert(views.take(i + 1).drop_last() == views.take(i as int));
        assert(views.take(i + 1).last() == parameters@[i as int]@);
        out.append(parameter_text(&parameters[i]).as_str());
        out.append(", ");
        i += 1;
    }
    assert(views.take(i as int) == views);
    out
}

fn word(part: &str) -> (out: String)
    ensures
        out@ == spec_word(part@),
{
    let mut out = part.to_owned();
    if !part.is_empty() {
        out.append(" ");
    }
    out
}

pub(crate) fn keyword(present: bool, name: &str) -> (out: String)
    ensures
        out@ == spec_keyword(present, name@),
{
    if present {
        let mut out = name.to_owned();
        out.append(" ");
        out
    } else {
        String::new()
    }
}

/// Writes the target function out under its derived name, without its registration
/// attributes and otherwise as it was.
pub fn inner_function(item: &ItemFn) -> (out: String)
    ensures
        out@ == spec_inner(item@),
{
    let mut out = attribute_lines(&item.attrs, false);
    out.append(word(item.vis.as_str()).as_str());
    out.append(keyword(item.is_const, "const").as_str());
    out.append(keyword(item.is_async, "async").as_str());
    out.append(keyword(item.is_unsafe, "unsafe").as_str());
    out.append(word(item.abi.as_str()).as_str());
    out.append("fn ");
    out.append(inner_name(item.name.as_str()).as_str());
    out.append(item.generics.as_str());
    out.append("(");
    out.append(parameter_list(&item.inputs).as_str());
    out.append(") ");
    out.append(word(item.output.as_str()).as_str());
    out.append(word(item.where_clause.as_str()).as_str());
    out.append(item.block.as_str());
    out.append("\n");
    out
}

} // verus!
