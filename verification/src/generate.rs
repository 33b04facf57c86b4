//! The generator: from a configuration and a target function to the source text of the
//! data-driven test.

use vstd::prelude::*;

use crate::config::configure;
use crate::config::property_views;
use crate::config::spec_configure;
use crate::config::ConfigurationError;
use crate::config::Property;
use crate::emit::body;
use crate::emit::call_statement;
use crate::emit::spec_body;
use crate::emit::spec_call;
use crate::format::FormatKind;
use crate::rewrite::attribute_lines;
use crate::rewrite::inner_function;
use crate::rewrite::inner_name;
use crate::rewrite::keyword;
use crate::rewrite::spec_attribute_lines;
use crate::rewrite::spec_inner;
use crate::rewrite::spec_inner_name;
use crate::rewrite::spec_keyword;
use crate::rewrite::spec_select;
use crate::signature::extract_schema;
use crate::signature::spec_schema;
use crate::signature::ItemFn;
use crate::signature::ItemFnView;

verus! {

/// The wrapper that takes the target function's place: its registration attributes, its
/// asynchrony and its name, no parameters, and as its body the test over the data file,
/// which calls the renamed function once per record.
pub open spec fn spec_wrapper(item: ItemFnView, path: Seq<char>, kind: FormatKind) -> Seq<char> {
    spec_attribute_lines(spec_select(item.attrs, true)) + spec_keyword(item.is_async, "async"@)
        + "fn "@ + item.name + "() {\n"@ + spec_body(
        kind,
        path,
        spec_schema(item.inputs),
        spec_call(spec_inner_name(item.name), spec_schema(item.inputs), item.is_async),
    ) + "}\n"@
}

/// The whole generated unit: the wrapper, then the renamed target function.
pub open spec fn spec_unit(item: ItemFnView, path: Seq<char>, kind: FormatKind) -> Seq<char> {
    spec_wrapper(item, path, kind) + spec_inner(item)
}

/// Writes the wrapper for the target function `item` over the data file at `path`, which
/// is of the given kind.
pub fn impl_test_data_file(item: &ItemFn, path: &str, kind: FormatKind) -> (out: String)
    ensures
        out@ == spec_wrapper(item@, path@, kind),
{
    let fields = extract_schema(&item.inputs);
    let callee = inner_name(item.name.as_str());
    let call = call_statement(callee.as_str(), &fields, item.is_async);
    let mut out = attribute_lines(&item.attrs, true);
    out.append(keyword(item.is_async, "async").as_str());
    out.append("fn ");
    out.append(item.name.as_str());
    out.append("() {\n");
    out.append(body(kind, path, &fields, call.as_str()).as_str());
    out.append("}\n");
    out
}

/// A generated test: the wrapper that takes the target function's place, and the target
/// function under its derived name.
#[derive(Clone, Debug, PartialEq, Eq)]
pub struct GeneratedTestUnit {
    /// The wrapper: registration attributes, name and asynchrony of the target function,
    /// and the test over the data file as its body.
    pub wrapper: String,
    /// The target function, renamed and without its registration attributes.
    pub inner: String,
}

impl GeneratedTestUnit {
    /// The source text of the unit: the wrapper, then the renamed target function.
    pub fn source(&self) -> (out: String)
        ensures
            out@ == self.wrapper@ + self.inner@,
    {
        let mut out = self.wrapper.clone();
        out.append(self.inner.as_str());
        out
    }
}

/// Generates the data-driven test for the target function `item` under the configuration
/// `properties`. A configuration that is rejected gives its error and no test.
pub fn generate(properties: &Vec<Property>, item: &ItemFn) -> (result: Result<
    GeneratedTestUnit,
    ConfigurationError,
>)
    ensures
        match spec_configure(property_views(properties@)) {
            Ok(reference) => result is Ok && reference.kind() is Some && result->Ok_0.wrapper@
                == spec_wrapper(item@, reference.path, reference.kind()->Some_0)
                && result->Ok_0.inner@ == spec_inner(item@),
            Err(error) => result is Err && result->Err_0 == error,
        },
{
    match configure(properties) {
        Ok(reference) => {
            match reference.kind() {
                Some(kind) => Ok(
                    GeneratedTestUnit {
                        wrapper: impl_test_data_file(item, reference.path.as_str(), kind),
                        inner: inner_function(item),
                    },
                ),
                None => Err(ConfigurationError::MissingKind),
            }
        },
        Err(error) => Err(error),
    }
}

/// Generates the source text of the data-driven test for the target function `item` under
/// the configuration `properties`: the wrapper, then the renamed target function. A
/// configuration that is rejected gives its error and no text.
pub fn test_data_file(properties: &Vec<Property>, item: &ItemFn) -> (result: Result<
    String,
    ConfigurationError,
>)
    ensures
        match spec_configure(property_views(properties@)) {
            Ok(reference) => result is Ok && reference.kind() is Some && result->Ok_0@
                == spec_unit(item@, reference.path, reference.kind()->Some_0),
            Err(error) => result is Err && result->Err_0 == error,
        },
{
    match generate(properties, item) {
        Ok(unit) => Ok(unit.source()),
        Err(error) => Err(error),
    }
}

} // verus!
