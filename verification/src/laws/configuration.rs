//! Laws of configurations: when one is rejected, and which kind a path names.

use vstd::prelude::*;

use crate::config::AttributesView;
use crate::config::ConfigurationError;
use crate::config::FileReferenceView;
use crate::config::lemma_last_index_of_unique;
use crate::config::PropertyView;
use crate::config::spec_configure;
use crate::config::spec_extension;
use crate::config::spec_file_name;
use crate::format::FormatKind;
use crate::format::lemma_kind_names;

verus! {

/// Whether a property is accepted does not depend on what was read before it.
pub proof fn lemma_parse_ignores_state(
    state: AttributesView,
    other: AttributesView,
    property: PropertyView,
)
    ensures
        state.parse(property) is Ok <==> other.parse(property) is Ok,
        state.parse(property) is Err ==> state.parse(property)->Err_0 == other.parse(
            property,
        )->Err_0,
{
}

/// Reading stops at the first property that is rejected: where every earlier property is
/// accepted, its error is the error of the whole, from whatever state the reading started.
pub proof fn lemma_parse_all_stops(
    state: AttributesView,
    properties: Seq<PropertyView>,
    at: int,
    error: ConfigurationError,
)
    requires
        0 <= at < properties.len(),
        forall|j: int| 0 <= j < at ==> AttributesView::empty().parse(#[trigger] properties[j]) is Ok,
        AttributesView::empty().parse(properties[at]) == Err::<AttributesView, _>(error),
    ensures
        state.parse_all(properties) == Err::<AttributesView, _>(error),
    decreases properties.len(),
{
    lemma_parse_ignores_state(state, AttributesView::empty(), properties[0]);
    if at > 0 {
        let next = state.parse(properties[0])->Ok_0;
        let rest = properties.skip(1);
        assert forall|j: int| 0 <= j < at - 1 implies AttributesView::empty().parse(
            #[trigger] rest[j],
        ) is Ok by {
            assert(rest[j] == properties[j + 1]);
        }
        assert(rest[at - 1] == properties[at]);
        lemma_parse_all_stops(next, rest, at - 1, error);
    }
}

/// A configuration with a rejected property describes no file: the error of its first
/// rejected property is the error of the whole. So a `path` at which no regular file
/// stands, or a `kind` that names no format, or an unknown key, fails the generation
/// whatever the other properties hold.
pub proof fn lemma_first_rejected_property(
    properties: Seq<PropertyView>,
    at: int,
    error: ConfigurationError,
)
    requires
        0 <= at < properties.len(),
        forall|j: int| 0 <= j < at ==> AttributesView::empty().parse(#[trigger] properties[j]) is Ok,
        AttributesView::empty().parse(properties[at]) == Err::<AttributesView, _>(error),
    ensures
        spec_configure(properties) == Err::<FileReferenceView, _>(error),
{
    lemma_parse_all_stops(AttributesView::empty(), properties, at, error);
}

/// The extension of a path that ends in a named file: where the final component is a
/// stem, a dot and a suffix without dots, the extension is that suffix.
pub proof fn lemma_extension_of_named_file(
    directory: Seq<char>,
    stem: Seq<char>,
    suffix: Seq<char>,
)
    requires
        directory.len() == 0 || directory.last() == '/',
        stem.len() > 0,
        forall|j: int| 0 <= j < stem.len() ==> stem[j] != '/',
        forall|j: int| 0 <= j < suffix.len() ==> suffix[j] != '/' && suffix[j] != '.',
    ensures
        spec_extension(directory + stem + seq!['.'] + suffix) == Some(suffix),
{
    let path = directory + stem + seq!['.'] + suffix;
    let name = stem + seq!['.'] + suffix;
    assert forall|j: int| directory.len() - 1 < j < path.len() implies path[j] != '/' by {
        if j < directory.len() + stem.len() {
            assert(path[j] == stem[j - directory.len()]);
        } else if j == directory.len() + stem.len() {
            assert(path[j] == '.');
        } else {
            assert(path[j] == suffix[j - directory.len() - stem.len() - 1]);
        }
    }
    if directory.len() > 0 {
        assert(path[directory.len() - 1] == directory.last());
    }
    lemma_last_index_of_unique(path, '/', directory.len() - 1);
    assert(spec_file_name(path) == name);
    assert(name[stem.len() as int] == '.');
    assert forall|j: int| stem.len() < j < name.len() implies name[j] != '.' by {
        assert(name[j] == suffix[j - stem.len() - 1]);
    }
    lemma_last_index_of_unique(name, '.', stem.len() as int);
    assert(name.skip(stem.len() as int + 1) == suffix);
}

/// A file named after a format is of that format where no kind is declared: a path whose
/// final component is a stem, a dot and the name of a kind resolves to that kind.
pub proof fn lemma_kind_from_extension(directory: Seq<char>, stem: Seq<char>, kind: FormatKind)
    requires
        directory.len() == 0 || directory.last() == '/',
        stem.len() > 0,
        forall|j: int| 0 <= j < stem.len() ==> stem[j] != '/',
    ensures
        (FileReferenceView {
            path: directory + stem + seq!['.'] + kind.spec_name(),
            declared_kind: None,
        }).kind() == Some(kind),
{
    lemma_kind_names();
    lemma_extension_of_named_file(directory, stem, kind.spec_name());
}

} // verus!
