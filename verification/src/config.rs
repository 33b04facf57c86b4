//! The configuration of one data-driven test: which file holds the records, and of what kind
//! it is.

use vstd::prelude::*;

use crate::format::FormatKind;
use crate::text::chars_of;
use crate::text::str_eq;
use crate::text::string_of;

verus! {

/// What the file system reports for a path.
#[derive(Clone, Copy, Debug, PartialEq, Eq, Structural)]
pub enum FileStatus {
    /// Nothing exists at the path.
    Missing,
    /// Something exists at the path, but it is not a regular file.
    NotAFile,
    /// A regular file exists at the path.
    File,
}

/// Why a configuration is rejected.
#[derive(Clone, Copy, Debug, PartialEq, Eq, Structural)]
pub enum ConfigurationError {
    /// The value of `kind` names no supported format.
    UnsupportedKind,
    /// Nothing exists at the value of `path`.
    FileDoesNotExist,
    /// The value of `path` exists but is not a regular file.
    PathMustBeFile,
    /// The key is neither `path` nor `kind`.
    UnsupportedProperty,
    /// No `path` was given.
    MissingPath,
    /// No `kind` was given and the extension of the path names no supported format.
    MissingKind,
}

impl ConfigurationError {
    /// The message shown for an error.
    pub open spec fn spec_message(self) -> Seq<char> {
        match self {
            ConfigurationError::UnsupportedKind => "unsupported kind"@,
            ConfigurationError::FileDoesNotExist => "file does not exist"@,
            ConfigurationError::PathMustBeFile => "path must be a file"@,
            ConfigurationError::UnsupportedProperty => "unsupported property"@,
            ConfigurationError::MissingPath => "'path' attribute is required"@,
            ConfigurationError::MissingKind => "'kind' attribute is required"@,
        }
    }

    /// The message shown for an error.
    pub fn message(self) -> (message: &'static str)
        ensures
            message@ == self.spec_message(),
    {
        match self {
            ConfigurationError::UnsupportedKind => "unsupported kind",
            ConfigurationError::FileDoesNotExist => "file does not exist",
            ConfigurationError::PathMustBeFile => "path must be a file",
            ConfigurationError::UnsupportedProperty => "unsupported property",
            ConfigurationError::MissingPath => "'path' attribute is required",
            ConfigurationError::MissingKind => "'kind' attribute is required",
        }
    }
}

/// The keys a configuration may hold.
#[derive(Clone, Copy, Debug, PartialEq, Eq, Structural)]
pub enum Key {
    /// `path`: the data file.
    Path,
    /// `kind`: the format of the data file.
    Kind,
}

impl Key {
    /// The key a name stands for, if any.
    pub open spec fn spec_from_name(name: Seq<char>) -> Option<Key> {
        if name == "kind"@ {
            Some(Key::Kind)
        } else if name == "path"@ {
            Some(Key::Path)
        } else {
            None
        }
    }

    /// The key a name stands for, if any.
    pub fn from_name(name: &str) -> (key: Option<Key>)
        ensures
            key == Self::spec_from_name(name@),
    {
        if str_eq(name, "kind") {
            Some(Key::Kind)
        } else if str_eq(name, "path") {
            Some(Key::Path)
        } else {
            None
        }
    }
}

/// One entry of a configuration: a key and its string value.
#[derive(Clone, Debug, PartialEq, Eq)]
pub struct Property {
    pub key: String,
    pub value: String,
    /// What the file system reports for `value` read as a path. Only consulted when the key
    /// is `path`.
    pub status: FileStatus,
}

/// A property as the contracts see it.
pub struct PropertyView {
    pub key: Seq<char>,
    pub value: Seq<char>,
    pub status: FileStatus,
}

impl View for Property {
    type V = PropertyView;

    open spec fn view(&self) -> PropertyView {
        PropertyView { key: self.key@, value: self.value@, status: self.status }
    }
}

impl Property {
    /// The property `key = value`, with what the file system reports for the value.
    pub fn new(key: &str, value: &str, status: FileStatus) -> (property: Property)
        ensures
            property@ == (PropertyView { key: key@, value: value@, status }),
    {
        Property { key: key.to_owned(), value: value.to_owned(), status }
    }
}

/// The views of a sequence of properties.
pub open spec fn property_views(properties: Seq<Property>) -> Seq<PropertyView> {
    properties.map_values(|p: Property| p@)
}

/// Index of the last occurrence of `c` in `s`, or -1 where there is none.
pub open spec fn last_index_of(s: Seq<char>, c: char) -> int
    decreases s.len(),
{
    if s.len() == 0 {
        -1
    } else if s.last() == c {
        s.len() - 1
    } else {
        last_index_of(s.drop_last(), c)
    }
}

/// The final component of a path: what follows its last `/`.
pub open spec fn spec_file_name(path: Seq<char>) -> Seq<char> {
    path.skip(last_index_of(path, '/') + 1)
}

/// The extension of a path: what follows the last `.` of its final component, unless that
/// component has no `.` or only a leading one.
pub open spec fn spec_extension(path: Seq<char>) -> Option<Seq<char>> {
    let name = spec_file_name(path);
    let dot = last_index_of(name, '.');
    if dot <= 0 {
        None
    } else {
        Some(name.skip(dot + 1))
    }
}

/// `last_index_of` finds an occurrence, and none follows it.
pub proof fn lemma_last_index_of(s: Seq<char>, c: char)
    ensures
        -1 <= last_index_of(s, c) < s.len(),
        last_index_of(s, c) >= 0 ==> s[last_index_of(s, c)] == c,
        forall|j: int| last_index_of(s, c) < j < s.len() ==> s[j] != c,
    decreases s.len(),
{
    if s.len() > 0 && s.last() != c {
        let front = s.drop_last();
        lemma_last_index_of(front, c);
        assert forall|j: int| last_index_of(s, c) < j < s.len() implies s[j] != c by {
            if j < front.len() {
                assert(front[j] == s[j]);
            }
        }
    }
}

/// An index that holds `c` and is followed by no other is the last index of `c`.
pub proof fn lemma_last_index_of_unique(s: Seq<char>, c: char, i: int)
    requires
        -1 <= i < s.len(),
        i >= 0 ==> s[i] == c,
        forall|j: int| i < j < s.len() ==> s[j] != c,
    ensures
        last_index_of(s, c) == i,
{
    lemma_last_index_of(s, c);
}

/// Index of the last `c` in `chars[from..]`, if any.
fn rfind(chars: &Vec<char>, from: usize, c: char) -> (found: Option<usize>)
    requires
        from <= chars.len(),
    ensures
        match found {
            Some(i) => from <= i < chars.len() && last_index_of(chars@.skip(from as int), c) == i
                - from,
            None => last_index_of(chars@.skip(from as int), c) == -1,
        },
{
    let ghost tail = chars@.skip(from as int);
    let mut i: usize = chars.len();
    while i > from
        invariant
            from <= i <= chars.len(),
            tail == chars@.skip(from as int),
            forall|j: int| i - from <= j < tail.len() ==> tail[j] != c,
        decreases i,
    {
        i -= 1;
        if chars[i] == c {
            proof {
                lemma_last_index_of_unique(tail, c, i - from);
            }
            return Some(i);
        }
    }
    proof {
        lemma_last_index_of_unique(tail, c, -1);
    }
    None
}

/// The extension of `path`.
pub fn extension(path: &str) -> (found: Option<String>)
    ensures
        match found {
            Some(extension) => spec_extension(path@) == Some(extension@),
            None => spec_extension(path@) is None,
        },
{
    let chars = chars_of(path);
    let start: usize = match rfind(&chars, 0, '/') {
        Some(slash) => slash + 1,
        None => 0,
    };
    assert(chars@.skip(0) == chars@);
    match rfind(&chars, start, '.') {
        Some(dot) => {
            if dot == start {
                None
            } else {
                let found = string_of(&chars, dot + 1, chars.len());
                assert(chars@.skip(start as int).skip(dot - start + 1) == chars@.subrange(
                    dot + 1,
                    chars.len() as int,
                ));
                Some(found)
            }
        },
        None => None,
    }
}

/// A reference to the file that holds the records of a test.
#[derive(Clone, Debug, PartialEq, Eq)]
pub struct FileReference {
    pub path: String,
    /// The kind the configuration gave, if it gave one.
    pub declared_kind: Option<FormatKind>,
}

/// A file reference as the contracts see it.
pub struct FileReferenceView {
    pub path: Seq<char>,
    pub declared_kind: Option<FormatKind>,
}

impl View for FileReference {
    type V = FileReferenceView;

    open spec fn view(&self) -> FileReferenceView {
        FileReferenceView { path: self.path@, declared_kind: self.declared_kind }
    }
}

impl FileReferenceView {
    /// The kind of the file: the declared one, or else the one its extension names.
    pub open spec fn kind(self) -> Option<FormatKind> {
        match self.declared_kind {
            Some(kind) => Some(kind),
            None => match spec_extension(self.path) {
                Some(extension) => FormatKind::spec_from_name(extension),
                None => None,
            },
        }
    }

    /// A reference is well formed when its kind is known.
    pub open spec fn wf(self) -> bool {
        self.kind() is Some
    }
}

impl FileReference {
    /// The kind of the file: the declared one, or else the one its extension names.
    pub fn kind(&self) -> (kind: Option<FormatKind>)
        ensures
            kind == self@.kind(),
    {
        match self.declared_kind {
            Some(kind) => Some(kind),
            None => match extension(self.path.as_str()) {
                Some(extension) => FormatKind::from_name(extension.as_str()),
                None => None,
            },
        }
    }
}

/// What has been read of a configuration so far.
#[derive(Clone, Debug, PartialEq, Eq)]
pub struct TestFileDataAttributes {
    pub kind: Option<FormatKind>,
    pub path: Option<String>,
}

/// The state of a reading as the contracts see it.
pub struct AttributesView {
    pub kind: Option<FormatKind>,
    pub path: Option<Seq<char>>,
}

impl View for TestFileDataAttributes {
    type V = AttributesView;

    open spec fn view(&self) -> AttributesView {
        AttributesView {
            kind: self.kind,
            path: match self.path {
                Some(path) => Some(path@),
                None => None,
            },
        }
    }
}

impl AttributesView {
    /// The state before any property is read.
    pub open spec fn empty() -> AttributesView {
        AttributesView { kind: None, path: None }
    }

    /// Reads one property: `kind` must name a supported format, `path` must be an existing
    /// regular file, and no other key is known.
    pub open spec fn parse(self, property: PropertyView) -> Result<
        AttributesView,
        ConfigurationError,
    > {
        match Key::spec_from_name(property.key) {
            Some(Key::Kind) => match FormatKind::spec_from_name(property.value) {
                Some(kind) => Ok(AttributesView { kind: Some(kind), path: self.path }),
                None => Err(ConfigurationError::UnsupportedKind),
            },
            Some(Key::Path) => match property.status {
                FileStatus::Missing => Err(ConfigurationError::FileDoesNotExist),
                FileStatus::NotAFile => Err(ConfigurationError::PathMustBeFile),
                FileStatus::File => Ok(
                    AttributesView { kind: self.kind, path: Some(property.value) },
                ),
            },
            None => Err(ConfigurationError::UnsupportedProperty),
        }
    }

    /// Reads the properties in order and stops at the first one that is rejected.
    pub open spec fn parse_all(self, properties: Seq<PropertyView>) -> Result<
        AttributesView,
        ConfigurationError,
    >
        decreases properties.len(),
    {
        if properties.len() == 0 {
            Ok(self)
        } else {
            match self.parse(properties[0]) {
                Ok(next) => next.parse_all(properties.skip(1)),
                Err(error) => Err(error),
            }
        }
    }

    /// The file reference that the properties read so far describe.
    pub open spec fn resolve(self) -> Result<FileReferenceView, ConfigurationError> {
        match self.path {
            None => Err(ConfigurationError::MissingPath),
            Some(path) => {
                let reference = FileReferenceView { path, declared_kind: self.kind };
                if reference.wf() {
                    Ok(reference)
                } else {
                    Err(ConfigurationError::MissingKind)
                }
            },
        }
    }
}

/// The file reference that a whole configuration describes.
pub open spec fn spec_configure(properties: Seq<PropertyView>) -> Result<
    FileReferenceView,
    ConfigurationError,
> {
    match AttributesView::empty().parse_all(properties) {
        Ok(attributes) => attributes.resolve(),
        Err(error) => Err(error),
    }
}

impl TestFileDataAttributes {
    /// The state before any property is read.
    pub fn new() -> (attributes: TestFileDataAttributes)
        ensures
            attributes@ == AttributesView::empty(),
    {
        TestFileDataAttributes { kind: None, path: None }
    }

    /// Reads one property into the state. A rejected property leaves the state as it was.
    pub fn parse(&mut self, property: &Property) -> (result: Result<(), ConfigurationError>)
        ensures
            match old(self)@.parse(property@) {
                Ok(next) => result is Ok && final(self)@ == next,
                Err(error) => result == Err::<(), ConfigurationError>(error) && final(self)@ == old(
                    self,
                )@,
            },
    {
        match Key::from_name(property.key.as_str()) {
            Some(Key::Kind) => match FormatKind::from_name(property.value.as_str()) {
                Some(kind) => {
                    self.kind = Some(kind);
                    Ok(())
                },
                None => Err(ConfigurationError::UnsupportedKind),
            },
            Some(Key::Path) => match property.status {
                FileStatus::Missing => Err(ConfigurationError::FileDoesNotExist),
                FileStatus::NotAFile => Err(ConfigurationError::PathMustBeFile),
                FileStatus::File => {
                    self.path = Some(property.value.clone());
                    Ok(())
                },
            },
            None => Err(ConfigurationError::UnsupportedProperty),
        }
    }

    /// The file reference that the properties read so far describe: the path is required,
    /// and so is a kind, declared or named by the path's extension.
    pub fn resolve(self) -> (result: Result<FileReference, ConfigurationError>)
        ensures
            match self@.resolve() {
                Ok(reference) => result is Ok && result->Ok_0@ == reference,
                Err(error) => result is Err && result->Err_0 == error,
            },
    {
        match self.path {
            None => Err(ConfigurationError::MissingPath),
            Some(path) => {
                let reference = FileReference { path, declared_kind: self.kind };
                if reference.kind().is_some() {
                    Ok(reference)
                } else {
                    Err(ConfigurationError::MissingKind)
                }
            },
        }
    }
}

/// Reads a whole configuration: every property in order, then the resolution of the kind.
pub fn configure(properties: &Vec<Property>) -> (result: Result<
    FileReference,
    ConfigurationError,
>)
    ensures
        match spec_configure(property_views(properties@)) {
            Ok(reference) => result is Ok && result->Ok_0@ == reference && reference.wf(),
            Err(error) => result is Err && result->Err_0 == error,
        },
{
    let ghost views = property_views(properties@);
    let mut attributes = TestFileDataAttributes::new();
    let mut i: usize = 0;
    assert(views.skip(0) == views);
    while i < properties.len()
        invariant
            i <= properties.len(),
            views == property_views(properties@),
            AttributesView::empty().parse_all(views) == attributes@.parse_all(views.skip(i as int)),
        decreases properties.len() - i,
    {
        let ghost rest = views.skip(i as int);
        assert(rest[0] == properties@[i as int]@);
        assert(rest.skip(1) == views.skip(i + 1));
        match attributes.parse(&properties[i]) {
            Ok(()) => {},
            Err(error) => {
                return Err(error);
            },
        }
        i += 1;
    }
    assert(views.skip(i as int).len() == 0);
    attributes.resolve()
}

} // verus!
