//! The registry of supported data formats.

use vstd::prelude::*;

use crate::text::str_eq;

verus! {

/// The data formats a test data file may be written in.
#[derive(Clone, Copy, Debug, PartialEq, Eq, Structural)]
pub enum FormatKind {
    Csv,
    Json,
    Yaml,
    Ron,
    Toml,
    List,
}

/// How the records of a file of a given kind are decoded.
#[derive(Clone, Copy, Debug, PartialEq, Eq, Structural)]
pub enum Strategy {
    /// A header row names the columns; every later row is one record.
    Csv,
    /// Whitespace-separated columns, one record per line after the first.
    List,
    /// The whole file is one array of records or one mapping onto records.
    Structured,
}

impl FormatKind {
    /// The textual name of a kind, as written in a configuration or as a file extension.
    pub open spec fn spec_name(self) -> Seq<char> {
        match self {
            FormatKind::Csv => "csv"@,
            FormatKind::Json => "json"@,
            FormatKind::Yaml => "yaml"@,
            FormatKind::Ron => "ron"@,
            FormatKind::Toml => "toml"@,
            FormatKind::List => "list"@,
        }
    }

    /// The kind a textual name stands for, if any.
    pub open spec fn spec_from_name(name: Seq<char>) -> Option<FormatKind> {
        if name == "csv"@ {
            Some(FormatKind::Csv)
        } else if name == "json"@ {
            Some(FormatKind::Json)
        } else if name == "yaml"@ {
            Some(FormatKind::Yaml)
        } else if name == "ron"@ {
            Some(FormatKind::Ron)
        } else if name == "toml"@ {
            Some(FormatKind::Toml)
        } else if name == "list"@ {
            Some(FormatKind::List)
        } else {
            None
        }
    }

    /// The decoding strategy a kind implies.
    pub open spec fn spec_strategy(self) -> Strategy {
        match self {
            FormatKind::Csv => Strategy::Csv,
            FormatKind::List => Strategy::List,
            _ => Strategy::Structured,
        }
    }

    /// The textual name of a kind.
    pub fn name(self) -> (name: &'static str)
        ensures
            name@ == self.spec_name(),
    {
        match self {
            FormatKind::Csv => "csv",
            FormatKind::Json => "json",
            FormatKind::Yaml => "yaml",
            FormatKind::Ron => "ron",
            FormatKind::Toml => "toml",
            FormatKind::List => "list",
        }
    }

    /// The kind a textual name stands for, if any.
    pub fn from_name(name: &str) -> (kind: Option<FormatKind>)
        ensures
            kind == Self::spec_from_name(name@),
    {
        if str_eq(name, "csv") {
            Some(FormatKind::Csv)
        } else if str_eq(name, "json") {
            Some(FormatKind::Json)
        } else if str_eq(name, "yaml") {
            Some(FormatKind::Yaml)
        } else if str_eq(name, "ron") {
            Some(FormatKind::Ron)
        } else if str_eq(name, "toml") {
            Some(FormatKind::Toml)
        } else if str_eq(name, "list") {
            Some(FormatKind::List)
        } else {
            None
        }
    }

    /// The decoding strategy a kind implies.
    pub fn strategy(self) -> (strategy: Strategy)
        ensures
            strategy == self.spec_strategy(),
    {
        match self {
            FormatKind::Csv => Strategy::Csv,
            FormatKind::List => Strategy::List,
            _ => Strategy::Structured,
        }
    }
}

/// Whether `name` is the textual name of a supported kind.
pub fn is_supported_kind(name: &str) -> (supported: bool)
    ensures
        supported == FormatKind::spec_from_name(name@).is_some(),
{
    FormatKind::from_name(name).is_some()
}

/// Every supported kind, in registry order.
pub fn supported_kinds() -> (kinds: Vec<FormatKind>)
    ensures
        kinds@ == seq![
            FormatKind::Csv,
            FormatKind::Json,
            FormatKind::Yaml,
            FormatKind::Ron,
            FormatKind::Toml,
            FormatKind::List,
        ],
        forall|kind: FormatKind| kinds@.contains(kind),
{
    let kinds = vec![
        FormatKind::Csv,
        FormatKind::Json,
        FormatKind::Yaml,
        FormatKind::Ron,
        FormatKind::Toml,
        FormatKind::List,
    ];
    assert forall|kind: FormatKind| kinds@.contains(kind) by {
        match kind {
            FormatKind::Csv => assert(kinds@[0] == kind),
            FormatKind::Json => assert(kinds@[1] == kind),
            FormatKind::Yaml => assert(kinds@[2] == kind),
            FormatKind::Ron => assert(kinds@[3] == kind),
            FormatKind::Toml => assert(kinds@[4] == kind),
            FormatKind::List => assert(kinds@[5] == kind),
        }
    }
    kinds
}

/// Reveals the characters of the six kind names.
pub proof fn lemma_kind_names()
    ensures
        "csv"@ == seq!['c', 's', 'v'],
        "json"@ == seq!['j', 's', 'o', 'n'],
        "yaml"@ == seq!['y', 'a', 'm', 'l'],
        "ron"@ == seq!['r', 'o', 'n'],
        "toml"@ == seq!['t', 'o', 'm', 'l'],
        "list"@ == seq!['l', 'i', 's', 't'],
{
    reveal_strlit("csv");
    reveal_strlit("json");
    reveal_strlit("yaml");
    reveal_strlit("ron");
    reveal_strlit("toml");
    reveal_strlit("list");
    assert("csv"@ =~= seq!['c', 's', 'v']);
    assert("json"@ =~= seq!['j', 's', 'o', 'n']);
    assert("yaml"@ =~= seq!['y', 'a', 'm', 'l']);
    assert("ron"@ =~= seq!['r', 'o', 'n']);
    assert("toml"@ =~= seq!['t', 'o', 'm', 'l']);
    assert("list"@ =~= seq!['l', 'i', 's', 't']);
}

/// A kind is found again under its own name, and a name that stands for a kind is that
/// kind's name: names and kinds correspond one to one.
pub proof fn lemma_name_round_trip(kind: FormatKind)
    ensures
        FormatKind::spec_from_name(kind.spec_name()) == Some(kind),
        forall|name: Seq<char>|
            FormatKind::spec_from_name(name) == Some(kind) ==> name == kind.spec_name(),
{
    lemma_kind_names();
}

} // verus!
