//! What a generated test does with its data file when it runs: how a list file splits into
//! records, how a structured collection flattens into a sequence of records, and the
//! messages with which a test fails.

use vstd::prelude::*;

use crate::mapping::Mapping;
use crate::signature::string_views;
use crate::text::chars_of;
use crate::text::decimal;
use crate::text::spec_decimal;
use crate::text::string_of;

verus! {

/// Whether a character is white space: one of the Unicode characters with the property
/// `White_Space`.
pub open spec fn spec_is_whitespace(c: char) -> bool {
    let n = c as u32;
    ||| 0x09 <= n <= 0x0D
    ||| n == 0x20
    ||| n == 0x85
    ||| n == 0xA0
    ||| n == 0x1680
    ||| 0x2000 <= n <= 0x200A
    ||| n == 0x2028
    ||| n == 0x2029
    ||| n == 0x202F
    ||| n == 0x205F
    ||| n == 0x3000
}

/// Whether a character is white space.
pub fn is_whitespace(c: char) -> (result: bool)
    ensures
        result == spec_is_whitespace(c),
{
    let n = c as u32;
    (0x09 <= n && n <= 0x0D) || n == 0x20 || n == 0x85 || n == 0xA0 || n == 0x1680 || (0x2000 <= n
        && n <= 0x200A) || n == 0x2028 || n == 0x2029 || n == 0x202F || n == 0x205F || n
        == 0x3000
}

/// The number of characters before the first line feed of `s`, or the length of `s` where
/// it has none.
pub open spec fn spec_line_len(s: Seq<char>) -> nat
    decreases s.len(),
{
    if s.len() == 0 || s[0] == '\n' {
        0
    } else {
        1 + spec_line_len(s.skip(1))
    }
}

/// A line without the carriage return that stood before its line feed.
pub open spec fn spec_strip_cr(line: Seq<char>) -> Seq<char> {
    if line.len() > 0 && line.last() == '\r' {
        line.drop_last()
    } else {
        line
    }
}

/// The lines of a text. A line ends at a line feed, or at the end of the text where the
/// text does not end in a line feed; the line feed, and a carriage return right before it,
/// are not part of the line.
pub open spec fn spec_lines(s: Seq<char>) -> Seq<Seq<char>>
    decreases s.len(),
{
    let end = spec_line_len(s);
    if s.len() == 0 {
        Seq::empty()
    } else if end >= s.len() {
        seq![s]
    } else {
        seq![spec_strip_cr(s.take(end as int))] + spec_lines(s.skip(end as int + 1))
    }
}

/// The number of characters before the first white space of `s`, or the length of `s`
/// where it has none.
pub open spec fn spec_word_len(s: Seq<char>) -> nat
    decreases s.len(),
{
    if s.len() == 0 || spec_is_whitespace(s[0]) {
        0
    } else {
        1 + spec_word_len(s.skip(1))
    }
}

/// `spec_line_len` stops at the first line feed and not before.
pub proof fn lemma_line_len(s: Seq<char>)
    ensures
        spec_line_len(s) <= s.len(),
        forall|j: int| 0 <= j < spec_line_len(s) ==> s[j] != '\n',
        spec_line_len(s) < s.len() ==> s[spec_line_len(s) as int] == '\n',
    decreases s.len(),
{
    if s.len() != 0 && s[0] != '\n' {
        let rest = s.skip(1);
        lemma_line_len(rest);
        assert forall|j: int| 0 <= j < spec_line_len(s) implies s[j] != '\n' by {
            if j > 0 {
                assert(rest[j - 1] == s[j]);
            }
        }
    }
}

/// The first index that holds a line feed, or the length where none does, is the line
/// length.
pub proof fn lemma_line_len_unique(s: Seq<char>, n: int)
    requires
        0 <= n <= s.len(),
        forall|j: int| 0 <= j < n ==> s[j] != '\n',
        n < s.len() ==> s[n] == '\n',
    ensures
        spec_line_len(s) == n,
{
    lemma_line_len(s);
}

/// `spec_word_len` stops at the first white space and not before.
pub proof fn lemma_word_len(s: Seq<char>)
    ensures
        spec_word_len(s) <= s.len(),
        forall|j: int| 0 <= j < spec_word_len(s) ==> !spec_is_whitespace(s[j]),
        spec_word_len(s) < s.len() ==> spec_is_whitespace(s[spec_word_len(s) as int]),
    decreases s.len(),
{
    if s.len() != 0 && !spec_is_whitespace(s[0]) {
        let rest = s.skip(1);
        lemma_word_len(rest);
        assert forall|j: int| 0 <= j < spec_word_len(s) implies !spec_is_whitespace(s[j]) by {
            if j > 0 {
                assert(rest[j - 1] == s[j]);
            }
        }
    }
}

/// The first index that holds white space, or the length where none does, is the word
/// length.
pub proof fn lemma_word_len_unique(s: Seq<char>, n: int)
    requires
        0 <= n <= s.len(),
        forall|j: int| 0 <= j < n ==> !spec_is_whitespace(s[j]),
        n < s.len() ==> spec_is_whitespace(s[n]),
    ensures
        spec_word_len(s) == n,
{
    lemma_word_len(s);
}

/// The columns of a line: its maximal runs of characters that are not white space, in
/// order. White space only separates; it never gives an empty column.
pub open spec fn spec_columns(line: Seq<char>) -> Seq<Seq<char>>
    decreases line.len(),
{
    if line.len() == 0 {
        Seq::empty()
    } else if spec_is_whitespace(line[0]) {
        spec_columns(line.skip(1))
    } else {
        proof {
            lemma_word_len(line);
        }
        let n = spec_word_len(line);
        seq![line.take(n as int)] + spec_columns(line.skip(n as int))
    }
}

/// Splits a text into its lines.
pub fn lines(content: &str) -> (out: Vec<String>)
    ensures
        string_views(out@) == spec_lines(content@),
{
    let chars = chars_of(content);
    let mut out: Vec<String> = Vec::new();
    let mut start: usize = 0;
    assert(chars@.skip(0) == chars@);
    assert(string_views(out@) + spec_lines(chars@) == spec_lines(chars@));
    while start < chars.len()
        invariant
            start <= chars.len(),
            chars@ == content@,
            spec_lines(chars@) == string_views(out@) + spec_lines(chars@.skip(start as int)),
        decreases chars.len() - start,
    {
        let ghost rest = chars@.skip(start as int);
        let ghost done = string_views(out@);
        let mut end: usize = start;
        while end < chars.len() && chars[end] != '\n'
            invariant
                start <= end <= chars.len(),
                forall|j: int| start <= j < end ==> chars@[j] != '\n',
            decreases chars.len() - end,
        {
            end += 1;
        }
        proof {
            lemma_line_len_unique(rest, end - start);
        }
        if end == chars.len() {
            let line = string_of(&chars, start, end);
            out.push(line);
            proof {
                assert(rest == chars@.subrange(start as int, end as int));
                assert(string_views(out@) == done.push(rest));
                assert(chars@.skip(end as int).len() == 0);
                assert(done + seq![rest] == done.push(rest) + spec_lines(chars@.skip(end as int)));
            }
            start = end;
        } else {
            let stop: usize = if end > start && chars[end - 1] == '\r' {
                end - 1
            } else {
                end
            };
            let line = string_of(&chars, start, stop);
            out.push(line);
            proof {
                let whole = rest.take(end - start);
                assert(whole == chars@.subrange(start as int, end as int));
                assert(spec_strip_cr(whole) == chars@.subrange(start as int, stop as int));
                assert(string_views(out@) == done.push(spec_strip_cr(whole)));
                assert(rest.skip(end - start + 1) == chars@.skip(end + 1));
                assert(done + (seq![spec_strip_cr(whole)] + spec_lines(chars@.skip(end + 1)))
                    == done.push(spec_strip_cr(whole)) + spec_lines(chars@.skip(end + 1)));
            }
            start = end + 1;
        }
    }
    assert(spec_lines(chars@.skip(start as int)).len() == 0);
    assert(string_views(out@) + spec_lines(chars@.skip(start as int)) == string_views(out@));
    out
}

/// Splits a line into its columns.
pub fn columns(line: &str) -> (out: Vec<String>)
    ensures
        string_views(out@) == spec_columns(line@),
{
    let chars = chars_of(line);
    let mut out: Vec<String> = Vec::new();
    let mut i: usize = 0;
    assert(chars@.skip(0) == chars@);
    assert(string_views(out@) + spec_columns(chars@) == spec_columns(chars@));
    while i < chars.len()
        invariant
            i <= chars.len(),
            chars@ == line@,
            spec_columns(chars@) == string_views(out@) + spec_columns(chars@.skip(i as int)),
        decreases chars.len() - i,
    {
        let ghost rest = chars@.skip(i as int);
        let ghost done = string_views(out@);
        if is_whitespace(chars[i]) {
            assert(rest.skip(1) == chars@.skip(i + 1));
            i += 1;
        } else {
            let mut end: usize = i + 1;
            while end < chars.len() && !is_whitespace(chars[end])
                invariant
                    i < end <= chars.len(),
                    forall|j: int| i <= j < end ==> !spec_is_whitespace(chars@[j]),
                decreases chars.len() - end,
            {
                end += 1;
            }
            proof {
                lemma_word_len_unique(rest, end - i);
            }
            let word = string_of(&chars, i, end);
            out.push(word);
            proof {
                let column = rest.take(end - i);
                assert(column == chars@.subrange(i as int, end as int));
                assert(string_views(out@) == done.push(column));
                assert(rest.skip(end - i) == chars@.skip(end as int));
                assert(done + (seq![column] + spec_columns(chars@.skip(end as int)))
                    == done.push(column) + spec_columns(chars@.skip(end as int)));
            }
            i = end;
        }
    }
    assert(spec_columns(chars@.skip(i as int)).len() == 0);
    assert(string_views(out@) + spec_columns(chars@.skip(i as int)) == string_views(out@));
    out
}

/// One record of a list file: a line after the first, split into its columns.
#[derive(Clone, Debug, PartialEq, Eq)]
pub struct ListRecord {
    /// The index of the line in the file, counted from 0; the skipped first line is line 0.
    pub row: usize,
    /// The columns of the line, in order.
    pub columns: Vec<String>,
}

/// A list record as the contracts see it.
pub struct ListRecordView {
    pub row: nat,
    pub columns: Seq<Seq<char>>,
}

impl View for ListRecord {
    type V = ListRecordView;

    open spec fn view(&self) -> ListRecordView {
        ListRecordView { row: self.row as nat, columns: string_views(self.columns@) }
    }
}

/// The views of a sequence of list records.
pub open spec fn list_record_views(records: Seq<ListRecord>) -> Seq<ListRecordView> {
    records.map_values(|r: ListRecord| r@)
}

/// The records of a list file: one for each line after the first, in file order. The first
/// line is never read as data.
pub open spec fn spec_list_records(content: Seq<char>) -> Seq<ListRecordView> {
    let lines = spec_lines(content);
    Seq::new(
        if lines.len() == 0 {
            0
        } else {
            (lines.len() - 1) as nat
        },
        |i: int| (ListRecordView { row: (i + 1) as nat, columns: spec_columns(lines[i + 1]) }),
    )
}

impl ListRecordView {
    /// The positional arguments for a function of `arity` parameters: the first `arity`
    /// columns. A line with fewer columns gives none; further columns are ignored.
    pub open spec fn arguments(self, arity: nat) -> Option<Seq<Seq<char>>> {
        if self.columns.len() >= arity {
            Some(self.columns.take(arity as int))
        } else {
            None
        }
    }
}

impl ListRecord {
    /// The positional arguments for a function of `arity` parameters.
    pub fn arguments(&self, arity: usize) -> (result: Option<Vec<String>>)
        ensures
            match self@.arguments(arity as nat) {
                Some(arguments) => result is Some && string_views(result->Some_0@) == arguments,
                None => result is None,
            },
    {
        if self.columns.len() < arity {
            return None;
        }
        let mut out: Vec<String> = Vec::new();
        let mut i: usize = 0;
        while i < arity
            invariant
                i <= arity <= self.columns.len(),
                string_views(out@) == string_views(self.columns@).take(i as int),
            decreases arity - i,
        {
            let ghost before = string_views(out@);
            out.push(self.columns[i].clone());
            assert(string_views(out@) == before.push(self.columns@[i as int]@));
            assert(string_views(self.columns@).take(i + 1) == before.push(
                self.columns@[i as int]@,
            ));
            i += 1;
        }
        Some(out)
    }
}

/// Reads the records of a list file.
pub fn list_records(content: &str) -> (records: Vec<ListRecord>)
    ensures
        list_record_views(records@) == spec_list_records(content@),
{
    let all = lines(content);
    let ghost all_lines = spec_lines(content@);
    let mut records: Vec<ListRecord> = Vec::new();
    let mut i: usize = 1;
    while i < all.len()
        invariant
            1 <= i,
            i == 1 || i <= all.len(),
            all_lines == string_views(all@),
            records.len() == i - 1,
            forall|k: int|
                0 <= k < records.len() ==> (#[trigger] records@[k])@ == (ListRecordView {
                    row: (k + 1) as nat,
                    columns: spec_columns(all_lines[k + 1]),
                }),
        decreases all.len() - i,
    {
        let columns = columns(all[i].as_str());
        assert(all_lines[i as int] == all@[i as int]@);
        records.push(ListRecord { row: i, columns });
        i += 1;
    }
    assert(all_lines.len() == all.len());
    assert forall|k: int| 0 <= k < records.len() implies list_record_views(records@)[k]
        == spec_list_records(content@)[k] by {
        assert(list_record_views(records@)[k] == records@[k]@);
    }
    assert(list_record_views(records@) =~= spec_list_records(content@));
    records
}

/// The message of a test whose file holds no record.
pub open spec fn spec_empty_data_message(path: Seq<char>) -> Seq<char> {
    "Empty test data provided in "@ + path
}

/// The message of a test over a list file in which the column `column` of the line `row`,
/// both counted from 0, cannot be parsed; `error` is what the parser said.
pub open spec fn spec_invalid_value_message(
    row: nat,
    column: nat,
    path: Seq<char>,
    error: Seq<char>,
) -> Seq<char> {
    "Invalid value in row="@ + spec_decimal(row) + " column="@ + spec_decimal(column) + " "@ + path
        + " "@ + error
}

/// The message of a test whose structured file cannot be decoded; `error` is what the
/// decoder said.
pub open spec fn spec_load_failure_message(path: Seq<char>, error: Seq<char>) -> Seq<char> {
    "Failed to load data in "@ + path + " "@ + error
}

/// Writes the message of a test whose file holds no record.
pub fn empty_data_message(path: &str) -> (message: String)
    ensures
        message@ == spec_empty_data_message(path@),
{
    let mut message = "Empty test data provided in ".to_owned();
    message.append(path);
    message
}

/// Writes the message of a test over a list file in which a column cannot be parsed.
pub fn invalid_value_message(row: usize, column: usize, path: &str, error: &str) -> (message:
    String)
    ensures
        message@ == spec_invalid_value_message(row as nat, column as nat, path@, error@),
{
    let mut message = "Invalid value in row=".to_owned();
    message.append(decimal(row).as_str());
    message.append(" column=");
    message.append(decimal(column).as_str());
    message.append(" ");
    message.append(path);
    message.append(" ");
    message.append(error);
    message
}

/// Writes the message of a test whose structured file cannot be decoded.
pub fn load_failure_message(path: &str, error: &str) -> (message: String)
    ensures
        message@ == spec_load_failure_message(path@, error@),
{
    let mut message = "Failed to load data in ".to_owned();
    message.append(path);
    message.append(" ");
    message.append(error);
    message
}

/// Guards a test against running over nothing: the records are handed on as they are,
/// unless there is none, which is a failure that names the file.
pub fn require_records<T>(records: Vec<T>, path: &str) -> (result: Result<Vec<T>, String>)
    ensures
        match result {
            Ok(kept) => records.len() > 0 && kept == records,
            Err(message) => records.len() == 0 && message@ == spec_empty_data_message(path@),
        },
{
    if records.len() == 0 {
        Err(empty_data_message(path))
    } else {
        Ok(records)
    }
}

/// A decoded structured file: an array of records, or a mapping from string keys onto
/// records.
#[derive(Clone, Debug, PartialEq, Eq)]
pub enum Collection<T> {
    /// The records of an array, in file order.
    Index(Vec<T>),
    /// The entries of a mapping, each a key and its record.
    Keyed(Mapping<T>),
}

impl<T> Collection<T> {
    /// The records of a collection as one sequence: those of an array in file order, those
    /// of a mapping without their keys, in the order of the entries.
    pub open spec fn spec_records(self) -> Seq<T> {
        match self {
            Collection::Index(records) => records@,
            Collection::Keyed(mapping) => mapping@.map_values(|entry: (Seq<char>, T)| entry.1),
        }
    }

    /// Flattens a collection into the sequence of its records.
    pub fn into_records(self) -> (records: Vec<T>)
        ensures
            records@ == self.spec_records(),
    {
        match self {
            Collection::Index(records) => records,
            Collection::Keyed(mapping) => mapping.into_records(),
        }
    }
}

} // verus!
