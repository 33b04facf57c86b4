//! Laws of list files: how lines and columns come out of a text, and that the first
//! line is never data.

use vstd::prelude::*;

use crate::records::lemma_line_len_unique;
use crate::records::lemma_word_len;
use crate::records::lemma_word_len_unique;
use crate::records::ListRecordView;
use crate::records::spec_columns;
use crate::records::spec_is_whitespace;
use crate::records::spec_lines;
use crate::records::spec_list_records;
use crate::records::spec_strip_cr;
use crate::records::spec_word_len;

verus! {

/// Whether a text can stand as one column of a list line: it is not empty and holds no
/// white space.
pub open spec fn is_column(token: Seq<char>) -> bool {
    token.len() > 0 && forall|j: int| 0 <= j < token.len() ==> !spec_is_whitespace(token[j])
}

/// Whether every text of a row can stand as a column.
pub open spec fn is_row(row: Seq<Seq<char>>) -> bool {
    forall|k: int| 0 <= k < row.len() ==> is_column(#[trigger] row[k])
}

/// A line of a list file: the columns of a row, one space between neighbours.
pub open spec fn spec_join(row: Seq<Seq<char>>) -> Seq<char>
    decreases row.len(),
{
    if row.len() == 0 {
        Seq::empty()
    } else if row.len() == 1 {
        row[0]
    } else {
        row[0] + seq![' '] + spec_join(row.skip(1))
    }
}

/// The lines of the rows, each ended by a line feed.
pub open spec fn spec_row_lines(rows: Seq<Seq<Seq<char>>>) -> Seq<char>
    decreases rows.len(),
{
    if rows.len() == 0 {
        Seq::empty()
    } else {
        spec_join(rows[0]) + seq!['\n'] + spec_row_lines(rows.skip(1))
    }
}

/// A list file: a header line, then one line per row.
pub open spec fn spec_list_file(header: Seq<char>, rows: Seq<Seq<Seq<char>>>) -> Seq<char> {
    header + seq!['\n'] + spec_row_lines(rows)
}

/// Whether a text holds no line feed.
pub open spec fn is_single_line(line: Seq<char>) -> bool {
    forall|j: int| 0 <= j < line.len() ==> line[j] != '\n'
}

/// The first line of a text is what stands before its first line feed; the other lines are
/// the lines of what follows that line feed.
pub proof fn lemma_lines_of_first_and_rest(first: Seq<char>, rest: Seq<char>)
    requires
        is_single_line(first),
    ensures
        spec_lines(first + seq!['\n'] + rest) == seq![spec_strip_cr(first)] + spec_lines(rest),
{
    let text = first + seq!['\n'] + rest;
    lemma_line_len_unique(text, first.len() as int);
    assert(text.take(first.len() as int) == first);
    assert(text.skip(first.len() as int + 1) == rest);
}

/// The line of a row holds no line feed, and it ends as the row's last column ends.
pub proof fn lemma_join_shape(row: Seq<Seq<char>>)
    requires
        is_row(row),
    ensures
        is_single_line(spec_join(row)),
        row.len() > 0 ==> spec_join(row).len() > 0 && !spec_is_whitespace(spec_join(row).last()),
    decreases row.len(),
{
    if row.len() == 1 {
        assert(is_column(row[0]));
    } else if row.len() > 1 {
        let tail = row.skip(1);
        assert(is_column(row[0]));
        assert forall|k: int| 0 <= k < tail.len() implies is_column(#[trigger] tail[k]) by {
            assert(tail[k] == row[k + 1]);
        }
        lemma_join_shape(tail);
        let head = row[0] + seq![' '];
        let line = head + spec_join(tail);
        assert(line.last() == spec_join(tail).last());
        assert forall|j: int| 0 <= j < line.len() implies line[j] != '\n' by {
            if j < row[0].len() {
                assert(line[j] == row[0][j]);
            } else if j == row[0].len() {
                assert(line[j] == ' ');
            } else {
                assert(line[j] == spec_join(tail)[j - head.len()]);
            }
        }
    }
}

/// Splitting the line of a row gives the row back: its columns, and no others, in order.
pub proof fn lemma_columns_of_join(row: Seq<Seq<char>>)
    requires
        is_row(row),
    ensures
        spec_columns(spec_join(row)) == row,
    decreases row.len(),
{
    let line = spec_join(row);
    if row.len() == 0 {
    } else {
        let first = row[0];
        assert(is_column(first));
        if row.len() == 1 {
            lemma_word_len_unique(line, first.len() as int);
            assert(line.take(first.len() as int) == first);
            assert(line.skip(first.len() as int).len() == 0);
            assert(spec_columns(line.skip(first.len() as int)) == Seq::<Seq<char>>::empty());
            assert(seq![first] + Seq::<Seq<char>>::empty() == row);
        } else {
            let tail = row.skip(1);
            assert forall|k: int| 0 <= k < tail.len() implies is_column(#[trigger] tail[k]) by {
                assert(tail[k] == row[k + 1]);
            }
            lemma_columns_of_join(tail);
            assert forall|j: int| 0 <= j < first.len() implies !spec_is_whitespace(line[j]) by {
                assert(line[j] == first[j]);
            }
            assert(line[first.len() as int] == ' ');
            lemma_word_len_unique(line, first.len() as int);
            assert(line.take(first.len() as int) == first);
            let gap = line.skip(first.len() as int);
            assert(gap == seq![' '] + spec_join(tail));
            assert(gap[0] == ' ');
            assert(gap.skip(1) == spec_join(tail));
            assert(spec_columns(gap) == spec_columns(spec_join(tail)));
            assert(seq![first] + tail == row);
        }
    }
}

/// Every column of a line is a column: it is not empty and holds no white space.
pub proof fn lemma_columns_are_columns(line: Seq<char>)
    ensures
        is_row(spec_columns(line)),
    decreases line.len(),
{
    if line.len() == 0 {
    } else if spec_is_whitespace(line[0]) {
        lemma_columns_are_columns(line.skip(1));
    } else {
        lemma_word_len(line);
        let n = spec_word_len(line) as int;
        let first = line.take(n);
        let rest = spec_columns(line.skip(n));
        lemma_columns_are_columns(line.skip(n));
        assert(is_column(first));
        assert forall|k: int| 0 <= k < spec_columns(line).len() implies is_column(
            #[trigger] spec_columns(line)[k],
        ) by {
            if k > 0 {
                assert(spec_columns(line)[k] == rest[k - 1]);
            }
        }
    }
}

/// The lines of the rows' lines are the rows' lines.
pub proof fn lemma_lines_of_rows(rows: Seq<Seq<Seq<char>>>)
    requires
        forall|i: int| 0 <= i < rows.len() ==> is_row(#[trigger] rows[i]),
    ensures
        spec_lines(spec_row_lines(rows)) == rows.map_values(|row: Seq<Seq<char>>| spec_join(row)),
    decreases rows.len(),
{
    let joined = rows.map_values(|row: Seq<Seq<char>>| spec_join(row));
    if rows.len() == 0 {
        assert(spec_lines(spec_row_lines(rows)) == joined);
    } else {
        let tail = rows.skip(1);
        assert(is_row(rows[0]));
        assert forall|i: int| 0 <= i < tail.len() implies is_row(#[trigger] tail[i]) by {
            assert(tail[i] == rows[i + 1]);
        }
        lemma_lines_of_rows(tail);
        lemma_join_shape(rows[0]);
        lemma_lines_of_first_and_rest(spec_join(rows[0]), spec_row_lines(tail));
        assert(spec_strip_cr(spec_join(rows[0])) == spec_join(rows[0]));
        assert(seq![spec_join(rows[0])] + tail.map_values(|row: Seq<Seq<char>>| spec_join(row))
            == joined);
    }
}

/// A list file of a header line and N rows gives exactly N records, in file order: the
/// record of row `i` holds that row's columns and the line index `i + 1`. The header is
/// never read as data, whatever it holds.
pub proof fn lemma_list_file_records(header: Seq<char>, rows: Seq<Seq<Seq<char>>>)
    requires
        is_single_line(header),
        forall|i: int| 0 <= i < rows.len() ==> is_row(#[trigger] rows[i]),
    ensures
        spec_list_records(spec_list_file(header, rows)) == Seq::new(
            rows.len(),
            |i: int| (ListRecordView { row: (i + 1) as nat, columns: rows[i] }),
        ),
{
    let content = spec_list_file(header, rows);
    let expected = Seq::new(
        rows.len(),
        |i: int| (ListRecordView { row: (i + 1) as nat, columns: rows[i] }),
    );
    lemma_lines_of_first_and_rest(header, spec_row_lines(rows));
    lemma_lines_of_rows(rows);
    let lines = spec_lines(content);
    assert(lines.len() == rows.len() + 1);
    assert forall|i: int| 0 <= i < rows.len() implies spec_list_records(content)[i]
        == expected[i] by {
        assert(lines[i + 1] == spec_join(rows[i]));
        lemma_columns_of_join(rows[i]);
    }
    assert(spec_list_records(content) =~= expected);
}

/// A list file of a header line and N rows of as many columns as the target function has
/// parameters gives exactly N calls, in file order: the arguments of call `i` are the
/// columns of row `i`.
pub proof fn lemma_list_file_invocations(
    header: Seq<char>,
    rows: Seq<Seq<Seq<char>>>,
    arity: nat,
)
    requires
        is_single_line(header),
        forall|i: int| 0 <= i < rows.len() ==> is_row(#[trigger] rows[i]),
        forall|i: int| 0 <= i < rows.len() ==> (#[trigger] rows[i]).len() == arity,
    ensures
        spec_list_records(spec_list_file(header, rows)).len() == rows.len(),
        forall|i: int|
            0 <= i < rows.len() ==> (#[trigger] spec_list_records(
                spec_list_file(header, rows),
            )[i]).arguments(arity) == Some(rows[i]),
{
    lemma_list_file_records(header, rows);
    let records = spec_list_records(spec_list_file(header, rows));
    assert forall|i: int| 0 <= i < rows.len() implies (#[trigger] records[i]).arguments(arity)
        == Some(rows[i]) by {
        assert(records[i].columns == rows[i]);
        assert(rows[i].take(arity as int) == rows[i]);
    }
}

/// The first line of a list file is never read as data: two files that differ in their
/// first line only give the same records.
pub proof fn lemma_header_is_skipped(header: Seq<char>, other: Seq<char>, rest: Seq<char>)
    requires
        is_single_line(header),
        is_single_line(other),
    ensures
        spec_list_records(header + seq!['\n'] + rest) == spec_list_records(
            other + seq!['\n'] + rest,
        ),
{
    lemma_lines_of_first_and_rest(header, rest);
    lemma_lines_of_first_and_rest(other, rest);
    let a = spec_lines(header + seq!['\n'] + rest);
    let b = spec_lines(other + seq!['\n'] + rest);
    assert(a.len() == b.len());
    assert forall|i: int| 0 <= i < a.len() - 1 implies spec_list_records(
        header + seq!['\n'] + rest,
    )[i] == spec_list_records(other + seq!['\n'] + rest)[i] by {
        assert(a[i + 1] == spec_lines(rest)[i]);
        assert(b[i + 1] == spec_lines(rest)[i]);
    }
    assert(spec_list_records(header + seq!['\n'] + rest) =~= spec_list_records(
        other + seq!['\n'] + rest,
    ));
}

/// A list file without a line after the first gives no record: neither an empty file, nor
/// a header alone, with or without its line feed.
pub proof fn lemma_list_without_rows(header: Seq<char>)
    requires
        is_single_line(header),
    ensures
        spec_list_records(Seq::empty()).len() == 0,
        spec_list_records(header).len() == 0,
        spec_list_records(header + seq!['\n']).len() == 0,
{
    lemma_line_len_unique(header, header.len() as int);
    lemma_lines_of_first_and_rest(header, Seq::empty());
    assert(header + seq!['\n'] + Seq::<char>::empty() == header + seq!['\n']);
}

} // verus!
