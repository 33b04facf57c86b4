//! Laws of the failure messages: what each of them is sure to hold.

use vstd::prelude::*;

use crate::records::spec_empty_data_message;
use crate::records::spec_invalid_value_message;
use crate::text::lemma_occurs_in_middle;
use crate::text::occurs_in;
use crate::text::spec_decimal;

verus! {

/// The message of a test without records holds the path of its file.
pub proof fn lemma_empty_data_message_names_path(path: Seq<char>)
    ensures
        occurs_in(path, spec_empty_data_message(path)),
{
    lemma_occurs_in_middle("Empty test data provided in "@, path, Seq::empty());
    assert("Empty test data provided in "@ + path + Seq::<char>::empty()
        == spec_empty_data_message(path));
}

/// The message for a value that cannot be parsed holds the line index, the column index
/// and the path of the file.
pub proof fn lemma_invalid_value_message_names_position(
    row: nat,
    column: nat,
    path: Seq<char>,
    error: Seq<char>,
)
    ensures
        occurs_in("row="@ + spec_decimal(row), spec_invalid_value_message(row, column, path, error)),
        occurs_in(
            "column="@ + spec_decimal(column),
            spec_invalid_value_message(row, column, path, error),
        ),
        occurs_in(path, spec_invalid_value_message(row, column, path, error)),
{
    let message = spec_invalid_value_message(row, column, path, error);
    reveal_strlit("Invalid value in row=");
    reveal_strlit("row=");
    reveal_strlit(" column=");
    reveal_strlit("column=");
    let row_text = "row="@ + spec_decimal(row);
    let column_text = "column="@ + spec_decimal(column);
    let before_row = "Invalid value in "@;
    reveal_strlit("Invalid value in ");
    assert(before_row + "row="@ == "Invalid value in row="@);
    let after_row = " column="@ + spec_decimal(column) + " "@ + path + " "@ + error;
    lemma_occurs_in_middle(before_row, row_text, after_row);
    assert(before_row + row_text + after_row == message);
    let before_column = "Invalid value in row="@ + spec_decimal(row) + " "@;
    reveal_strlit(" ");
    assert(" "@ + "column="@ == " column="@);
    let after_column = " "@ + path + " "@ + error;
    lemma_occurs_in_middle(before_column, column_text, after_column);
    assert(before_column + column_text + after_column == message);
    let before_path = "Invalid value in row="@ + spec_decimal(row) + " column="@ + spec_decimal(
        column,
    ) + " "@;
    lemma_occurs_in_middle(before_path, path, " "@ + error);
    assert(before_path + path + (" "@ + error) == message);
}

} // verus!
