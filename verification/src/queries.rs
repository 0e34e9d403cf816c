//! Assembling the query that selects what is shown, reading the number of
//! rows that it selects, and naming what can go wrong with it.

use crate::cli::parser::Args;
use crate::frame::{
    column_kinds, frame_column_names, frame_height, frame_shows, height, row_values,
};
use crate::format::all_plain;
use polars::prelude::DataFrame;
use vstd::prelude::*;

verus! {

/// The query for the given options: the full query if there is one, else
/// `SELECT` of the columns (all of them if none are named) `FROM` the
/// table, with a `WHERE` clause if there is a condition.
pub open spec fn query_text(
    full_query: Seq<char>,
    columns: Seq<char>,
    where_clause: Seq<char>,
    table: Seq<char>,
) -> Seq<char> {
    if full_query.len() != 0 {
        full_query
    } else {
        "SELECT "@ + (if columns.len() != 0 {
            columns
        } else {
            "*"@
        }) + " FROM "@ + table + (if where_clause.len() != 0 {
            " WHERE "@ + where_clause
        } else {
            Seq::empty()
        })
    }
}

/// Builds the query that a session runs against the table `lf_name`. A full
/// query in the options is returned as it is, whatever the other options
/// say. The text is not checked for being a valid query.
pub fn build_query(args: &Args, lf_name: &str) -> (query: String)
    ensures
        query@ == query_text(args.query@, args.columns@, args.where_clause@, lf_name@),
        args.query@.len() != 0 ==> query@ == args.query@,
{
    if !args.query.as_str().is_empty() {
        return args.query.clone();
    }
    let mut query = String::new();
    query.append("SELECT ");
    if !args.columns.as_str().is_empty() {
        query.append(args.columns.as_str());
    } else {
        query.append("*");
    }
    query.append(" FROM ");
    query.append(lf_name);
    if !args.where_clause.as_str().is_empty() {
        query.append(" WHERE ");
        query.append(args.where_clause.as_str());
    }
    assert(query@ =~= query_text(args.query@, args.columns@, args.where_clause@, lf_name@));
    query
}

/// What is said when the query or the data cannot be parsed.
pub const PARSING_ERROR_MESSAGE: &'static str =
    "Error: could not parse data - check that the separator and the query (if provided) are correct.";

/// What is said when the input file cannot be read.
pub const IO_ERROR_MESSAGE: &'static str =
    "Error: could not read input file. Make sure that the provided path is correct.";

/// The two failures that end a session. Neither is retried.
#[derive(Clone, Copy, Debug, PartialEq, Eq, Structural)]
pub enum ViewerError {
    /// The input file could not be opened or read.
    SourceRead,
    /// The query could not be parsed or run, at the start or while paging.
    Query,
}

impl ViewerError {
    /// The message that tells the user what failed.
    pub fn message(&self) -> (text: &'static str)
        ensures
            self is SourceRead ==> text@ == IO_ERROR_MESSAGE@,
            self is Query ==> text@ == PARSING_ERROR_MESSAGE@,
    {
        match self {
            ViewerError::SourceRead => IO_ERROR_MESSAGE,
            ViewerError::Query => PARSING_ERROR_MESSAGE,
        }
    }
}

/// `c` is one of the ten decimal digits.
pub open spec fn is_digit(c: char) -> bool {
    '0' as int <= c as int <= '9' as int
}

/// The number that a decimal digit stands for.
pub open spec fn digit_value(c: char) -> nat {
    (c as int - '0' as int) as nat
}

/// The number that a sequence of decimal digits stands for; 0 for none.
pub open spec fn decimal_value(digits: Seq<char>) -> nat
    decreases digits.len(),
{
    if digits.len() == 0 {
        0
    } else {
        10 * decimal_value(digits.drop_last()) + digit_value(digits.last())
    }
}

/// Every character of `text` is a decimal digit.
pub open spec fn all_digits(text: Seq<char>) -> bool {
    forall|i: int| 0 <= i < text.len() ==> is_digit(#[trigger] text[i])
}

/// `text` without the plus sign that may stand in front of a count.
pub open spec fn unsigned_part(text: Seq<char>) -> Seq<char> {
    if text.len() > 0 && text[0] == '+' {
        text.drop_first()
    } else {
        text
    }
}

/// The count that `text` spells: one or more decimal digits, with or without
/// a plus sign in front, whose number the machine can hold. Any other text
/// spells none.
pub open spec fn parsed_count(text: Seq<char>) -> Option<usize> {
    let digits = unsigned_part(text);
    if digits.len() > 0 && all_digits(digits) && decimal_value(digits) <= usize::MAX {
        Some(decimal_value(digits) as usize)
    } else {
        None
    }
}

/// The digits read so far never stand for more than all of them do.
pub proof fn lemma_decimal_value_grows(digits: Seq<char>, upto: int)
    requires
        0 <= upto <= digits.len(),
    ensures
        decimal_value(digits.take(upto)) <= decimal_value(digits),
    decreases digits.len() - upto,
{
    if upto < digits.len() {
        lemma_decimal_value_grows(digits, upto + 1);
        assert(digits.take(upto + 1).drop_last() == digits.take(upto));
    } else {
        assert(digits.take(upto) == digits);
    }
}

/// Reads a row count from its text.
pub fn parse_count(text: &str) -> (count: Option<usize>)
    ensures
        count == parsed_count(text@),
{
    let length: usize = text.unicode_len();
    let start: usize = if length > 0 && text.get_char(0) == '+' {
        1
    } else {
        0
    };
    let ghost digits = unsigned_part(text@);
    assert(digits == text@.subrange(start as int, length as int));
    if start == length {
        return None;
    }
    let mut value: usize = 0;
    let mut i: usize = start;
    while i < length
        invariant
            start <= i <= length,
            length == text@.len(),
            digits == unsigned_part(text@),
            digits == text@.subrange(start as int, length as int),
            all_digits(digits.take(i - start)),
            value == decimal_value(digits.take(i - start)),
        decreases length - i,
    {
        let c: char = text.get_char(i);
        let ghost read = digits.take(i - start);
        let ghost next = digits.take(i - start + 1);
        proof {
            assert(digits[i - start] == c);
            assert(next.drop_last() == read);
            assert(next.last() == c);
            lemma_decimal_value_grows(digits, i - start + 1);
        }
        if c < '0' || c > '9' {
            assert(!is_digit(digits[i - start]));
            return None;
        }
        let digit: usize = (c as u32 - '0' as u32) as usize;
        if value > (usize::MAX - digit) / 10 {
            assert(decimal_value(next) > usize::MAX);
            return None;
        }
        value = value * 10 + digit;
        i += 1;
        assert(all_digits(digits.take(i - start))) by {
            assert forall|k: int| 0 <= k < next.len() implies is_digit(#[trigger] next[k]) by {
                if k < read.len() {
                    assert(next[k] == read[k]);
                }
            }
        }
    }
    assert(digits.take(i - start) == digits);
    Some(value)
}

/// The count that a row of rendered values holds: the one that its first
/// value spells (see [`parsed_count`]); none in a row without values.
pub open spec fn first_count(row: Seq<Seq<char>>) -> Option<usize> {
    if row.len() == 0 {
        None
    } else {
        parsed_count(row[0])
    }
}

/// Reads a row count from the rendered values of a row: its first value,
/// read as a count.
pub fn count_of_row(values: &Vec<String>) -> (row_count: Option<usize>)
    ensures
        row_count == first_count(values.deep_view()),
{
    if values.len() == 0 {
        return None;
    }
    parse_count(values[0].as_str())
}

/// Reads the number of rows that a query selects from the data frame that
/// its count gave: the first value of the first row, read as a count. There
/// is none if the frame has no row or no column, if it has a column that is
/// not of a plain type, or if the first value does not spell a count (see
/// [`parse_count`]). How the frame renders the value is its own matter, so
/// the count is the one of the row that the frame gave when it was read (see
/// [`count_of_row`]).
pub fn get_number_of_lines(counted: &DataFrame) -> (row_count: Option<usize>)
    ensures
        frame_height(*counted) == 0 || frame_column_names(*counted).len() == 0 || !frame_shows(
            *counted,
        ) ==> row_count is None,
        frame_height(*counted) > 0 && frame_shows(*counted) ==> exists|row: Seq<Seq<char>>|
            row.len() == frame_column_names(*counted).len() && row_count == first_count(row),
{
    if height(counted) == 0 {
        return None;
    }
    let types = column_kinds(counted);
    if !all_plain(&types) {
        return None;
    }
    let v = row_values(counted, 0);
    let row_count = count_of_row(&v);
    assert(v.deep_view().len() == frame_column_names(*counted).len() && row_count == first_count(
        v.deep_view(),
    ));
    row_count
}

} // verus!
