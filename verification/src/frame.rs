//! What the formatter reads from a polars data frame.
//!
//! A data frame is opaque to the proofs. Its column names, its height and
//! the types of its columns are given names here; the functions below read
//! them, and the text of the values, through the frame's own methods. Their
//! contracts are taken on trust from the polars sources.
//!
//! Column types are handed out as codes, and [`plain_code`] says which of
//! them the library reads and renders: nulls, booleans, integers of 8 to 64
//! bits and strings. A value of such a column is a null or of the column's
//! type; reading it out of the column and rendering it always returns.
//! Columns of any other type (fractional, temporal, nested, binary) are left
//! alone: whether reading or rendering their values returns depends on the
//! value, on what polars was built with, or on formatting settings of the
//! whole process.

use polars::prelude::{DataFrame, DataType, PolarsError, Series};
use vstd::prelude::*;

verus! {

/// The data frame itself. Nothing inside it is visible to the proofs.
#[verifier::external_type_specification]
#[verifier::external_body]
pub struct ExDataFrame(DataFrame);

/// A column of a data frame. Declared because the frame's impls mention it;
/// no function here takes or returns one.
#[verifier::external_type_specification]
#[verifier::external_body]
pub struct ExSeries(Series);

/// The error of polars operations. Declared because the column's impls
/// mention it; no function here takes or returns one.
#[verifier::external_type_specification]
#[verifier::external_body]
pub struct ExPolarsError(PolarsError);

/// The names of a frame's columns, in order.
pub uninterp spec fn frame_column_names(df: DataFrame) -> Seq<Seq<char>>;

/// The number of rows of a frame: the length of its columns, and 0 for a
/// frame without columns.
pub uninterp spec fn frame_height(df: DataFrame) -> nat;

/// For every column of a frame, the code of its type: 1 for null, 2 for
/// boolean, 3 for string, 4 to 7 for the unsigned integers of 8, 16, 32 and
/// 64 bits, 8 to 11 for the signed integers of those widths, 12 and 13 for
/// the floats of 32 and 64 bits, and 0 for every other type.
pub uninterp spec fn frame_column_codes(df: DataFrame) -> Seq<u8>;

/// The code stands for a plain type: null, boolean, string, or an integer of
/// 8 to 64 bits. These are the columns that the library reads and renders.
/// Floats are not among them: how polars renders one depends on a precision
/// set for the whole process, and not every precision can be rendered.
pub open spec fn plain_code(code: u8) -> bool {
    1 <= code <= 11
}

/// Every column of the frame is of a plain type.
pub open spec fn frame_shows(df: DataFrame) -> bool {
    forall|c: int|
        0 <= c < frame_column_names(df).len() ==> plain_code(
            #[trigger] frame_column_codes(df)[c],
        )
}

/// Calls `DataFrame::get_column_names` and copies each name into a
/// `String`. Trusted: the result holds the frame's column names in order.
#[verifier::external_body]
pub(crate) fn column_names(df: &DataFrame) -> (names: Vec<String>)
    ensures
        names.deep_view() == frame_column_names(*df),
{
    df.get_column_names().iter().map(|name| name.to_string()).collect()
}

/// Calls `DataFrame::height`. Trusted: the result is the frame's number of
/// rows.
#[verifier::external_body]
pub(crate) fn height(df: &DataFrame) -> (rows: usize)
    ensures
        rows == frame_height(*df),
{
    df.height()
}

/// Calls `DataFrame::get_columns` and `Series::dtype` and hands out the code
/// of each type. Trusted: the result holds, for each column in order, the
/// code of its type.
#[verifier::external_body]
pub(crate) fn column_kinds(df: &DataFrame) -> (codes: Vec<u8>)
    ensures
        codes@ == frame_column_codes(*df),
        codes.len() == frame_column_names(*df).len(),
{
    let code = |column: &Series| -> u8 {
        match column.dtype() {
            DataType::Null => 1, DataType::Boolean => 2, DataType::String => 3,
            DataType::UInt8 => 4, DataType::UInt16 => 5, DataType::UInt32 => 6,
            DataType::UInt64 => 7, DataType::Int8 => 8, DataType::Int16 => 9,
            DataType::Int32 => 10, DataType::Int64 => 11, DataType::Float32 => 12,
            DataType::Float64 => 13, _ => 0,
        }
    };
    df.get_columns().iter().map(code).collect()
}

/// Calls `DataFrame::get` for row `idx` and renders each value with its
/// `Display` impl. Trusted: in a frame whose columns are of plain types, a
/// row below the frame's height can be read and holds one value per column,
/// and rendering each of them returns. Nothing is claimed of the text:
/// polars renders an integer with the process-wide thousands separator.
#[verifier::external_body]
pub(crate) fn row_values(df: &DataFrame, idx: usize) -> (values: Vec<String>)
    requires
        idx < frame_height(*df),
        frame_shows(*df),
    ensures
        values.len() == frame_column_names(*df).len(),
{
    df.get(idx).unwrap().iter().map(|value| value.to_string()).collect()
}

} // verus!
