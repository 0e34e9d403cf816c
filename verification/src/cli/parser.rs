//! The options of the command line, as plain values.

use vstd::prelude::*;

verus! {

/// The options that a session is started with. Text options that were not
/// given are empty.
#[derive(Clone, Debug)]
pub struct Args {
    /// Path to a file containing separated values.
    pub file: String,
    /// Number of rows to skip: the row that the viewport starts at.
    pub offset: usize,
    /// Character which separates values of different columns.
    pub separator: char,
    /// Number of blanks between columns, after padding.
    pub whitespace: usize,
    /// Condition of the query's WHERE clause.
    pub where_clause: String,
    /// Selection list of the query.
    pub columns: String,
    /// A full query, which replaces the one built from the other options.
    pub query: String,
    /// Path of the file that the whole result is written to instead of
    /// being shown.
    pub output: String,
    /// The input file has no header line.
    pub no_header: bool,
}

} // verus!
