use tabview::cli::parser::Args;
use tabview::queries::{build_query, count_of_row, parse_count, ViewerError, IO_ERROR_MESSAGE, PARSING_ERROR_MESSAGE};

fn args(query: &str, columns: &str, where_clause: &str) -> Args {
    Args {
        file: String::from("input.csv"),
        offset: 0,
        separator: ',',
        whitespace: 4,
        where_clause: String::from(where_clause),
        columns: String::from(columns),
        query: String::from(query),
        output: String::new(),
        no_header: false,
    }
}

#[test]
fn full_query_is_returned_unchanged() {
    let a = args("SELECT a FROM data", "x,y", "x > 3");
    assert_eq!(build_query(&a, "other"), "SELECT a FROM data");
}

#[test]
fn query_is_built_from_columns_and_condition() {
    let a = args("", "a,b", "a > 1");
    assert_eq!(build_query(&a, "data"), "SELECT a,b FROM data WHERE a > 1");
}

#[test]
fn query_defaults_to_all_columns() {
    let a = args("", "", "");
    assert_eq!(build_query(&a, "data"), "SELECT * FROM data");
}

#[test]
fn full_query_wins_over_every_other_option() {
    for (columns, condition, table) in [("", "", "data"), ("a", "", "t"), ("", "b = 1", ""), ("*", "x", "y")] {
        let a = args("SELECT a FROM data", columns, condition);
        assert_eq!(build_query(&a, table), "SELECT a FROM data");
    }
}

#[test]
fn query_with_columns_only() {
    let a = args("", "a, b AS c", "");
    assert_eq!(build_query(&a, "data"), "SELECT a, b AS c FROM data");
}

#[test]
fn query_with_condition_only() {
    let a = args("", "", "a > 1");
    assert_eq!(build_query(&a, "data"), "SELECT * FROM data WHERE a > 1");
}

#[test]
fn query_is_not_checked() {
    let a = args("", ",,", ")(");
    assert_eq!(build_query(&a, ""), "SELECT ,, FROM  WHERE )(");
}

#[test]
fn count_is_read_from_digits() {
    assert_eq!(parse_count("0"), Some(0));
    assert_eq!(parse_count("7"), Some(7));
    assert_eq!(parse_count("1234567"), Some(1234567));
    assert_eq!(parse_count("007"), Some(7));
}

#[test]
fn count_may_have_plus_sign() {
    assert_eq!(parse_count("+15"), Some(15));
}

#[test]
fn count_needs_digits_only() {
    for text in ["", "+", "-", "-1", "1 ", " 1", "1_000", "12a", "a", "++1", "1+", "1.0", "٣"] {
        assert_eq!(parse_count(text), None);
    }
}

#[test]
fn count_at_the_machine_limit() {
    let largest = usize::MAX.to_string();
    assert_eq!(parse_count(&largest), Some(usize::MAX));
    let too_large = format!("{}0", largest);
    assert_eq!(parse_count(&too_large), None);
    let one_more = (usize::MAX as u128 + 1).to_string();
    assert_eq!(parse_count(&one_more), None);
}

#[test]
fn count_agrees_with_std_parsing() {
    for text in ["0", "42", "+42", "-42", "", "+", "4 2", "18446744073709551615", "18446744073709551616", "000"] {
        assert_eq!(parse_count(text), text.parse::<usize>().ok());
    }
}

#[test]
fn error_messages() {
    assert_eq!(
        ViewerError::SourceRead.message(),
        "Error: could not read input file. Make sure that the provided path is correct."
    );
    assert_eq!(
        ViewerError::Query.message(),
        "Error: could not parse data - check that the separator and the query (if provided) are correct."
    );
    assert_eq!(ViewerError::SourceRead.message(), IO_ERROR_MESSAGE);
    assert_eq!(ViewerError::Query.message(), PARSING_ERROR_MESSAGE);
}

#[test]
fn count_of_row_is_read_from_first_value() {
    assert_eq!(count_of_row(&vec![String::from("12"), String::from("34")]), Some(12));
    assert_eq!(count_of_row(&vec![String::from("0")]), Some(0));
}

#[test]
fn count_of_row_needs_a_first_value_that_is_a_count() {
    assert_eq!(count_of_row(&Vec::new()), None);
    assert_eq!(count_of_row(&vec![String::from("x"), String::from("34")]), None);
    assert_eq!(count_of_row(&vec![String::new(), String::from("34")]), None);
}
