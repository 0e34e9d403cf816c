use tabview::format::{format_lines, left_pad_string, values_to_str, ResultPage};

fn strings(values: &[&str]) -> Vec<String> {
    values.iter().map(|v| v.to_string()).collect()
}

fn page(names: &[&str], rows: &[&[&str]]) -> ResultPage {
    ResultPage::new(strings(names), rows.iter().map(|r| strings(r)).collect()).unwrap()
}

#[test]
fn left_pad_adds_blanks_in_front() {
    assert_eq!(left_pad_string("ab", 5), "   ab");
}

#[test]
fn left_pad_keeps_text_of_exact_length() {
    assert_eq!(left_pad_string("abcde", 5), "abcde");
}

#[test]
fn left_pad_keeps_longer_text() {
    assert_eq!(left_pad_string("abcdefg", 5), "abcdefg");
}

#[test]
fn left_pad_of_empty_text() {
    assert_eq!(left_pad_string("", 3), "   ");
    assert_eq!(left_pad_string("", 0), "");
}

#[test]
fn left_pad_counts_characters() {
    assert_eq!(left_pad_string("né", 4), "  né");
}

#[test]
fn values_to_str_pads_and_separates() {
    let values = vec!["a", "bcd"];
    let lengths = vec![3usize, 5];
    assert_eq!(values_to_str(&values, &lengths, 2, true), "  a    bcd  ");
}

#[test]
fn values_to_str_without_padding_keeps_gap() {
    let values = vec!["a", "bcd"];
    let lengths = vec![3usize, 5];
    assert_eq!(values_to_str(&values, &lengths, 2, false), "a  bcd  ");
}

#[test]
fn values_to_str_with_no_gap() {
    let values = vec!["a", "bcd"];
    let lengths = vec![2usize, 3];
    assert_eq!(values_to_str(&values, &lengths, 0, true), " abcd");
}

#[test]
fn values_to_str_shows_one_cell_per_length() {
    let values = vec!["a", "b", "c"];
    let lengths = vec![2usize];
    assert_eq!(values_to_str(&values, &lengths, 1, true), " a ");
}

#[test]
fn values_to_str_of_no_columns_is_empty() {
    let values: Vec<&str> = Vec::new();
    let lengths: Vec<usize> = Vec::new();
    assert_eq!(values_to_str(&values, &lengths, 4, true), "");
}

#[test]
fn page_needs_one_value_per_column() {
    assert!(ResultPage::new(strings(&["a", "b"]), vec![strings(&["1"])]).is_none());
    assert!(ResultPage::new(strings(&["a"]), vec![strings(&["1"]), strings(&["1", "2"])]).is_none());
    assert!(ResultPage::new(strings(&[]), vec![strings(&["1"])]).is_none());
    assert!(ResultPage::new(strings(&["a", "b"]), vec![strings(&["1", "2"])]).is_some());
    assert!(ResultPage::new(strings(&["a", "b"]), Vec::new()).is_some());
    assert!(ResultPage::new(Vec::new(), vec![Vec::new(), Vec::new()]).is_some());
}

#[test]
fn page_hands_back_names_and_rows() {
    let p = page(&["a", "b"], &[&["1", "2"], &["3", "4"]]);
    assert_eq!(p.column_names(), &strings(&["a", "b"]));
    assert_eq!(p.rows(), &vec![strings(&["1", "2"]), strings(&["3", "4"])]);
    assert_eq!(p.height(), 2);
}

#[test]
fn column_lengths_are_the_longest_of_name_and_values() {
    let p = page(&["id", "name"], &[&["1", "alexander"], &["1000", "bo"]]);
    assert_eq!(p.max_column_lengths(), vec![4, 9]);
}

#[test]
fn column_lengths_of_empty_page_are_name_lengths() {
    let p = page(&["id", "name", ""], &[]);
    assert_eq!(p.max_column_lengths(), vec![2, 4, 0]);
}

#[test]
fn column_lengths_are_never_below_name_lengths() {
    let p = page(&["a_long_name", "b"], &[&["1", "22"], &["", "333"]]);
    let lengths = p.max_column_lengths();
    assert_eq!(lengths, vec![11, 3]);
    for (length, name) in lengths.iter().zip(p.column_names()) {
        assert!(*length >= name.chars().count());
    }
}

#[test]
fn column_lengths_belong_to_the_page_not_the_dataset() {
    let first = page(&["n"], &[&["1"], &["22"]]);
    let second = page(&["n"], &[&["333333"], &["4"]]);
    assert_eq!(first.max_column_lengths(), vec![2]);
    assert_eq!(second.max_column_lengths(), vec![6]);
}

#[test]
fn lines_are_header_divider_and_rows() {
    let p = page(&["id", "name"], &[&["1", "ann"], &["22", "bob"], &["333", "cy"]]);
    let lines = p.to_str_lines(2, true);
    assert_eq!(
        lines,
        vec![
            " id  name  ",
            "-----------",
            "  1   ann  ",
            " 22   bob  ",
            "333    cy  ",
        ]
    );
}

#[test]
fn lines_of_n_rows_are_n_plus_two() {
    for n in 0..5usize {
        let rows: Vec<Vec<String>> = (0..n).map(|i| vec![i.to_string(), String::from("v")]).collect();
        let p = ResultPage::new(strings(&["a", "b"]), rows).unwrap();
        let lines = p.to_str_lines(3, true);
        assert_eq!(lines.len(), n + 2);
        assert_eq!(lines[1].chars().count(), lines[0].chars().count());
        assert!(lines[1].chars().all(|c| c == '-'));
    }
}

#[test]
fn empty_page_gives_header_and_divider_only() {
    let p = page(&["id", "name"], &[]);
    assert_eq!(p.to_str_lines(4, true), vec!["id    name    ", "--------------"]);
}

#[test]
fn page_without_columns_gives_empty_lines() {
    let p = ResultPage::new(Vec::new(), vec![Vec::new()]).unwrap();
    assert_eq!(p.to_str_lines(4, true), vec!["", "", ""]);
}

#[test]
fn long_name_still_pads_values() {
    let p = page(&["quantity"], &[&["7"]]);
    assert_eq!(p.to_str_lines(1, true), vec!["quantity ", "---------", "       7 "]);
}

#[test]
fn lines_without_padding_are_not_aligned() {
    let p = page(&["id", "name"], &[&["1", "ann"]]);
    assert_eq!(p.to_str_lines(2, false), vec!["id  name  ", "----------", "1  ann  "]);
}

#[test]
fn padded_lines_are_equally_long() {
    let p = page(&["id", "name"], &[&["1", "alexander"], &["1000", "bo"], &["", ""]]);
    let lines = p.to_str_lines(4, true);
    for line in &lines {
        assert_eq!(line.chars().count(), lines[0].chars().count());
    }
}

#[test]
fn clipping_long_line_gives_window_width_without_break() {
    let lines = strings(&["abcdefghij"]);
    assert_eq!(format_lines(&lines, 4, 0), "abcd");
}

#[test]
fn clipping_short_line_gives_line_and_break() {
    let lines = strings(&["abc"]);
    assert_eq!(format_lines(&lines, 10, 0), "abc\n");
}

#[test]
fn clipping_line_as_wide_as_window_adds_no_break() {
    let lines = strings(&["abcd"]);
    assert_eq!(format_lines(&lines, 4, 0), "abcd");
}

#[test]
fn clipping_with_offset_starts_inside_line() {
    let lines = strings(&["abcdefghij"]);
    assert_eq!(format_lines(&lines, 4, 3), "defg");
    assert_eq!(format_lines(&lines, 4, 6), "ghij");
    assert_eq!(format_lines(&lines, 4, 7), "hij\n");
    assert_eq!(format_lines(&lines, 4, 9), "j\n");
}

#[test]
fn clipping_past_the_end_gives_break_only() {
    let lines = strings(&["abc"]);
    assert_eq!(format_lines(&lines, 4, 3), "\n");
    assert_eq!(format_lines(&lines, 4, 30), "\n");
}

#[test]
fn clipping_to_empty_window_gives_nothing() {
    let lines = strings(&["abc", ""]);
    assert_eq!(format_lines(&lines, 0, 0), "");
    assert_eq!(format_lines(&lines, 0, 5), "");
}

#[test]
fn clipping_joins_all_lines() {
    let lines = strings(&["abcdef", "xy", "", "123"]);
    assert_eq!(format_lines(&lines, 3, 1), "bcdy\n\n23\n");
}

#[test]
fn clipping_no_lines_gives_nothing() {
    let lines: Vec<String> = Vec::new();
    assert_eq!(format_lines(&lines, 80, 0), "");
}

#[test]
fn clipping_counts_characters() {
    let lines = strings(&["héllo wörld"]);
    assert_eq!(format_lines(&lines, 4, 1), "éllo");
    assert_eq!(format_lines(&lines, 20, 7), "örld\n");
}

#[test]
fn window_holds_page_size_rows_from_offset() {
    let p = page(&["n"], &[&["0"], &["1"], &["2"], &["3"], &["4"]]);
    let w = p.window(1, 3);
    assert_eq!(w.column_names(), &strings(&["n"]));
    assert_eq!(w.rows(), &vec![strings(&["1"]), strings(&["2"]), strings(&["3"])]);
}

#[test]
fn window_at_the_end_is_short() {
    let p = page(&["n"], &[&["0"], &["1"], &["2"]]);
    assert_eq!(p.window(2, 2).rows(), &vec![strings(&["2"])]);
    assert_eq!(p.window(0, 10).height(), 3);
    assert_eq!(p.window(1, usize::MAX).height(), 2);
}

#[test]
fn window_past_the_end_is_empty() {
    let p = page(&["n", "m"], &[&["0", "a"], &["1", "b"]]);
    assert_eq!(p.window(2, 2).height(), 0);
    assert_eq!(p.window(7, 2).height(), 0);
    assert_eq!(p.window(usize::MAX, usize::MAX).height(), 0);
    assert_eq!(p.window(7, 2).column_names(), &strings(&["n", "m"]));
}

#[test]
fn window_of_no_rows_is_empty() {
    let p = page(&["n"], &[&["0"], &["1"]]);
    assert_eq!(p.window(0, 0).height(), 0);
    assert_eq!(p.window(1, 0).height(), 0);
}
