use polars::prelude::{DataFrame, NamedFrom, Series};
use tabview::format::{df_to_str_lines, format_lines, get_max_column_lengths, ResultPage};
use tabview::queries::get_number_of_lines;

fn people() -> DataFrame {
    DataFrame::new(vec![
        Series::new("id", &[1i64, 20, 300]),
        Series::new("name", &["ann", "bob", "cy"]),
    ])
    .unwrap()
}

#[test]
fn frame_page_holds_names_and_rendered_values() {
    let page = ResultPage::from_frame(&people()).unwrap();
    assert_eq!(page.column_names(), &vec![String::from("id"), String::from("name")]);
    assert_eq!(page.height(), 3);
    assert_eq!(
        page.rows(),
        &vec![
            vec![String::from("1"), String::from("\"ann\"")],
            vec![String::from("20"), String::from("\"bob\"")],
            vec![String::from("300"), String::from("\"cy\"")],
        ]
    );
}

#[test]
fn frame_column_lengths() {
    assert_eq!(get_max_column_lengths(&people()), Some(vec![3, 5]));
}

#[test]
fn frame_column_lengths_of_empty_frame_are_name_lengths() {
    let df = people().slice(0, 0);
    assert_eq!(get_max_column_lengths(&df), Some(vec![2, 4]));
}

#[test]
fn frame_lines() {
    assert_eq!(
        df_to_str_lines(&people(), 2, true).unwrap(),
        vec![
            " id   name  ",
            "------------",
            "  1  \"ann\"  ",
            " 20  \"bob\"  ",
            "300   \"cy\"  ",
        ]
    );
}

#[test]
fn frame_lines_without_padding() {
    assert_eq!(
        df_to_str_lines(&people(), 1, false).unwrap(),
        vec!["id name ", "--------", "1 \"ann\" ", "20 \"bob\" ", "300 \"cy\" "]
    );
}

#[test]
fn empty_frame_gives_header_and_divider() {
    let df = people().slice(0, 0);
    assert_eq!(df_to_str_lines(&df, 4, true).unwrap(), vec!["id    name    ", "--------------"]);
}

#[test]
fn frame_without_columns_gives_two_empty_lines() {
    let df = DataFrame::empty();
    assert_eq!(df_to_str_lines(&df, 4, true).unwrap(), vec!["", ""]);
}

#[test]
fn frame_lines_agree_with_lines_of_its_page() {
    let df = people();
    let page = ResultPage::from_frame(&df).unwrap();
    assert_eq!(df_to_str_lines(&df, 3, true), Some(page.to_str_lines(3, true)));
    assert_eq!(get_max_column_lengths(&df), Some(page.max_column_lengths()));
}

#[test]
fn paging_through_three_rows_two_at_a_time() {
    let df = people();
    let mut settings = tabview::tui::DisplaySettings { offset: 0, page_size: 2, x_offset: 0, window_width: 80 };

    let first = df.slice(settings.offset as i64, settings.page_size);
    let lines = df_to_str_lines(&first, 1, true).unwrap();
    assert_eq!(lines, vec!["id  name ", "---------", " 1 \"ann\" ", "20 \"bob\" "]);

    settings.handle_key_pgdown(df.height());
    assert_eq!(settings.offset, 2);

    let second = df.slice(settings.offset as i64, settings.page_size);
    let lines = df_to_str_lines(&second, 1, true).unwrap();
    assert_eq!(lines, vec![" id name ", "---------", "300 \"cy\" "]);
    assert_eq!(format_lines(&lines, 5, 0), " id n-----300 \"");
}

#[test]
fn number_of_lines_is_read_from_count_frame() {
    let counted = DataFrame::new(vec![Series::new("count", &[1234u32])]).unwrap();
    assert_eq!(get_number_of_lines(&counted), Some(1234));
}

#[test]
fn number_of_lines_of_zero_count() {
    let counted = DataFrame::new(vec![Series::new("len", &[0u32])]).unwrap();
    assert_eq!(get_number_of_lines(&counted), Some(0));
}

#[test]
fn number_of_lines_needs_a_row_and_a_column() {
    assert_eq!(get_number_of_lines(&DataFrame::empty()), None);
    assert_eq!(get_number_of_lines(&people().slice(0, 0)), None);
}

#[test]
fn number_of_lines_needs_a_count() {
    let counted = DataFrame::new(vec![Series::new("n", &["many"])]).unwrap();
    assert_eq!(get_number_of_lines(&counted), None);
    let negative = DataFrame::new(vec![Series::new("n", &[-3i64])]).unwrap();
    assert_eq!(get_number_of_lines(&negative), None);
}

#[test]
fn viewer_takes_in_a_frame_as_its_page() {
    let df = people();
    let mut by_frame = tabview::session::Viewer::new(0, 3, 2, 10, 80);
    assert!(by_frame.show_frame(&df));
    let mut by_page = tabview::session::Viewer::new(0, 3, 2, 10, 80);
    by_page.show_page(&ResultPage::from_frame(&df).unwrap());
    assert_eq!(by_frame.lines, by_page.lines);
    assert_eq!(by_frame.lines.len(), 5);
    assert_eq!(by_frame.line_length, 12);
    assert_eq!(by_frame.lines[2], "  1  \"ann\"  ");
}

fn with_fractions() -> DataFrame {
    DataFrame::new(vec![Series::new("id", &[1i64, 2]), Series::new("ratio", &[1.5f64, -0.25])])
        .unwrap()
}

fn with_bytes() -> DataFrame {
    let first: &[u8] = b"ab";
    let second: &[u8] = b"cd";
    DataFrame::new(vec![Series::new("id", &[1i64, 2]), Series::new("raw", &[first, second])])
        .unwrap()
}

#[test]
fn frame_of_plain_values_of_every_kind_is_shown() {
    let df = DataFrame::new(vec![
        Series::new("flag", &[true, false]),
        Series::new("small", &[-7i32, 8]),
        Series::new("count", &[7u64, 18446744073709551615]),
        Series::new("name", &[Some("a"), None]),
    ])
    .unwrap();
    let page = ResultPage::from_frame(&df).unwrap();
    assert_eq!(
        page.rows(),
        &vec![
            vec!["true", "-7", "7", "\"a\""],
            vec!["false", "8", "18446744073709551615", "null"],
        ]
    );
}

#[test]
fn frame_with_fractional_numbers_is_not_shown() {
    let df = with_fractions();
    assert!(ResultPage::from_frame(&df).is_none());
    assert_eq!(get_max_column_lengths(&df), None);
    assert_eq!(df_to_str_lines(&df, 2, true), None);
}

#[test]
fn frame_with_narrow_fractional_numbers_is_not_shown() {
    let df = DataFrame::new(vec![Series::new("ratio", &[1.5f32])]).unwrap();
    assert!(ResultPage::from_frame(&df).is_none());
}

#[test]
fn frame_with_bytes_is_not_shown() {
    let df = with_bytes();
    assert!(ResultPage::from_frame(&df).is_none());
    assert_eq!(get_max_column_lengths(&df), None);
    assert_eq!(df_to_str_lines(&df, 2, false), None);
}

#[test]
fn frame_with_lists_is_not_shown() {
    let inner = Series::new("", &[1i64, 2]);
    let df = DataFrame::new(vec![Series::new("nested", &[inner])]).unwrap();
    assert!(ResultPage::from_frame(&df).is_none());
}

#[test]
fn frame_with_column_of_another_type_is_not_shown_even_without_rows() {
    let df = with_bytes().slice(0, 0);
    assert_eq!(df.height(), 0);
    assert!(ResultPage::from_frame(&df).is_none());
    assert_eq!(df_to_str_lines(&df, 1, true), None);
}

#[test]
fn frame_of_nulls_only_is_shown() {
    let df = DataFrame::new(vec![Series::new_null("void", 2)]).unwrap();
    assert_eq!(
        df_to_str_lines(&df, 1, true).unwrap(),
        vec!["void ", "-----", "null ", "null "]
    );
}

#[test]
fn viewer_keeps_its_lines_when_frame_is_not_shown() {
    let mut viewer = tabview::session::Viewer::new(0, 3, 2, 10, 80);
    assert!(viewer.show_frame(&people()));
    let lines = viewer.lines.clone();
    assert!(!viewer.show_frame(&with_fractions()));
    assert_eq!(viewer.lines, lines);
    assert_eq!(viewer.line_length, 12);
}

#[test]
fn number_of_lines_needs_plain_columns() {
    assert_eq!(get_number_of_lines(&with_fractions()), None);
    let fraction_first = DataFrame::new(vec![Series::new("n", &[3.0f64])]).unwrap();
    assert_eq!(get_number_of_lines(&fraction_first), None);
}
