//! Turning a page of tabular data into aligned text lines, and cutting those
//! lines down to the part that fits the window.
//!
//! Text is measured in characters throughout: the length of a value is the
//! number of characters it holds, and a window of width `w` shows `w`
//! characters of a line.

use crate::frame::{
    column_kinds, column_names, frame_column_names, frame_height, frame_shows, height,
    plain_code, row_values,
};
use polars::prelude::DataFrame;
use vstd::prelude::*;

verus! {

/// `count` blank characters.
pub open spec fn blanks(count: nat) -> Seq<char> {
    Seq::new(count, |i: int| ' ')
}

/// `count` dash characters.
pub open spec fn dashes(count: nat) -> Seq<char> {
    Seq::new(count, |i: int| '-')
}

/// `text` with blanks in front until it holds `to` characters; unchanged if
/// it already holds that many.
pub open spec fn left_padded(text: Seq<char>, to: nat) -> Seq<char> {
    if text.len() >= to {
        text
    } else {
        blanks((to - text.len()) as nat) + text
    }
}

/// One cell of a line: the value, padded to the column's width if `pad`, and
/// the gap that follows every column.
pub open spec fn cell_text(value: Seq<char>, width: nat, gap: nat, pad: bool) -> Seq<char> {
    (if pad {
        left_padded(value, width)
    } else {
        value
    }) + blanks(gap)
}

/// The cells of a line, one per column width.
pub open spec fn line_cells(values: Seq<Seq<char>>, widths: Seq<nat>, gap: nat, pad: bool) -> Seq<
    Seq<char>,
> {
    Seq::new(widths.len(), |c: int| cell_text(values[c], widths[c], gap, pad))
}

/// A line of the table: its cells one after the other.
pub open spec fn line_text(values: Seq<Seq<char>>, widths: Seq<nat>, gap: nat, pad: bool) -> Seq<
    char,
> {
    line_cells(values, widths, gap, pad).flatten()
}

/// Column widths as mathematical naturals.
pub open spec fn widths_of(lengths: Seq<usize>) -> Seq<nat> {
    Seq::new(lengths.len(), |c: int| lengths[c] as nat)
}

/// A string of `count` copies of the one character that `unit` holds.
fn filled(unit: &str, count: usize) -> (text: String)
    requires
        unit@.len() == 1,
    ensures
        text@ == Seq::new(count as nat, |i: int| unit@[0]),
{
    let mut text = String::new();
    let mut done: usize = 0;
    while done < count
        invariant
            done <= count,
            unit@.len() == 1,
            text@ == Seq::new(done as nat, |i: int| unit@[0]),
        decreases count - done,
    {
        text.append(unit);
        done += 1;
    }
    text
}

/// Pads `s` on the left with blanks to `to` characters. A string that is
/// already that long comes back unchanged.
pub fn left_pad_string(s: &str, to: usize) -> (padded: String)
    ensures
        padded@ == left_padded(s@, to as nat),
        padded@.len() >= to,
        padded@.len() >= s@.len(),
{
    let length: usize = s.unicode_len();
    if length >= to {
        String::from_str(s)
    } else {
        proof {
            reveal_strlit(" ");
        }
        let mut padded = filled(" ", to - length);
        padded.append(s);
        padded
    }
}

/// Whether every code stands for a plain type or kind.
pub(crate) fn all_plain(codes: &Vec<u8>) -> (all: bool)
    ensures
        all == (forall|c: int| 0 <= c < codes.len() ==> plain_code(#[trigger] codes[c])),
{
    let mut c: usize = 0;
    while c < codes.len()
        invariant
            c <= codes.len(),
            forall|k: int| 0 <= k < c ==> plain_code(#[trigger] codes[k]),
        decreases codes.len() - c,
    {
        if codes[c] < 1 || codes[c] > 11 {
            return false;
        }
        c += 1;
    }
    true
}

/// A copy of the texts.
fn copied(texts: &Vec<String>) -> (copy: Vec<String>)
    ensures
        copy.deep_view() == texts.deep_view(),
        copy.len() == texts.len(),
{
    let mut copy: Vec<String> = Vec::new();
    let mut i: usize = 0;
    while i < texts.len()
        invariant
            i <= texts.len(),
            copy.len() == i,
            forall|k: int| 0 <= k < i ==> (#[trigger] copy[k])@ == texts[k]@,
        decreases texts.len() - i,
    {
        copy.push(texts[i].clone());
        i += 1;
    }
    assert(copy.deep_view() =~= texts.deep_view());
    copy
}

/// The same texts as borrowed string slices.
fn as_strs<'a>(texts: &'a Vec<String>) -> (slices: Vec<&'a str>)
    ensures
        slices.deep_view() == texts.deep_view(),
{
    let mut slices: Vec<&'a str> = Vec::new();
    let mut i: usize = 0;
    while i < texts.len()
        invariant
            i <= texts.len(),
            slices.len() == i,
            forall|k: int| 0 <= k < i ==> (#[trigger] slices[k])@ == texts[k]@,
        decreases texts.len() - i,
    {
        slices.push(texts[i].as_str());
        i += 1;
    }
    assert(slices.deep_view() =~= texts.deep_view());
    slices
}

/// Builds one line of the table from the values of its columns: each value,
/// left-padded to its column's length if `pad`, followed by
/// `column_distance` blanks. There is one cell per entry of
/// `column_lengths`; values beyond those are not shown.
pub fn values_to_str(
    values: &Vec<&str>,
    column_lengths: &Vec<usize>,
    column_distance: usize,
    pad: bool,
) -> (s: String)
    requires
        column_lengths.len() <= values.len(),
    ensures
        s@ == line_text(
            values.deep_view(),
            widths_of(column_lengths@),
            column_distance as nat,
            pad,
        ),
{
    proof {
        reveal_strlit(" ");
    }
    let mut s = String::new();
    let column_whitespace = filled(" ", column_distance);
    let ghost cells = line_cells(
        values.deep_view(),
        widths_of(column_lengths@),
        column_distance as nat,
        pad,
    );
    let mut index: usize = 0;
    while index < column_lengths.len()
        invariant
            index <= column_lengths.len(),
            column_lengths.len() <= values.len(),
            column_whitespace@ == blanks(column_distance as nat),
            cells == line_cells(
                values.deep_view(),
                widths_of(column_lengths@),
                column_distance as nat,
                pad,
            ),
            s@ == cells.take(index as int).flatten(),
        decreases column_lengths.len() - index,
    {
        let disp_str: &str = values[index];
        let ghost before = s@;
        if pad {
            let left_padded = left_pad_string(disp_str, column_lengths[index]);
            s.append(left_padded.as_str());
        } else {
            s.append(disp_str);
        }
        s.append(column_whitespace.as_str());
        proof {
            let cell = cells[index as int];
            assert(cell == cell_text(
                values.deep_view()[index as int],
                widths_of(column_lengths@)[index as int],
                column_distance as nat,
                pad,
            ));
            assert(s@ == before + cell);
            assert(cells.take(index + 1) == cells.take(index as int).push(cell));
            cells.take(index as int).lemma_flatten_push(cell);
        }
        index += 1;
    }
    assert(cells.take(index as int) == cells);
    s
}

/// The longest value among the first `upto` rows of column `c`, in
/// characters; 0 where there is no row.
pub open spec fn max_cell_len(rows: Seq<Seq<Seq<char>>>, c: int, upto: nat) -> nat
    decreases upto,
{
    if upto == 0 {
        0
    } else {
        let above = max_cell_len(rows, c, (upto - 1) as nat);
        let here = rows[upto - 1][c].len();
        if here > above {
            here
        } else {
            above
        }
    }
}

/// The display width of column `c` on this page: the length of its name or
/// of its longest value on the page, whichever is larger.
pub open spec fn column_width(names: Seq<Seq<char>>, rows: Seq<Seq<Seq<char>>>, c: int) -> nat {
    let longest = max_cell_len(rows, c, rows.len());
    if names[c].len() > longest {
        names[c].len()
    } else {
        longest
    }
}

/// The display widths of all columns of a page.
pub open spec fn column_widths(names: Seq<Seq<char>>, rows: Seq<Seq<Seq<char>>>) -> Seq<nat> {
    Seq::new(names.len(), |c: int| column_width(names, rows, c))
}

/// The lines of a page: the header, a divider of dashes as long as the
/// header, and one line per row.
pub open spec fn page_lines(
    names: Seq<Seq<char>>,
    rows: Seq<Seq<Seq<char>>>,
    gap: nat,
    pad: bool,
) -> Seq<Seq<char>> {
    let widths = column_widths(names, rows);
    let header = line_text(names, widths, gap, pad);
    seq![header, dashes(header.len())] + Seq::new(
        rows.len(),
        |r: int| line_text(rows[r], widths, gap, pad),
    )
}

/// The first row of a dataset of `total` rows that a page starting at row
/// `offset` holds: `offset` itself, or the end of the dataset if it lies
/// before.
pub open spec fn window_start(total: nat, offset: nat) -> nat {
    if offset <= total {
        offset
    } else {
        total
    }
}

/// The row after the last one that a page of `page_size` rows starting at
/// row `offset` holds: `page_size` rows on, or the end of the dataset if it
/// lies before.
pub open spec fn window_end(total: nat, offset: nat, page_size: nat) -> nat {
    if window_start(total, offset) + page_size <= total {
        window_start(total, offset) + page_size
    } else {
        total
    }
}

/// The rows of a dataset that a page of `page_size` rows starting at row
/// `offset` holds: exactly `page_size` rows, or fewer where the dataset ends
/// first.
pub open spec fn window_rows(rows: Seq<Seq<Seq<char>>>, offset: nat, page_size: nat) -> Seq<
    Seq<Seq<char>>,
> {
    rows.subrange(
        window_start(rows.len(), offset) as int,
        window_end(rows.len(), offset, page_size) as int,
    )
}

/// Every row holds one value per column name.
pub open spec fn rectangular(names: Seq<Seq<char>>, rows: Seq<Seq<Seq<char>>>) -> bool {
    forall|r: int| 0 <= r < rows.len() ==> (#[trigger] rows[r]).len() == names.len()
}

/// A page of a query result: the column names and, row by row, the text of
/// every value. Every row holds one value per column.
#[derive(Debug)]
pub struct ResultPage {
    names: Vec<String>,
    rows: Vec<Vec<String>>,
}

impl ResultPage {
    #[verifier::type_invariant]
    spec fn well_formed(self) -> bool {
        rectangular(self.names.deep_view(), self.rows.deep_view())
    }

    /// The column names, as text.
    pub closed spec fn names_text(&self) -> Seq<Seq<char>> {
        self.names.deep_view()
    }

    /// The values, row by row, as text.
    pub closed spec fn rows_text(&self) -> Seq<Seq<Seq<char>>> {
        self.rows.deep_view()
    }

    /// A page of the given names and rows, if every row holds one value per
    /// name.
    pub fn new(names: Vec<String>, rows: Vec<Vec<String>>) -> (page: Option<ResultPage>)
        ensures
            page is Some <==> rectangular(names.deep_view(), rows.deep_view()),
            page matches Some(p) ==> p.names_text() == names.deep_view() && p.rows_text()
                == rows.deep_view(),
    {
        let mut r: usize = 0;
        while r < rows.len()
            invariant
                r <= rows.len(),
                forall|k: int| 0 <= k < r ==> (#[trigger] rows[k]).len() == names.len(),
            decreases rows.len() - r,
        {
            if rows[r].len() != names.len() {
                assert(rows.deep_view()[r as int].len() != names.deep_view().len());
                return None;
            }
            r += 1;
        }
        assert forall|k: int| 0 <= k < rows.deep_view().len() implies (
        #[trigger] rows.deep_view()[k]).len() == names.deep_view().len() by {
            assert(rows[k].len() == names.len());
        }
        Some(ResultPage { names, rows })
    }

    /// The column names.
    pub fn column_names(&self) -> (names: &Vec<String>)
        ensures
            names.deep_view() == self.names_text(),
    {
        &self.names
    }

    /// The rows. Each holds one value per column name.
    pub fn rows(&self) -> (rows: &Vec<Vec<String>>)
        ensures
            rows.deep_view() == self.rows_text(),
            rectangular(self.names_text(), self.rows_text()),
    {
        proof {
            use_type_invariant(self);
        }
        &self.rows
    }

    /// The number of rows.
    pub fn height(&self) -> (count: usize)
        ensures
            count == self.rows_text().len(),
    {
        self.rows.len()
    }

    /// The page of `page_size` rows that starts at row `offset` of this one:
    /// the same columns, and the rows from `offset` on, `page_size` of them
    /// or as many as are left. Past the last row the page is empty.
    pub fn window(&self, offset: usize, page_size: usize) -> (page: ResultPage)
        ensures
            page.names_text() == self.names_text(),
            page.rows_text() == window_rows(self.rows_text(), offset as nat, page_size as nat),
            rectangular(page.names_text(), page.rows_text()),
    {
        proof {
            use_type_invariant(self);
        }
        let total: usize = self.rows.len();
        let start: usize = if offset <= total {
            offset
        } else {
            total
        };
        let end: usize = if page_size <= total - start {
            start + page_size
        } else {
            total
        };
        let names = copied(&self.names);
        let mut rows: Vec<Vec<String>> = Vec::new();
        let mut i: usize = start;
        while i < end
            invariant
                start <= i <= end,
                end <= self.rows.len(),
                rows.len() == i - start,
                names.deep_view() == self.names.deep_view(),
                rectangular(self.names.deep_view(), self.rows.deep_view()),
                forall|k: int|
                    0 <= k < i - start ==> (#[trigger] rows[k]).deep_view()
                        == self.rows.deep_view()[start + k],
            decreases end - i,
        {
            rows.push(copied(&self.rows[i]));
            i += 1;
        }
        assert(rows.deep_view() =~= window_rows(
            self.rows.deep_view(),
            offset as nat,
            page_size as nat,
        ));
        assert forall|k: int| 0 <= k < rows.deep_view().len() implies (
        #[trigger] rows.deep_view()[k]).len() == names.deep_view().len() by {
            assert(rows.deep_view()[k] == self.rows.deep_view()[start + k]);
        }
        ResultPage { names, rows }
    }

    /// The page that a data frame holds: its column names and, for every row,
    /// the text of each value as the frame renders it. There is none if the
    /// frame has a column that is not of a plain type: the page holds nulls,
    /// booleans, integers of 8 to 64 bits and strings only.
    pub fn from_frame(df: &DataFrame) -> (page: Option<ResultPage>)
        ensures
            page is Some <==> frame_shows(*df),
            page matches Some(p) ==> p.names_text() == frame_column_names(*df)
                && p.rows_text().len() == frame_height(*df) && rectangular(
                p.names_text(),
                p.rows_text(),
            ),
    {
        let names = column_names(df);
        let count = height(df);
        let types = column_kinds(df);
        if !all_plain(&types) {
            return None;
        }
        let mut rows: Vec<Vec<String>> = Vec::new();
        let mut i: usize = 0;
        while i < count
            invariant
                i <= count,
                count == frame_height(*df),
                frame_shows(*df),
                names.deep_view() == frame_column_names(*df),
                rows.len() == i,
                forall|k: int| 0 <= k < i ==> (#[trigger] rows[k]).len() == names.len(),
            decreases count - i,
        {
            rows.push(row_values(df, i));
            i += 1;
        }
        assert(rectangular(names.deep_view(), rows.deep_view())) by {
            assert forall|k: int| 0 <= k < rows.deep_view().len() implies (
            #[trigger] rows.deep_view()[k]).len() == names.deep_view().len() by {
                assert(rows[k].len() == names.len());
            }
        }
        Some(ResultPage { names, rows })
    }

    /// The display width of every column: the length of its name or of its
    /// longest value on this page, whichever is larger.
    pub fn max_column_lengths(&self) -> (lengths: Vec<usize>)
        ensures
            widths_of(lengths@) == column_widths(self.names_text(), self.rows_text()),
            lengths.len() == self.names_text().len(),
            forall|c: int|
                0 <= c < lengths.len() ==> (#[trigger] lengths[c]) >= self.names_text()[c].len(),
    {
        proof {
            use_type_invariant(self);
        }
        let ghost names = self.names.deep_view();
        let ghost rows = self.rows.deep_view();
        let mut lengths: Vec<usize> = Vec::new();
        let mut c: usize = 0;
        while c < self.names.len()
            invariant
                c <= self.names.len(),
                names == self.names.deep_view(),
                rows == self.rows.deep_view(),
                rectangular(names, rows),
                lengths.len() == c,
                forall|k: int|
                    0 <= k < c ==> (#[trigger] lengths[k]) as nat == column_width(names, rows, k),
            decreases self.names.len() - c,
        {
            let name_length: usize = self.names[c].as_str().unicode_len();
            let mut longest: usize = 0;
            let mut r: usize = 0;
            while r < self.rows.len()
                invariant
                    r <= self.rows.len(),
                    c < self.names.len(),
                    names == self.names.deep_view(),
                    rows == self.rows.deep_view(),
                    rectangular(names, rows),
                    longest as nat == max_cell_len(rows, c as int, r as nat),
                decreases self.rows.len() - r,
            {
                assert(rows[r as int].len() == names.len());
                let here: usize = self.rows[r][c].as_str().unicode_len();
                assert(here as nat == rows[r as int][c as int].len());
                if here > longest {
                    longest = here;
                }
                r += 1;
            }
            assert(names[c as int].len() == name_length);
            lengths.push(if name_length > longest { name_length } else { longest });
            c += 1;
        }
        assert(widths_of(lengths@) =~= column_widths(names, rows));
        assert forall|k: int| 0 <= k < lengths.len() implies (#[trigger] lengths[k])
            >= self.names_text()[k].len() by {
            assert(lengths[k] as nat == column_width(names, rows, k));
        }
        lengths
    }

    /// The text lines of this page: the header built from the column names,
    /// a divider of dashes of the header's length, and one line per row. In
    /// every line each column is followed by `column_distance` blanks; with
    /// `pad`, values are right-aligned to the column's display width.
    pub fn to_str_lines(&self, column_distance: usize, pad: bool) -> (lines: Vec<String>)
        ensures
            lines.deep_view() == page_lines(
                self.names_text(),
                self.rows_text(),
                column_distance as nat,
                pad,
            ),
            lines.len() == self.rows_text().len() + 2,
            lines[1]@.len() == lines[0]@.len(),
    {
        proof {
            use_type_invariant(self);
        }
        let ghost names = self.names.deep_view();
        let ghost rows = self.rows.deep_view();
        let ghost gap = column_distance as nat;
        let ghost widths = column_widths(names, rows);
        let column_lengths = self.max_column_lengths();
        let mut strings: Vec<String> = Vec::new();

        let header = values_to_str(&as_strs(&self.names), &column_lengths, column_distance, pad);
        proof {
            reveal_strlit("-");
        }
        let divider = filled("-", header.as_str().unicode_len());
        assert(divider@ == dashes(header@.len()));
        strings.push(header);
        strings.push(divider);
        assert(strings.deep_view() == seq![
            line_text(names, widths, gap, pad),
            dashes(line_text(names, widths, gap, pad).len()),
        ]);

        let mut i: usize = 0;
        while i < self.rows.len()
            invariant
                i <= self.rows.len(),
                names == self.names.deep_view(),
                rows == self.rows.deep_view(),
                rectangular(names, rows),
                gap == column_distance as nat,
                widths == column_widths(names, rows),
                widths_of(column_lengths@) == widths,
                column_lengths.len() == names.len(),
                strings.deep_view() == seq![
                    line_text(names, widths, gap, pad),
                    dashes(line_text(names, widths, gap, pad).len()),
                ] + Seq::new(i as nat, |r: int| line_text(rows[r], widths, gap, pad)),
            decreases self.rows.len() - i,
        {
            assert(rows[i as int].len() == names.len());
            let ghost before = strings.deep_view();
            let line = values_to_str(
                &as_strs(&self.rows[i]),
                &column_lengths,
                column_distance,
                pad,
            );
            assert(line@ == line_text(rows[i as int], widths, gap, pad));
            strings.push(line);
            assert(strings.deep_view() == before.push(
                line_text(rows[i as int], widths, gap, pad),
            ));
            i += 1;
        }
        assert(strings.deep_view()[0] == strings[0]@);
        assert(strings.deep_view()[1] == strings[1]@);
        strings
    }
}

/// The display width of every column of a data frame: the length of the
/// column's name or of its longest rendered value, whichever is larger. How
/// a value is rendered is the frame's own matter, so the widths are those of
/// the page that the frame gave when it was read. There are none if the
/// frame cannot be read as a page (see [`ResultPage::from_frame`]).
pub fn get_max_column_lengths(df: &DataFrame) -> (widths: Option<Vec<usize>>)
    ensures
        widths is Some <==> frame_shows(*df),
        widths matches Some(lengths) ==> {
            &&& lengths.len() == frame_column_names(*df).len()
            &&& forall|c: int|
                0 <= c < lengths.len() ==> (#[trigger] lengths[c]) >= frame_column_names(
                    *df,
                )[c].len()
            &&& exists|rows: Seq<Seq<Seq<char>>>|
                rows.len() == frame_height(*df) && rectangular(frame_column_names(*df), rows)
                    && widths_of(lengths@) == column_widths(frame_column_names(*df), rows)
        },
{
    match ResultPage::from_frame(df) {
        None => None,
        Some(page) => {
            let lengths = page.max_column_lengths();
            assert(page.rows_text().len() == frame_height(*df) && rectangular(
                frame_column_names(*df),
                page.rows_text(),
            ) && widths_of(lengths@) == column_widths(
                frame_column_names(*df),
                page.rows_text(),
            ));
            Some(lengths)
        },
    }
}

/// The text lines of a data frame: header, divider and one line per row,
/// built as [`ResultPage::to_str_lines`] builds them from the page that the
/// frame gave when it was read. There are none if the frame cannot be read
/// as a page (see [`ResultPage::from_frame`]).
pub fn df_to_str_lines(df: &DataFrame, column_distance: usize, pad: bool) -> (text: Option<
    Vec<String>,
>)
    ensures
        text is Some <==> frame_shows(*df),
        text matches Some(lines) ==> {
            &&& lines.len() == frame_height(*df) + 2
            &&& lines[1]@.len() == lines[0]@.len()
            &&& exists|rows: Seq<Seq<Seq<char>>>|
                rows.len() == frame_height(*df) && rectangular(frame_column_names(*df), rows)
                    && lines.deep_view() == page_lines(
                    frame_column_names(*df),
                    rows,
                    column_distance as nat,
                    pad,
                )
        },
{
    match ResultPage::from_frame(df) {
        None => None,
        Some(page) => {
            let lines = page.to_str_lines(column_distance, pad);
            assert(page.rows_text().len() == frame_height(*df) && rectangular(
                frame_column_names(*df),
                page.rows_text(),
            ) && lines.deep_view() == page_lines(
                frame_column_names(*df),
                page.rows_text(),
                column_distance as nat,
                pad,
            ));
            Some(lines)
        },
    }
}

/// The display width of a column is at least the length of its name and of
/// every value that the page holds in that column, and one of them has
/// exactly that length.
pub proof fn lemma_column_width_covers(
    names: Seq<Seq<char>>,
    rows: Seq<Seq<Seq<char>>>,
    c: int,
)
    ensures
        column_width(names, rows, c) >= names[c].len(),
        forall|r: int|
            0 <= r < rows.len() ==> column_width(names, rows, c) >= (#[trigger] rows[r])[c].len(),
        column_width(names, rows, c) == names[c].len() || exists|r: int|
            0 <= r < rows.len() && column_width(names, rows, c) == (#[trigger] rows[r])[c].len(),
{
    lemma_max_cell_len_covers(rows, c, rows.len());
}

/// The longest value among the first `upto` rows of a column is at least as
/// long as each of them, and, unless it is 0, one of them has that length.
pub proof fn lemma_max_cell_len_covers(rows: Seq<Seq<Seq<char>>>, c: int, upto: nat)
    ensures
        forall|r: int|
            0 <= r < upto ==> max_cell_len(rows, c, upto) >= (#[trigger] rows[r])[c].len(),
        max_cell_len(rows, c, upto) == 0 || exists|r: int|
            0 <= r < upto && max_cell_len(rows, c, upto) == (#[trigger] rows[r])[c].len(),
    decreases upto,
{
    if upto > 0 {
        lemma_max_cell_len_covers(rows, c, (upto - 1) as nat);
        let above = max_cell_len(rows, c, (upto - 1) as nat);
        let here = rows[upto - 1][c].len();
        if here > above {
            assert(max_cell_len(rows, c, upto) == rows[upto - 1][c].len());
        } else if above != 0 {
            let r = choose|r: int| 0 <= r < upto - 1 && above == (#[trigger] rows[r])[c].len();
            assert(0 <= r < upto && max_cell_len(rows, c, upto) == rows[r][c].len());
        }
    }
}

/// The part of `line` that a window of `width` characters shows when it
/// starts at character `offset`. A part shorter than the window ends in a
/// line break; one that fills the window does not.
pub open spec fn clipped(line: Seq<char>, width: nat, offset: nat) -> Seq<char> {
    let rest = if offset < line.len() {
        line.subrange(offset as int, line.len() as int)
    } else {
        Seq::empty()
    };
    if rest.len() < width {
        rest.push('\n')
    } else {
        rest.subrange(0, width as int)
    }
}

/// What the window shows of all lines, one clipped line after the other.
pub open spec fn screen_text(lines: Seq<Seq<char>>, width: nat, offset: nat) -> Seq<char> {
    lines.map_values(|line: Seq<char>| clipped(line, width, offset)).flatten()
}

/// Cuts every line to the window of `width` characters that starts at
/// character `offset`, and joins the results. A line that does not fill the
/// window is ended by a line break; a line that does is cut to exactly
/// `width` characters.
pub fn format_lines(lines: &Vec<String>, width: usize, offset: usize) -> (screen: String)
    ensures
        screen@ == screen_text(lines.deep_view(), width as nat, offset as nat),
{
    let ghost parts = lines.deep_view().map_values(
        |line: Seq<char>| clipped(line, width as nat, offset as nat),
    );
    let mut screen = String::new();
    let mut i: usize = 0;
    while i < lines.len()
        invariant
            i <= lines.len(),
            parts == lines.deep_view().map_values(
                |line: Seq<char>| clipped(line, width as nat, offset as nat),
            ),
            screen@ == parts.take(i as int).flatten(),
        decreases lines.len() - i,
    {
        let line: &str = lines[i].as_str();
        let length: usize = line.unicode_len();
        let ghost before = screen@;
        if offset >= length {
            if width > 0 {
                screen.append("\n");
            }
        } else if length - offset < width {
            screen.append(line.substring_char(offset, length));
            screen.append("\n");
        } else {
            screen.append(line.substring_char(offset, offset + width));
        }
        proof {
            reveal_strlit("\n");
            let part = parts[i as int];
            assert(part == clipped(lines[i as int]@, width as nat, offset as nat));
            assert("\n"@ =~= seq!['\n']);
            assert(screen@ =~= before + part);
            assert(parts.take(i + 1) == parts.take(i as int).push(part));
            parts.take(i as int).lemma_flatten_push(part);
        }
        i += 1;
    }
    assert(parts.take(i as int) == parts);
    screen
}

/// A page of `n` rows is rendered as `n + 2` lines, and the divider is
/// exactly as long as the header.
pub proof fn lemma_page_lines_shape(
    names: Seq<Seq<char>>,
    rows: Seq<Seq<Seq<char>>>,
    gap: nat,
    pad: bool,
)
    ensures
        page_lines(names, rows, gap, pad).len() == rows.len() + 2,
        page_lines(names, rows, gap, pad)[1].len() == page_lines(names, rows, gap, pad)[0].len(),
        page_lines(names, rows, gap, pad)[1] == dashes(page_lines(names, rows, gap, pad)[0].len()),
{
}

/// Two rows of cells whose cells are pairwise equally long are equally long
/// when joined.
proof fn lemma_joined_lengths_agree(a: Seq<Seq<char>>, b: Seq<Seq<char>>)
    requires
        a.len() == b.len(),
        forall|c: int| 0 <= c < a.len() ==> (#[trigger] a[c]).len() == b[c].len(),
    ensures
        a.flatten().len() == b.flatten().len(),
    decreases a.len(),
{
    if a.len() > 0 {
        assert forall|c: int| 0 <= c < a.drop_first().len() implies (
        #[trigger] a.drop_first()[c]).len() == b.drop_first()[c].len() by {
            assert(a.drop_first()[c] == a[c + 1]);
            assert(b.drop_first()[c] == b[c + 1]);
        }
        lemma_joined_lengths_agree(a.drop_first(), b.drop_first());
    }
}

/// With padding, every line of a page is as long as its header: the columns
/// line up.
pub proof fn lemma_padded_lines_align(
    names: Seq<Seq<char>>,
    rows: Seq<Seq<Seq<char>>>,
    gap: nat,
    i: int,
)
    requires
        0 <= i < rows.len() + 2,
    ensures
        page_lines(names, rows, gap, true)[i].len() == page_lines(names, rows, gap, true)[0].len(),
{
    let widths = column_widths(names, rows);
    if i >= 2 {
        let header = line_cells(names, widths, gap, true);
        let line = line_cells(rows[i - 2], widths, gap, true);
        assert forall|c: int| 0 <= c < header.len() implies (#[trigger] header[c]).len()
            == line[c].len() by {
            lemma_column_width_covers(names, rows, c);
            assert(rows[i - 2][c].len() <= widths[c]);
            assert(header[c].len() == widths[c] + gap);
            assert(line[c].len() == widths[c] + gap);
        }
        lemma_joined_lengths_agree(header, line);
    }
}

/// A page of `page_size` rows starting at row `offset` inside a dataset
/// holds the rows from `offset` on, in order: `page_size` of them, or those
/// that are left where the dataset ends first, and it is rendered as two
/// lines more than it holds rows.
pub proof fn lemma_window_holds_rows_from_offset(
    names: Seq<Seq<char>>,
    rows: Seq<Seq<Seq<char>>>,
    offset: nat,
    page_size: nat,
    gap: nat,
    pad: bool,
)
    requires
        offset <= rows.len(),
    ensures
        window_rows(rows, offset, page_size).len() == (if offset + page_size <= rows.len() {
            page_size
        } else {
            (rows.len() - offset) as nat
        }),
        forall|k: int|
            0 <= k < window_rows(rows, offset, page_size).len() ==> (#[trigger] window_rows(
                rows,
                offset,
                page_size,
            )[k]) == rows[offset + k],
        page_lines(names, window_rows(rows, offset, page_size), gap, pad).len() == window_rows(
            rows,
            offset,
            page_size,
        ).len() + 2,
{
}

/// A clipped line never holds more characters than the window is wide.
pub proof fn lemma_clipped_fits_window(line: Seq<char>, width: nat, offset: nat)
    ensures
        clipped(line, width, offset).len() <= width,
{
}

/// A line longer than the window, seen from its start, is cut to exactly the
/// window's width: its first `width` characters, with no line break added.
pub proof fn lemma_clip_longer_line(line: Seq<char>, width: nat)
    requires
        width < line.len(),
    ensures
        clipped(line, width, 0).len() == width,
        clipped(line, width, 0) == line.subrange(0, width as int),
{
}

/// A line shorter than the window, seen from its start, is shown whole and
/// ended by exactly one line break.
pub proof fn lemma_clip_shorter_line(line: Seq<char>, width: nat)
    requires
        line.len() < width,
    ensures
        clipped(line, width, 0) == line.push('\n'),
        clipped(line, width, 0).len() == line.len() + 1,
{
}

} // verus!
