//! The viewport: which rows and which character columns are on screen, and
//! how navigation keys move that window.
//!
//! Every transition is a constant-time update of four integers. The rules are
//! written once as functions on mathematical integers; the methods of
//! [`DisplaySettings`] implement them on `usize`.

use vstd::prelude::*;

verus! {

/// Row offset after one step down in a dataset of `total_rows` rows: one
/// further, unless the viewport already starts at the last row.
pub open spec fn row_after_down(offset: int, total_rows: int) -> int {
    if offset == total_rows - 1 {
        offset
    } else {
        offset + 1
    }
}

/// Row offset after one step up: one back, unless already at the first row.
pub open spec fn row_after_up(offset: int) -> int {
    if offset == 0 {
        0
    } else {
        offset - 1
    }
}

/// Row offset after a page down: a whole page further, but never past the
/// last row.
pub open spec fn row_after_page_down(offset: int, page_size: int, total_rows: int) -> int {
    if offset + page_size <= total_rows - 1 {
        offset + page_size
    } else {
        total_rows - 1
    }
}

/// Row offset after a page up: a whole page back where more than a page lies
/// above, else the first row.
pub open spec fn row_after_page_up(offset: int, page_size: int) -> int {
    if offset > page_size {
        offset - page_size
    } else {
        0
    }
}

/// Horizontal offset after one step right: one further, if the line is wider
/// than the window and the offset is not yet at the line's last character.
pub open spec fn x_after_right(x_offset: int, line_length: int, window_width: int) -> int {
    if line_length > window_width && x_offset != line_length - 1 {
        x_offset + 1
    } else {
        x_offset
    }
}

/// Horizontal offset after one step left.
pub open spec fn x_after_left(x_offset: int) -> int {
    if x_offset == 0 {
        0
    } else {
        x_offset - 1
    }
}

/// Row offset after `steps` steps down in a row.
pub open spec fn row_after_downs(offset: int, total_rows: int, steps: nat) -> int
    decreases steps,
{
    if steps == 0 {
        offset
    } else {
        row_after_down(row_after_downs(offset, total_rows, (steps - 1) as nat), total_rows)
    }
}

/// Row offset after `steps` steps up in a row.
pub open spec fn row_after_ups(offset: int, steps: nat) -> int
    decreases steps,
{
    if steps == 0 {
        offset
    } else {
        row_after_up(row_after_ups(offset, (steps - 1) as nat))
    }
}

/// The number of rows of a page on a terminal of `rows` lines: all lines but
/// the two that the header and its divider take.
pub open spec fn page_size_on(rows: int) -> int {
    rows - 2
}

/// The scroll position and the size of the visible window.
#[derive(Clone, Copy, Debug, PartialEq, Eq, Structural)]
pub struct DisplaySettings {
    /// Index of the first visible row.
    pub offset: usize,
    /// Number of rows fetched for one screen.
    pub page_size: usize,
    /// Index of the first visible character of every line.
    pub x_offset: usize,
    /// Number of characters that fit on one screen line.
    pub window_width: usize,
}

impl DisplaySettings {
    /// The first visible row lies inside a dataset of `total_rows` rows.
    pub open spec fn row_in_range(&self, total_rows: int) -> bool {
        self.offset < total_rows
    }

    /// The settings a session starts with on a terminal of `rows` lines and
    /// `cols` columns: two lines are kept for the header and its divider, and
    /// nothing is scrolled sideways.
    pub fn new(offset: usize, rows: usize, cols: usize) -> (settings: DisplaySettings)
        requires
            rows >= 2,
        ensures
            settings.offset == offset,
            settings.page_size == rows - 2,
            settings.x_offset == 0,
            settings.window_width == cols,
            settings.page_size == page_size_on(rows as int),
    {
        DisplaySettings { offset, page_size: rows - 2, x_offset: 0, window_width: cols }
    }

    /// Moves one row down, unless the viewport already starts at the last row.
    pub fn handle_key_down_arr(&mut self, df_length: usize)
        requires
            old(self).offset != df_length - 1 ==> old(self).offset < usize::MAX,
        ensures
            final(self).offset == row_after_down(old(self).offset as int, df_length as int),
            final(self).offset >= old(self).offset,
            old(self).row_in_range(df_length as int) ==> final(self).row_in_range(
                df_length as int,
            ),
            final(self).page_size == old(self).page_size,
            final(self).x_offset == old(self).x_offset,
            final(self).window_width == old(self).window_width,
    {
        if df_length == 0 || self.offset != df_length - 1 {
            self.offset += 1;
        }
    }

    /// Moves one row up, unless the viewport already starts at the first row.
    pub fn handle_key_up_arr(&mut self)
        ensures
            final(self).offset == row_after_up(old(self).offset as int),
            final(self).offset <= old(self).offset,
            final(self).page_size == old(self).page_size,
            final(self).x_offset == old(self).x_offset,
            final(self).window_width == old(self).window_width,
    {
        if self.offset != 0 {
            self.offset -= 1;
        }
    }

    /// Moves one character left, unless the line's start is already visible.
    pub fn handle_key_left_arr(&mut self)
        ensures
            final(self).x_offset == x_after_left(old(self).x_offset as int),
            final(self).offset == old(self).offset,
            final(self).page_size == old(self).page_size,
            final(self).window_width == old(self).window_width,
    {
        if self.x_offset != 0 {
            self.x_offset -= 1;
        }
    }

    /// Moves one character right, if lines of `line_length` characters do not
    /// fit the window and the offset is not yet at their last character.
    pub fn handle_key_right_arr(&mut self, line_length: usize)
        requires
            line_length > old(self).window_width && old(self).x_offset != line_length - 1
                ==> old(self).x_offset < usize::MAX,
        ensures
            final(self).x_offset == x_after_right(
                old(self).x_offset as int,
                line_length as int,
                old(self).window_width as int,
            ),
            line_length <= old(self).window_width ==> final(self).x_offset == old(self).x_offset,
            final(self).offset == old(self).offset,
            final(self).page_size == old(self).page_size,
            final(self).window_width == old(self).window_width,
    {
        if line_length > self.window_width && self.x_offset != line_length - 1 {
            self.x_offset += 1;
        }
    }

    /// Moves one page down, stopping at the last row of the dataset.
    pub fn handle_key_pgdown(&mut self, df_length: usize)
        requires
            df_length > 0,
        ensures
            final(self).offset == row_after_page_down(
                old(self).offset as int,
                old(self).page_size as int,
                df_length as int,
            ),
            final(self).row_in_range(df_length as int),
            final(self).page_size == old(self).page_size,
            final(self).x_offset == old(self).x_offset,
            final(self).window_width == old(self).window_width,
    {
        let last: usize = df_length - 1;
        if self.offset <= last && self.page_size <= last - self.offset {
            self.offset += self.page_size;
        } else {
            self.offset = last;
        }
    }

    /// Moves one page up, stopping at the first row.
    pub fn handle_key_pgup(&mut self)
        ensures
            final(self).offset == row_after_page_up(
                old(self).offset as int,
                old(self).page_size as int,
            ),
            final(self).offset <= old(self).offset,
            final(self).page_size == old(self).page_size,
            final(self).x_offset == old(self).x_offset,
            final(self).window_width == old(self).window_width,
    {
        if self.offset > self.page_size {
            self.offset = self.offset - self.page_size;
        } else {
            self.offset = 0;
        }
    }

    /// Takes over the size of a resized terminal of `rows` lines and `cols`
    /// columns, as a session that starts on such a terminal does: two lines
    /// are kept for the header and its divider. The view returns to the
    /// start of the lines; the first visible row stays.
    pub fn window_resized(&mut self, rows: usize, cols: usize)
        requires
            rows >= 2,
        ensures
            final(self).page_size == rows - 2,
            final(self).window_width == cols,
            final(self).x_offset == 0,
            final(self).offset == old(self).offset,
            final(self).page_size == page_size_on(rows as int),
    {
        self.page_size = rows - 2;
        self.window_width = cols;
        self.x_offset = 0;
    }
}

/// However many times the viewport steps down from a row inside the dataset,
/// the row offset never decreases from one step to the next and never passes
/// the last row.
pub proof fn lemma_down_steps_bounded(offset: int, total_rows: int, steps: nat)
    requires
        0 <= offset <= total_rows - 1,
    ensures
        offset <= row_after_downs(offset, total_rows, steps) <= total_rows - 1,
        row_after_downs(offset, total_rows, steps) <= row_after_downs(
            offset,
            total_rows,
            steps + 1,
        ),
    decreases steps,
{
    if steps > 0 {
        lemma_down_steps_bounded(offset, total_rows, (steps - 1) as nat);
    }
}

/// However many times the viewport steps up, the row offset never goes below
/// the first row and never increases from one step to the next.
pub proof fn lemma_up_steps_bounded(offset: int, steps: nat)
    requires
        0 <= offset,
    ensures
        0 <= row_after_ups(offset, steps) <= offset,
        row_after_ups(offset, steps + 1) <= row_after_ups(offset, steps),
    decreases steps,
{
    if steps > 0 {
        lemma_up_steps_bounded(offset, (steps - 1) as nat);
    }
}

/// A page down that is not stopped by the end of the dataset is undone by the
/// page up that follows it.
pub proof fn lemma_page_down_then_up(offset: int, page_size: int, total_rows: int)
    requires
        0 <= offset,
        0 <= page_size,
        offset + page_size <= total_rows - 1,
    ensures
        row_after_page_up(row_after_page_down(offset, page_size, total_rows), page_size)
            == offset,
{
}

/// Stepping right changes nothing while the line fits the window, wherever
/// the horizontal offset stands.
pub proof fn lemma_right_fits_noop(x_offset: int, line_length: int, window_width: int)
    requires
        line_length <= window_width,
    ensures
        x_after_right(x_offset, line_length, window_width) == x_offset,
{
}

} // verus!
