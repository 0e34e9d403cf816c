//! A browsing session: what it is started to do, and the state of the loop
//! that shows one page after the other.
//!
//! On a terminal the loop waits for keys and draws, which is not done here.
//! What it decides is: a [`Viewer`] holds the viewport, the lines of the
//! page last fetched and whether the next round must fetch again; it takes
//! in each page and each navigation event and says what to draw and whether
//! to go on. [`run_tui`] runs the same loop on a result that is at hand and
//! on events given in advance, and hands back what it draws.

use crate::cli::parser::Args;
use crate::format::{
    format_lines, page_lines, rectangular, screen_text, window_rows, ResultPage,
};
use crate::frame::{frame_column_names, frame_height, frame_shows};
use crate::queries::{build_query, query_text};
use crate::tui::{
    page_size_on, row_after_down, row_after_page_down, row_after_page_up, row_after_up,
    x_after_left, x_after_right, DisplaySettings,
};
use polars::prelude::DataFrame;
use vstd::prelude::*;

verus! {

/// The lines that are shown of the result of a query for the given viewport:
/// header, divider and the lines of the rows from the viewport's first row
/// on, a page of them or as many as are left. Values are padded to their
/// columns and followed by `args.whitespace` blanks.
pub fn get_display_strings(
    args: &Args,
    result: &ResultPage,
    display_settings: &DisplaySettings,
) -> (lines: Vec<String>)
    ensures
        lines.deep_view() == page_lines(
            result.names_text(),
            window_rows(
                result.rows_text(),
                display_settings.offset as nat,
                display_settings.page_size as nat,
            ),
            args.whitespace as nat,
            true,
        ),
        lines.len() == window_rows(
            result.rows_text(),
            display_settings.offset as nat,
            display_settings.page_size as nat,
        ).len() + 2,
{
    let page = result.window(display_settings.offset, display_settings.page_size);
    page.to_str_lines(args.whitespace, true)
}

/// What a key press or a change of the terminal asks of the viewer.
#[derive(Clone, Copy, Debug, PartialEq, Eq, Structural)]
pub enum NavEvent {
    /// One row up.
    MoveUp,
    /// One row down.
    MoveDown,
    /// One character left.
    MoveLeft,
    /// One character right.
    MoveRight,
    /// One page up.
    PageUp,
    /// One page down.
    PageDown,
    /// The terminal now has `rows` lines and `cols` columns.
    Resize { rows: usize, cols: usize },
    /// End the session.
    Quit,
    /// Any other input: nothing moves.
    Other,
}

/// The viewport that `event` leads to from `settings`, in a dataset of
/// `df_length` rows whose lines are `line_length` characters long.
pub open spec fn settings_after(
    settings: DisplaySettings,
    event: NavEvent,
    df_length: usize,
    line_length: usize,
) -> DisplaySettings {
    match event {
        NavEvent::MoveUp => DisplaySettings {
            offset: row_after_up(settings.offset as int) as usize,
            ..settings
        },
        NavEvent::MoveDown => DisplaySettings {
            offset: row_after_down(settings.offset as int, df_length as int) as usize,
            ..settings
        },
        NavEvent::MoveLeft => DisplaySettings {
            x_offset: x_after_left(settings.x_offset as int) as usize,
            ..settings
        },
        NavEvent::MoveRight => DisplaySettings {
            x_offset: x_after_right(
                settings.x_offset as int,
                line_length as int,
                settings.window_width as int,
            ) as usize,
            ..settings
        },
        NavEvent::PageUp => DisplaySettings {
            offset: row_after_page_up(settings.offset as int, settings.page_size as int) as usize,
            ..settings
        },
        NavEvent::PageDown => DisplaySettings {
            offset: row_after_page_down(
                settings.offset as int,
                settings.page_size as int,
                df_length as int,
            ) as usize,
            ..settings
        },
        NavEvent::Resize { rows, cols } => DisplaySettings {
            page_size: page_size_on(rows as int) as usize,
            window_width: cols,
            x_offset: 0,
            ..settings
        },
        NavEvent::Quit => settings,
        NavEvent::Other => settings,
    }
}

/// The viewport that `event` leads to can be held: a page down needs a
/// dataset with a last row, a resize a terminal with the two lines that
/// header and divider take, and a step down or right must not pass the
/// largest offset that the machine can count.
pub open spec fn event_fits(
    settings: DisplaySettings,
    event: NavEvent,
    df_length: usize,
    line_length: usize,
) -> bool {
    match event {
        NavEvent::MoveDown => settings.offset != df_length - 1 ==> settings.offset < usize::MAX,
        NavEvent::MoveRight => line_length > settings.window_width && settings.x_offset
            != line_length - 1 ==> settings.x_offset < usize::MAX,
        NavEvent::PageDown => df_length > 0,
        NavEvent::Resize { rows, cols } => rows >= 2,
        _ => true,
    }
}

/// Whether the page must be fetched again after `event`: always, but after a
/// step left or right, which only moves the window over the lines at hand.
pub open spec fn refetch_after(event: NavEvent) -> bool {
    !(event is MoveLeft || event is MoveRight)
}

/// The state of the loop that shows a dataset page by page.
#[derive(Clone, Debug)]
pub struct Viewer {
    /// The viewport.
    pub settings: DisplaySettings,
    /// Number of rows of the dataset, fixed for the session.
    pub df_length: usize,
    /// Number of blanks between columns.
    pub whitespace: usize,
    /// The lines of the page fetched last.
    pub lines: Vec<String>,
    /// Length of the header line of that page, in characters.
    pub line_length: usize,
    /// The next round must fetch the page again before it draws.
    pub recompute: bool,
}

impl Viewer {
    /// The state a session starts in, on a dataset of `df_length` rows and a
    /// terminal of `rows` lines and `cols` columns: the viewport at row
    /// `offset`, no lines yet, and the first page still to fetch.
    pub fn new(
        offset: usize,
        df_length: usize,
        whitespace: usize,
        rows: usize,
        cols: usize,
    ) -> (viewer: Viewer)
        requires
            rows >= 2,
        ensures
            viewer.settings == (DisplaySettings {
                offset,
                page_size: (rows - 2) as usize,
                x_offset: 0,
                window_width: cols,
            }),
            viewer.df_length == df_length,
            viewer.whitespace == whitespace,
            viewer.lines@.len() == 0,
            viewer.line_length == 0,
            viewer.recompute,
    {
        Viewer {
            settings: DisplaySettings::new(offset, rows, cols),
            df_length,
            whitespace,
            lines: Vec::new(),
            line_length: 0,
            recompute: true,
        }
    }

    /// Takes in the page that was fetched for the current viewport: its
    /// padded lines replace the ones at hand, and the header's length
    /// becomes the line length that steps to the right are measured by.
    pub fn show_page(&mut self, page: &ResultPage)
        ensures
            final(self).lines.deep_view() == page_lines(
                page.names_text(),
                page.rows_text(),
                old(self).whitespace as nat,
                true,
            ),
            final(self).lines.len() == page.rows_text().len() + 2,
            final(self).line_length == final(self).lines[0]@.len(),
            final(self).settings == old(self).settings,
            final(self).df_length == old(self).df_length,
            final(self).whitespace == old(self).whitespace,
            final(self).recompute == old(self).recompute,
    {
        let lines = page.to_str_lines(self.whitespace, true);
        self.line_length = lines[0].as_str().unicode_len();
        self.lines = lines;
    }

    /// Takes in the data frame that was fetched for the current viewport, as
    /// [`Viewer::show_page`] takes in the page that the frame gives when it
    /// is read, and says whether it did. A frame that cannot be read as a
    /// page (see [`ResultPage::from_frame`]) is not taken in, and nothing
    /// changes.
    pub fn show_frame(&mut self, df: &DataFrame) -> (shown: bool)
        ensures
            shown == frame_shows(*df),
            shown ==> {
                &&& exists|rows: Seq<Seq<Seq<char>>>|
                    rows.len() == frame_height(*df) && rectangular(frame_column_names(*df), rows)
                        && final(self).lines.deep_view() == page_lines(
                        frame_column_names(*df),
                        rows,
                        old(self).whitespace as nat,
                        true,
                    )
                &&& final(self).lines.len() == frame_height(*df) + 2
                &&& final(self).line_length == final(self).lines[0]@.len()
            },
            !shown ==> final(self).lines == old(self).lines && final(self).line_length == old(
                self,
            ).line_length,
            final(self).settings == old(self).settings,
            final(self).df_length == old(self).df_length,
            final(self).whitespace == old(self).whitespace,
            final(self).recompute == old(self).recompute,
    {
        match ResultPage::from_frame(df) {
            None => false,
            Some(page) => {
                self.show_page(&page);
                assert(page.rows_text().len() == frame_height(*df) && rectangular(
                    frame_column_names(*df),
                    page.rows_text(),
                ) && self.lines.deep_view() == page_lines(
                    frame_column_names(*df),
                    page.rows_text(),
                    self.whitespace as nat,
                    true,
                ));
                true
            },
        }
    }

    /// What the terminal shows: every line at hand, cut to the window.
    pub fn screen(&self) -> (text: String)
        ensures
            text@ == screen_text(
                self.lines.deep_view(),
                self.settings.window_width as nat,
                self.settings.x_offset as nat,
            ),
    {
        format_lines(&self.lines, self.settings.window_width, self.settings.x_offset)
    }

    /// Whether [`Viewer::handle`] can take `event` in the current state.
    pub fn can_handle(&self, event: NavEvent) -> (fits: bool)
        ensures
            fits == event_fits(self.settings, event, self.df_length, self.line_length),
    {
        match event {
            NavEvent::MoveDown => (self.df_length > 0 && self.settings.offset == self.df_length
                - 1) || self.settings.offset < usize::MAX,
            NavEvent::MoveRight => !(self.line_length > self.settings.window_width
                && self.settings.x_offset != self.line_length - 1) || self.settings.x_offset
                < usize::MAX,
            NavEvent::PageDown => self.df_length > 0,
            NavEvent::Resize { rows, cols } => rows >= 2,
            _ => true,
        }
    }

    /// Applies one navigation event to the viewport and says whether the
    /// session goes on: it does after every event but `Quit`. The page is
    /// marked for fetching again unless the event was a step left or right.
    pub fn handle(&mut self, event: NavEvent) -> (go_on: bool)
        requires
            event_fits(old(self).settings, event, old(self).df_length, old(self).line_length),
        ensures
            final(self).settings == settings_after(
                old(self).settings,
                event,
                old(self).df_length,
                old(self).line_length,
            ),
            final(self).recompute == refetch_after(event),
            go_on == !(event is Quit),
            final(self).df_length == old(self).df_length,
            final(self).whitespace == old(self).whitespace,
            final(self).lines == old(self).lines,
            final(self).line_length == old(self).line_length,
    {
        self.recompute = true;
        match event {
            NavEvent::MoveDown => self.settings.handle_key_down_arr(self.df_length),
            NavEvent::MoveUp => self.settings.handle_key_up_arr(),
            NavEvent::MoveRight => {
                self.settings.handle_key_right_arr(self.line_length);
                self.recompute = false;
            },
            NavEvent::MoveLeft => {
                self.settings.handle_key_left_arr();
                self.recompute = false;
            },
            NavEvent::PageDown => self.settings.handle_key_pgdown(self.df_length),
            NavEvent::PageUp => self.settings.handle_key_pgup(),
            NavEvent::Resize { rows, cols } => self.settings.window_resized(rows, cols),
            NavEvent::Quit => {
                return false;
            },
            NavEvent::Other => {},
        }
        true
    }
}

/// Whatever event a viewport takes whose first row lies inside the dataset,
/// its first row lies inside the dataset afterwards.
pub proof fn lemma_event_keeps_row_in_range(
    settings: DisplaySettings,
    event: NavEvent,
    df_length: usize,
    line_length: usize,
)
    requires
        settings.row_in_range(df_length as int),
    ensures
        settings_after(settings, event, df_length, line_length).row_in_range(df_length as int),
{
}

/// Stepping left or right never moves a window that starts inside lines of
/// `line_length` characters past their last character.
pub proof fn lemma_steps_keep_column_in_range(
    settings: DisplaySettings,
    event: NavEvent,
    df_length: usize,
    line_length: usize,
)
    requires
        settings.x_offset < line_length,
        event is MoveLeft || event is MoveRight,
    ensures
        settings_after(settings, event, df_length, line_length).x_offset < line_length,
        settings_after(settings, event, df_length, line_length).offset == settings.offset,
{
}

/// A resize to a terminal of at least two lines leaves the viewport with the
/// page size and the window width that a session starting on that terminal
/// has, at the start of the lines, wherever it stood; the first visible row
/// stays.
pub proof fn lemma_resize_resets(
    settings: DisplaySettings,
    rows: usize,
    cols: usize,
    df_length: usize,
    line_length: usize,
)
    requires
        rows >= 2,
    ensures
        settings_after(settings, NavEvent::Resize { rows, cols }, df_length, line_length) == (
        DisplaySettings {
            offset: settings.offset,
            page_size: (rows - 2) as usize,
            x_offset: 0,
            window_width: cols,
        }),
        settings_after(
            settings,
            NavEvent::Resize { rows, cols },
            df_length,
            line_length,
        ).page_size == page_size_on(rows as int),
{
}

/// The lines at hand when a round of the loop draws: those of the page at
/// the viewport if the page is due for fetching, else the lines of the round
/// before.
pub open spec fn lines_in_view(
    names: Seq<Seq<char>>,
    rows: Seq<Seq<Seq<char>>>,
    gap: nat,
    settings: DisplaySettings,
    lines: Seq<Seq<char>>,
    recompute: bool,
) -> Seq<Seq<char>> {
    if recompute {
        page_lines(
            names,
            window_rows(rows, settings.offset as nat, settings.page_size as nat),
            gap,
            true,
        )
    } else {
        lines
    }
}

/// The texts that the loop draws, round by round, while it reads `events`:
/// each round draws the lines in view, cut to the window, and then takes
/// the next event. The loop ends after the round in which it reads `Quit`
/// or finds no event left.
pub open spec fn texts_drawn(
    names: Seq<Seq<char>>,
    rows: Seq<Seq<Seq<char>>>,
    gap: nat,
    df_length: usize,
    settings: DisplaySettings,
    lines: Seq<Seq<char>>,
    recompute: bool,
    events: Seq<NavEvent>,
) -> Seq<Seq<char>>
    decreases events.len(),
{
    let shown = lines_in_view(names, rows, gap, settings, lines, recompute);
    let text = screen_text(shown, settings.window_width as nat, settings.x_offset as nat);
    if events.len() == 0 || events[0] is Quit {
        seq![text]
    } else {
        seq![text] + texts_drawn(
            names,
            rows,
            gap,
            df_length,
            settings_after(settings, events[0], df_length, shown[0].len() as usize),
            shown,
            refetch_after(events[0]),
            events.drop_first(),
        )
    }
}

/// Every event that the loop reads before it ends fits the viewport that it
/// meets (see [`event_fits`]).
pub open spec fn events_fit(
    names: Seq<Seq<char>>,
    rows: Seq<Seq<Seq<char>>>,
    gap: nat,
    df_length: usize,
    settings: DisplaySettings,
    lines: Seq<Seq<char>>,
    recompute: bool,
    events: Seq<NavEvent>,
) -> bool
    decreases events.len(),
{
    let shown = lines_in_view(names, rows, gap, settings, lines, recompute);
    events.len() == 0 || events[0] is Quit || (event_fits(
        settings,
        events[0],
        df_length,
        shown[0].len() as usize,
    ) && events_fit(
        names,
        rows,
        gap,
        df_length,
        settings_after(settings, events[0], df_length, shown[0].len() as usize),
        shown,
        refetch_after(events[0]),
        events.drop_first(),
    ))
}

/// A session that reads a page down and then `Quit` draws two texts: the
/// page at the row where it starts, and the page one page further on, or at
/// the last row of the dataset where that comes first. Then it ends.
pub proof fn lemma_page_down_then_quit(
    names: Seq<Seq<char>>,
    rows: Seq<Seq<Seq<char>>>,
    gap: nat,
    df_length: usize,
    settings: DisplaySettings,
)
    requires
        df_length > 0,
    ensures
        texts_drawn(
            names,
            rows,
            gap,
            df_length,
            settings,
            Seq::empty(),
            true,
            seq![NavEvent::PageDown, NavEvent::Quit],
        ) == seq![
            screen_text(
                page_lines(
                    names,
                    window_rows(rows, settings.offset as nat, settings.page_size as nat),
                    gap,
                    true,
                ),
                settings.window_width as nat,
                settings.x_offset as nat,
            ),
            screen_text(
                page_lines(
                    names,
                    window_rows(
                        rows,
                        row_after_page_down(
                            settings.offset as int,
                            settings.page_size as int,
                            df_length as int,
                        ) as nat,
                        settings.page_size as nat,
                    ),
                    gap,
                    true,
                ),
                settings.window_width as nat,
                settings.x_offset as nat,
            ),
        ],
{
    let events = seq![NavEvent::PageDown, NavEvent::Quit];
    let shown = lines_in_view(names, rows, gap, settings, Seq::empty(), true);
    let next = settings_after(settings, NavEvent::PageDown, df_length, shown[0].len() as usize);
    reveal_with_fuel(texts_drawn, 3);
    assert(events.drop_first() =~= seq![NavEvent::Quit]);
    assert(next.offset == row_after_page_down(
        settings.offset as int,
        settings.page_size as int,
        df_length as int,
    ));
    assert(texts_drawn(names, rows, gap, df_length, next, shown, true, seq![NavEvent::Quit])
        =~= seq![
        screen_text(
            lines_in_view(names, rows, gap, next, shown, true),
            next.window_width as nat,
            next.x_offset as nat,
        ),
    ]);
}

/// Runs the loop of a session on the result of its query, with the events
/// that it will read given in advance, and hands back the texts drawn, one
/// per round. The terminal has `rows` lines and `cols` columns; the viewport
/// starts at row `args.offset`. Each round fetches the page at the viewport
/// if it is due, draws, and applies the next event; the loop ends after the
/// round in which it reads `Quit` or finds no event left.
pub fn run_tui(
    args: &Args,
    result: &ResultPage,
    rows: usize,
    cols: usize,
    events: &Vec<NavEvent>,
) -> (drawn: Vec<String>)
    requires
        rows >= 2,
        events_fit(
            result.names_text(),
            result.rows_text(),
            args.whitespace as nat,
            result.rows_text().len() as usize,
            (DisplaySettings {
                offset: args.offset,
                page_size: (rows - 2) as usize,
                x_offset: 0,
                window_width: cols,
            }),
            Seq::empty(),
            true,
            events@,
        ),
    ensures
        drawn.deep_view() == texts_drawn(
            result.names_text(),
            result.rows_text(),
            args.whitespace as nat,
            result.rows_text().len() as usize,
            (DisplaySettings {
                offset: args.offset,
                page_size: (rows - 2) as usize,
                x_offset: 0,
                window_width: cols,
            }),
            Seq::empty(),
            true,
            events@,
        ),
        drawn.len() >= 1,
{
    let df_length: usize = result.height();
    let mut viewer = Viewer::new(args.offset, df_length, args.whitespace, rows, cols);
    let mut drawn: Vec<String> = Vec::new();
    let mut read: usize = 0;
    let ghost names = result.names_text();
    let ghost table = result.rows_text();
    let ghost gap = args.whitespace as nat;
    let ghost whole = texts_drawn(
        names,
        table,
        gap,
        df_length,
        viewer.settings,
        Seq::empty(),
        true,
        events@,
    );
    assert(events@.skip(0) == events@);
    assert(viewer.lines.deep_view() == Seq::<Seq<char>>::empty());
    assert(drawn.deep_view() + whole == whole);
    loop
        invariant_except_break
            read <= events.len(),
            names == result.names_text(),
            table == result.rows_text(),
            gap == args.whitespace as nat,
            viewer.df_length == df_length,
            viewer.whitespace == args.whitespace,
            viewer.recompute || (viewer.lines.len() > 0 && viewer.line_length
                == viewer.lines[0]@.len()),
            events_fit(
                names,
                table,
                gap,
                df_length,
                viewer.settings,
                viewer.lines.deep_view(),
                viewer.recompute,
                events@.skip(read as int),
            ),
            drawn.deep_view() + texts_drawn(
                names,
                table,
                gap,
                df_length,
                viewer.settings,
                viewer.lines.deep_view(),
                viewer.recompute,
                events@.skip(read as int),
            ) == whole,
        ensures
            drawn.deep_view() == whole,
            drawn.len() >= 1,
        decreases events.len() - read,
    {
        let ghost before = drawn.deep_view();
        let ghost rest = events@.skip(read as int);
        let ghost shown = lines_in_view(
            names,
            table,
            gap,
            viewer.settings,
            viewer.lines.deep_view(),
            viewer.recompute,
        );
        if viewer.recompute {
            let lines = get_display_strings(args, result, &viewer.settings);
            viewer.line_length = lines[0].as_str().unicode_len();
            viewer.lines = lines;
        }
        assert(viewer.lines.deep_view() == shown);
        assert(viewer.lines.deep_view()[0] == viewer.lines[0]@);
        assert(shown[0].len() as usize == viewer.line_length);
        let text = viewer.screen();
        drawn.push(text);
        assert(drawn.deep_view() == before.push(text@));
        if read >= events.len() {
            assert(rest.len() == 0);
            assert(before + seq![text@] == before.push(text@));
            break;
        }
        let event = events[read];
        assert(rest[0] == event);
        assert(rest.drop_first() == events@.skip(read + 1));
        read += 1;
        if !viewer.handle(event) {
            assert(before + seq![text@] == before.push(text@));
            break;
        }
        assert(before + (seq![text@] + texts_drawn(
            names,
            table,
            gap,
            df_length,
            viewer.settings,
            shown,
            viewer.recompute,
            events@.skip(read as int),
        )) == before.push(text@) + texts_drawn(
            names,
            table,
            gap,
            df_length,
            viewer.settings,
            shown,
            viewer.recompute,
            events@.skip(read as int),
        ));
    }
    drawn
}

/// What a session does with the result of its query.
#[derive(Clone, Copy, Debug, PartialEq, Eq, Structural)]
pub enum Mode {
    /// Write the whole result to the output file and end.
    Export,
    /// Show the result page by page on the terminal.
    Interactive,
}

/// What a session is started to do.
#[derive(Clone, Debug)]
pub struct Plan {
    /// The name under which the dataset is registered for queries.
    pub table: String,
    /// The query that selects what is shown or written.
    pub query: String,
    /// Whether the result is written out or shown.
    pub mode: Mode,
}

/// Plans a session from its options: the dataset is registered under the
/// fixed name `data`, the query is built against that name, and the result
/// is written out if an output path is given, else shown.
pub fn run(args: &Args) -> (plan: Plan)
    ensures
        plan.table@ == "data"@,
        plan.query@ == query_text(args.query@, args.columns@, args.where_clause@, "data"@),
        plan.mode == (if args.output@.len() != 0 {
            Mode::Export
        } else {
            Mode::Interactive
        }),
{
    let lf_name = "data";
    let query = build_query(args, lf_name);
    let mode = if !args.output.as_str().is_empty() {
        Mode::Export
    } else {
        Mode::Interactive
    };
    Plan { table: String::from_str(lf_name), query, mode }
}

} // verus!
