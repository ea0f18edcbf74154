//! What a frame looks like: the measures of the layout, and for each mode the
//! boxes, colours and cursor that the screen shows. Drawing itself is left to
//! the terminal.

use crate::app_interactor::Mode;
use crate::display_data::DisplayData;
use unicode_width::UnicodeWidthStr;
use vstd::prelude::*;

verus! {

pub const SEARCH_BOX_LENGTH: u16 = 3;

pub const HELP_BOX_LENGTH: u16 = 3;

pub const CONTENT_CHUNK_MIN_SIZE: u16 = 3;

pub const LIST_WIDTH_PERCENT: u16 = 20;

pub const CONTENT_WIDTH_PERCENT: u16 = 80;

pub const MARGIN: u16 = 1;

pub const POPUP_WIDTH_PERCENT: u16 = 50;

pub const POPUP_HEIGHT: u16 = 3;

/// The number of terminal columns that a text takes when ambiguous-width
/// characters count as wide, as `unicode_width` measures it.
pub uninterp spec fn cjk_width(text: Seq<char>) -> nat;

/// Calls `UnicodeWidthStr::width_cjk`. Trusted: the result is the width that
/// `cjk_width` names, a function of the text alone.
#[verifier::external_body]
fn width_cjk(text: &str) -> (columns: usize)
    ensures
        columns == cjk_width(text@),
{
    text.width_cjk()
}

/// How much room one part of a split gets.
#[derive(Clone, Copy, Debug, PartialEq, Eq, Structural)]
pub enum Constraint {
    Percentage(u16),
    Length(u16),
    Min(u16),
}

/// The colours that the boxes use.
#[derive(Clone, Copy, Debug, PartialEq, Eq, Structural)]
pub enum Color {
    Default,
    Blue,
    White,
    Red,
}

/// The dialogue shown over the screen.
#[derive(Clone, Copy, Debug, PartialEq, Eq, Structural)]
pub enum Popup {
    Nothing,
    NewFileName,
    DeleteConfirm,
}

/// Where the text cursor is shown: nowhere, or in a box, so many columns
/// right of the box's left edge.
#[derive(Clone, Copy, Debug, PartialEq, Eq, Structural)]
pub enum CursorPlace {
    Hidden,
    SearchBox(u16),
    NewFileName(u16),
}

/// What a frame shows besides the texts.
#[derive(Clone, Copy, Debug, PartialEq, Eq, Structural)]
pub struct FramePlan {
    /// The colour of the list's border.
    pub list_border: Color,
    /// The colour of the search box, if the box is shown.
    pub search_box: Option<Color>,
    pub popup: Popup,
    pub cursor: CursorPlace,
}

/// The rows left for the list once the help box and the margins are taken
/// from a terminal of `terminal_height` rows; none on a terminal too small
/// for them.
pub open spec fn list_rows(terminal_height: nat) -> nat {
    if terminal_height >= HELP_BOX_LENGTH + MARGIN * 4 {
        (terminal_height - HELP_BOX_LENGTH - MARGIN * 4) as nat
    } else {
        0
    }
}

/// The number of entries that a half-page jump moves over: half the rows of
/// the list.
pub open spec fn half_page(terminal_height: nat) -> nat {
    list_rows(terminal_height) / 2
}

/// The parts of the screen from top to bottom: the list and content, the
/// search box if it is shown, and the help.
pub open spec fn main_parts(need_search_box: bool) -> Seq<Constraint> {
    if need_search_box {
        seq![
            Constraint::Min(CONTENT_CHUNK_MIN_SIZE),
            Constraint::Length(SEARCH_BOX_LENGTH),
            Constraint::Length(HELP_BOX_LENGTH),
        ]
    } else {
        seq![Constraint::Min(CONTENT_CHUNK_MIN_SIZE), Constraint::Length(HELP_BOX_LENGTH)]
    }
}

/// The share that is left on either side of a part `percent` wide.
pub open spec fn side_percent(percent: nat) -> nat {
    if percent <= 100 {
        ((100 - percent) / 2) as nat
    } else {
        0
    }
}

/// The column, counted from a box's left edge, at which the cursor stands
/// behind the text typed into the box: one past the border and the text, as
/// far as a column number can say.
pub open spec fn cursor_column(text: Seq<char>) -> nat {
    if cjk_width(text) + 1 <= u16::MAX {
        cjk_width(text) + 1
    } else {
        u16::MAX as nat
    }
}

/// The plan of a frame: the list's border is blue in normal mode; the search
/// box, where it is needed, is blue while a query is typed and white
/// afterwards; the two dialogues belong to their modes; the cursor stands
/// behind the text that is being typed.
pub open spec fn frame_plan(
    mode: Mode,
    need_search_box: bool,
    search_query: Seq<char>,
    new_filename: Seq<char>,
) -> FramePlan {
    FramePlan {
        list_border: if mode == Mode::Normal {
            Color::Blue
        } else {
            Color::Default
        },
        search_box: if need_search_box {
            Some(
                if mode == Mode::Search {
                    Color::Blue
                } else {
                    Color::White
                },
            )
        } else {
            None
        },
        popup: match mode {
            Mode::Insert => Popup::NewFileName,
            Mode::DeleteConfirm => Popup::DeleteConfirm,
            _ => Popup::Nothing,
        },
        cursor: match mode {
            Mode::Insert => CursorPlace::NewFileName(cursor_column(new_filename) as u16),
            Mode::Search => if need_search_box {
                CursorPlace::SearchBox(cursor_column(search_query) as u16)
            } else {
                CursorPlace::Hidden
            },
            _ => CursorPlace::Hidden,
        },
    }
}

/// The rows of the list on a terminal of the given height.
pub fn list_height(terminal_height: u16) -> (rows: u16)
    ensures
        rows == list_rows(terminal_height as nat),
{
    let chrome: u16 = HELP_BOX_LENGTH + MARGIN * 4;
    if terminal_height >= chrome {
        terminal_height - chrome
    } else {
        0
    }
}

/// The size of a half-page jump on a terminal of the given height.
pub fn half_page_jump(terminal_height: u16) -> (entries: u16)
    ensures
        entries == half_page(terminal_height as nat),
{
    list_height(terminal_height) / 2
}

/// The parts into which the screen is split from top to bottom.
pub fn build_main_layout(need_search_box: bool) -> (parts: Vec<Constraint>)
    ensures
        parts@ == main_parts(need_search_box),
{
    let mut parts: Vec<Constraint> = Vec::new();
    parts.push(Constraint::Min(CONTENT_CHUNK_MIN_SIZE));
    if need_search_box {
        parts.push(Constraint::Length(SEARCH_BOX_LENGTH));
    }
    parts.push(Constraint::Length(HELP_BOX_LENGTH));
    assert(parts@ =~= main_parts(need_search_box));
    parts
}

/// The two splits that centre a box `percent_x` wide and `height` high: the
/// first from top to bottom, the second from left to right; the box is the
/// middle part of each.
pub fn centered_rect(percent_x: u16, height: u16) -> (splits: (Vec<Constraint>, Vec<Constraint>))
    ensures
        splits.0@ == seq![
            Constraint::Percentage(50),
            Constraint::Length(height),
            Constraint::Percentage(50),
        ],
        splits.1@ == seq![
            Constraint::Percentage(side_percent(percent_x as nat) as u16),
            Constraint::Percentage(percent_x),
            Constraint::Percentage(side_percent(percent_x as nat) as u16),
        ],
{
    let side: u16 = if percent_x <= 100 {
        (100 - percent_x) / 2
    } else {
        0
    };
    let mut rows: Vec<Constraint> = Vec::new();
    rows.push(Constraint::Percentage(50));
    rows.push(Constraint::Length(height));
    rows.push(Constraint::Percentage(50));
    let mut columns: Vec<Constraint> = Vec::new();
    columns.push(Constraint::Percentage(side));
    columns.push(Constraint::Percentage(percent_x));
    columns.push(Constraint::Percentage(side));
    assert(rows@ =~= seq![
        Constraint::Percentage(50),
        Constraint::Length(height),
        Constraint::Percentage(50),
    ]);
    assert(columns@ =~= seq![
        Constraint::Percentage(side),
        Constraint::Percentage(percent_x),
        Constraint::Percentage(side),
    ]);
    (rows, columns)
}

/// The cursor's column behind a text of the given width.
pub fn column_after(width: usize) -> (column: u16)
    ensures
        column == if width + 1 <= u16::MAX {
            (width + 1) as u16
        } else {
            u16::MAX
        },
{
    if width < u16::MAX as usize {
        (width + 1) as u16
    } else {
        u16::MAX
    }
}

/// The colour of the list's border in a mode.
pub fn generate_filename_list(mode: &Mode) -> (border: Color)
    ensures
        border == if *mode == Mode::Normal {
            Color::Blue
        } else {
            Color::Default
        },
{
    match mode {
        Mode::Normal => Color::Blue,
        _ => Color::Default,
    }
}

/// The colour of the search box in a mode: blue only while it has the focus.
pub fn generate_search_box(mode: &Mode) -> (color: Color)
    ensures
        color == if *mode == Mode::Search {
            Color::Blue
        } else {
            Color::White
        },
{
    match mode {
        Mode::Search => Color::Blue,
        _ => Color::White,
    }
}

/// Plans the frame that shows `display_data`.
pub fn render(display_data: &DisplayData) -> (plan: FramePlan)
    ensures
        plan == frame_plan(
            display_data.mode,
            display_data.need_search_box,
            display_data.search_query.body@,
            display_data.new_filename.body@,
        ),
{
    let search_box = if display_data.need_search_box {
        Some(generate_search_box(&display_data.mode))
    } else {
        None
    };
    let popup = match display_data.mode {
        Mode::Insert => Popup::NewFileName,
        Mode::DeleteConfirm => Popup::DeleteConfirm,
        _ => Popup::Nothing,
    };
    let cursor = match display_data.mode {
        Mode::Insert => CursorPlace::NewFileName(
            column_after(width_cjk(display_data.new_filename.body.as_str())),
        ),
        Mode::Search => if display_data.need_search_box {
            CursorPlace::SearchBox(column_after(width_cjk(display_data.search_query.body.as_str())))
        } else {
            CursorPlace::Hidden
        },
        _ => CursorPlace::Hidden,
    };
    FramePlan { list_border: generate_filename_list(&display_data.mode), search_box, popup, cursor }
}

} // verus!
