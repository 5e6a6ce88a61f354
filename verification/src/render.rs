//! What a frame shows: the areas of the screen and what goes into each.
//!
//! [`App::draw`] lays the screen out and [`App::arrange`] fills the areas in.
//! Painting the result onto a terminal is the main loop's part.

use vstd::prelude::*;
use crate::app::{App, AppState, InputMode};
use crate::scroll::ScrollAxis;

verus! {

/// Height of the help line at the top of the screen, in rows.
pub const HELP_HEIGHT: u16 = 1;

/// Share of the screen's height that the viewport asks for, in percent. The
/// help line and the scrollbar row are served first.
pub const CONTENT_PERCENT: u16 = 99;

/// Height of the row of the horizontal scrollbar at the bottom, in rows.
pub const TRACK_HEIGHT: u16 = 1;

/// Share of the screen's width that the popup takes, in percent.
pub const POPUP_PERCENT: u16 = 60;

/// Height of the popup in rows: one line of text inside a border.
pub const POPUP_HEIGHT: u16 = 3;

/// A rectangle of terminal cells.
#[derive(Clone, Copy, Debug, PartialEq, Eq, Structural)]
pub struct Rect {
    pub x: u16,
    pub y: u16,
    pub width: u16,
    pub height: u16,
}

/// A cell of the terminal, or a distance in cells.
#[derive(Clone, Copy, Debug, PartialEq, Eq, Structural)]
pub struct Position {
    /// Column.
    pub x: u16,
    /// Row.
    pub y: u16,
}

/// The popup with the argument line.
#[derive(Debug, PartialEq, Eq)]
pub struct Popup {
    /// Where the popup is drawn, border and all.
    pub area: Rect,
    /// The text of the argument line.
    pub text: String,
    /// The cell of the text cursor, if it is to be shown.
    pub cursor: Option<Position>,
}

/// One frame of the dashboard.
#[derive(Debug, PartialEq, Eq)]
pub struct Screen {
    /// The row of the help line.
    pub instructions: Rect,
    /// The help line.
    pub help: &'static str,
    /// The viewport of the captured output. The vertical scrollbar lies on
    /// its right edge.
    pub content: Rect,
    /// Number of columns and of lines of the output that are scrolled out of
    /// the viewport at the left and at the top.
    pub scroll: Position,
    /// Position and content length for the vertical scrollbar.
    pub vertical_bar: ScrollAxis,
    /// The track of the horizontal scrollbar.
    pub horizontal_track: Rect,
    /// Position and content length for the horizontal scrollbar.
    pub horizontal_bar: ScrollAxis,
    /// The popup, while it is open. It is drawn last, over a cleared area.
    pub popup: Option<Popup>,
}

/// `n` as a screen coordinate: what does not fit is held at the largest
/// coordinate.
pub open spec fn to_coordinate(n: int) -> u16 {
    if n <= u16::MAX {
        n as u16
    } else {
        u16::MAX
    }
}

/// The help line: how to leave the popup while it is open, the keys of the
/// normal mode otherwise.
pub open spec fn help_text(show_popup: bool) -> Seq<char> {
    if show_popup {
        "<esc> to close"@
    } else {
        "<i> :input / <q>, <Esc> :exit / <j> <k> , ▲ ▼ :scroll"@
    }
}

/// The cell of the text cursor in a popup drawn at `area`: one row below the
/// upper border, and as many columns behind the left border as there are
/// characters before the cursor. Cells beyond the largest coordinate are held
/// there.
pub open spec fn cursor_cell(area: Rect, character_index: nat) -> Position {
    Position {
        x: to_coordinate(area.x + to_coordinate(character_index as int) + 1),
        y: to_coordinate(area.y + 1),
    }
}

/// Whether the stretch of `length` cells from `start` lies in the middle of
/// the stretch of `outer_length` cells from `outer_start`: the cells left
/// over before it and behind it differ by one at most.
pub open spec fn centred(outer_start: int, outer_length: int, start: int, length: int) -> bool {
    -1 <= (start - outer_start) - (outer_start + outer_length - start - length) <= 1
}

/// `percent` percent of `length` cells, in whole cells.
pub open spec fn share(length: int, percent: int) -> int {
    length * percent / 100
}

/// Whether the right and the lower edge of `area` are screen coordinates.
/// Beyond the largest coordinate the layout solver cuts an area off.
pub open spec fn on_screen(area: Rect) -> bool {
    area.x + area.width <= u16::MAX && area.y + area.height <= u16::MAX
}

/// What holds of the popup wherever the layout solver puts it: it lies
/// within `area`; it is [`POPUP_HEIGHT`] rows high where `area` has that
/// many; it is centred in both directions; and its width is the share of
/// `percent_x` percent of the columns, give or take the one cell that
/// rounding to cells can cost.
pub open spec fn popup_placed(area: Rect, percent_x: u16, popup: Rect) -> bool {
    &&& popup.within(area)
    &&& area.height >= POPUP_HEIGHT && area.y + POPUP_HEIGHT <= u16::MAX ==> popup.height
        == POPUP_HEIGHT
    &&& on_screen(area) ==> centred(
        area.y as int,
        area.height as int,
        popup.y as int,
        popup.height as int,
    )
    &&& on_screen(area) ==> centred(
        area.x as int,
        area.width as int,
        popup.x as int,
        popup.width as int,
    )
    &&& on_screen(area) && percent_x <= 100 ==> share(area.width as int, percent_x as int) - 1
        <= popup.width <= share(area.width as int, percent_x as int) + 1
}

/// What holds of the three bands of a frame for a terminal of size `area`,
/// wherever the layout solver puts them. Each band spans the columns of
/// `area` and lies within its rows. On a terminal of two rows or more the
/// help line is the first row and the viewport begins below it. Where the
/// viewport's share of [`CONTENT_PERCENT`] percent is no less than what the
/// two single rows leave over, the viewport takes all of that and the last
/// row is left for the scrollbar.
pub open spec fn bands_placed(area: Rect, instructions: Rect, content: Rect, bottom: Rect) -> bool {
    &&& instructions.within(area) && instructions.x == area.x && instructions.width == area.width
    &&& content.within(area) && content.x == area.x && content.width == area.width
    &&& bottom.within(area) && bottom.x == area.x && bottom.width == area.width
    &&& on_screen(area) && area.height >= HELP_HEIGHT + TRACK_HEIGHT ==> {
        &&& instructions.y == area.y
        &&& instructions.height == HELP_HEIGHT
        &&& content.y == area.y + HELP_HEIGHT
        &&& 100 * (area.height - HELP_HEIGHT - TRACK_HEIGHT) <= CONTENT_PERCENT * area.height ==> {
            &&& content.height == area.height - HELP_HEIGHT - TRACK_HEIGHT
            &&& bottom.y == area.y + area.height - TRACK_HEIGHT
            &&& bottom.height == TRACK_HEIGHT
        }
    }
}

impl Rect {
    /// Whether `self` lies within `outer`: it begins no further left and no
    /// higher, and ends no further right and no lower.
    pub open spec fn within(self, outer: Rect) -> bool {
        &&& outer.x <= self.x
        &&& self.x + self.width <= outer.x + outer.width
        &&& outer.y <= self.y
        &&& self.y + self.height <= outer.y + outer.height
    }

    /// The rectangle that is left inside `self` when `horizontal` columns are
    /// taken off at the left and at the right and `vertical` rows at the top
    /// and at the bottom. If `self` is too small for that, nothing is left.
    pub open spec fn spec_inner(self, horizontal: u16, vertical: u16) -> Rect {
        if self.width < to_coordinate(2 * horizontal) || self.height < to_coordinate(2 * vertical) {
            Rect { x: 0, y: 0, width: 0, height: 0 }
        } else {
            Rect {
                x: to_coordinate(self.x + horizontal),
                y: to_coordinate(self.y + vertical),
                width: (self.width - to_coordinate(2 * horizontal)) as u16,
                height: (self.height - to_coordinate(2 * vertical)) as u16,
            }
        }
    }

    /// Computes [`Rect::spec_inner`].
    pub fn inner(self, horizontal: u16, vertical: u16) -> (inside: Rect)
        ensures
            inside == self.spec_inner(horizontal, vertical),
    {
        let doubled_horizontal: u16 = horizontal.saturating_add(horizontal);
        let doubled_vertical: u16 = vertical.saturating_add(vertical);
        if self.width < doubled_horizontal || self.height < doubled_vertical {
            Rect { x: 0, y: 0, width: 0, height: 0 }
        } else {
            Rect {
                x: self.x.saturating_add(horizontal),
                y: self.y.saturating_add(vertical),
                width: self.width - doubled_horizontal,
                height: self.height - doubled_vertical,
            }
        }
    }
}

/// `ratatui::layout::Layout::vertical` and its `split`, for a row of fixed
/// height at the top, a share of the height in the middle and a row of fixed
/// height at the bottom, laid out from the top. Claimed of what the solver
/// gives:
/// - every row spans the columns of `area` and lies within its rows, which
///   the solver is required to keep to;
/// - where both fixed heights fit, the top row begins with `area` and has its
///   height, and the middle row follows it: a fixed height ranks above a
///   share, and rows are laid out without gaps from the start;
/// - where the share asked for is no less than what the fixed rows leave
///   over, the middle row takes all of that and the bottom row ends with
///   `area`.
///
/// Nothing is claimed of the middle and bottom rows where the share is
/// smaller than what is left over: it need not be a whole number of rows.
#[verifier::external_body]
fn split_rows(area: Rect, top: u16, percent: u16, bottom: u16) -> (rows: Vec<Rect>)
    ensures
        rows@.len() == 3,
        forall|i: int|
            0 <= i < 3 ==> {
                &&& (#[trigger] rows@[i]).x == area.x
                &&& rows@[i].width == area.width
                &&& area.y <= rows@[i].y
                &&& rows@[i].y + rows@[i].height <= area.y + area.height
            },
        area.y + area.height <= u16::MAX && top + bottom <= area.height ==> {
            &&& rows@[0].y == area.y
            &&& rows@[0].height == top
            &&& rows@[1].y == area.y + top
        },
        area.y + area.height <= u16::MAX && top + bottom <= area.height && 100 * (area.height
            - top - bottom) <= percent * area.height ==> {
            &&& rows@[1].height == area.height - top - bottom
            &&& rows@[2].y == area.y + area.height - bottom
            &&& rows@[2].height == bottom
        },
{
    let whole = ratatui::layout::Rect { x: area.x, y: area.y, width: area.width, height: area.height };
    ratatui::layout::Layout::vertical([
        ratatui::layout::Constraint::Length(top),
        ratatui::layout::Constraint::Percentage(percent),
        ratatui::layout::Constraint::Length(bottom),
    ]).split(whole).iter().map(
        |r| Rect { x: r.x, y: r.y, width: r.width, height: r.height },
    ).collect()
}

/// `ratatui::layout::Layout::vertical` with `Flex::Center`, for one row of
/// fixed height. Claimed of what the solver gives:
/// - the row spans the columns of `area` and lies within its rows, which the
///   solver is required to keep to;
/// - where the height fits it is the row's height, as `Constraint::Length`
///   is documented to set it;
/// - the space before and behind the row is the same but for the one cell
///   that rounding to cells can cost, as `Flex::Center` asks of the solver.
#[verifier::external_body]
fn center_rows(area: Rect, height: u16) -> (row: Rect)
    ensures
        row.x == area.x,
        row.width == area.width,
        area.y <= row.y,
        row.y + row.height <= area.y + area.height,
        area.height >= height && area.y + height <= u16::MAX ==> row.height == height,
        area.y + area.height <= u16::MAX ==> centred(
            area.y as int,
            area.height as int,
            row.y as int,
            row.height as int,
        ),
{
    let whole = ratatui::layout::Rect { x: area.x, y: area.y, width: area.width, height: area.height };
    let [r] = ratatui::layout::Layout::vertical([ratatui::layout::Constraint::Length(height)])
        .flex(ratatui::layout::Flex::Center).areas(whole);
    Rect { x: r.x, y: r.y, width: r.width, height: r.height }
}

/// `ratatui::layout::Layout::horizontal` with `Flex::Center`, for one column
/// that takes a share of the width. Claimed of what the solver gives:
/// - the column spans the rows of `area` and lies within its columns, which
///   the solver is required to keep to;
/// - the space before and behind the column is the same but for the one cell
///   that rounding to cells can cost, as `Flex::Center` asks of the solver;
/// - its width is the share asked for, rounded to cells at either end, as
///   `Constraint::Percentage` is documented: no more than one cell off the
///   share in whole cells.
///
/// Which of two neighbouring cells an edge is rounded to is the solver's
/// matter, so the column is not pinned further.
#[verifier::external_body]
fn center_columns(area: Rect, percent: u16) -> (column: Rect)
    ensures
        column.y == area.y,
        column.height == area.height,
        area.x <= column.x,
        column.x + column.width <= area.x + area.width,
        area.x + area.width <= u16::MAX ==> centred(
            area.x as int,
            area.width as int,
            column.x as int,
            column.width as int,
        ),
        area.x + area.width <= u16::MAX && percent <= 100 ==> share(
            area.width as int,
            percent as int,
        ) - 1 <= column.width <= share(area.width as int, percent as int) + 1,
{
    let whole = ratatui::layout::Rect { x: area.x, y: area.y, width: area.width, height: area.height };
    let [r] = ratatui::layout::Layout::horizontal([ratatui::layout::Constraint::Percentage(percent)])
        .flex(ratatui::layout::Flex::Center).areas(whole);
    Rect { x: r.x, y: r.y, width: r.width, height: r.height }
}

/// A rectangle of [`POPUP_HEIGHT`] rows and `percent_x` percent of the
/// columns of `area`, centred in it by the layout solver. To which of two
/// neighbouring cells the solver rounds an edge is its own matter; what holds
/// wherever it puts the popup is [`popup_placed`].
pub fn popup_area(area: Rect, percent_x: u16) -> (popup: Rect)
    ensures
        popup_placed(area, percent_x, popup),
{
    let row = center_rows(area, POPUP_HEIGHT);
    center_columns(row, percent_x)
}

/// Computes [`to_coordinate`].
pub fn coordinate(n: usize) -> (c: u16)
    ensures
        c == to_coordinate(n as int),
{
    if n > 0xffff {
        0xffff
    } else {
        n as u16
    }
}

impl AppState {
    /// What a frame shows of the state, wherever its areas lie.
    pub open spec fn shown_on(self, screen: Screen) -> bool {
        &&& screen.help@ == help_text(self.show_popup)
        &&& screen.scroll == (Position {
            x: to_coordinate(self.horizontal_scroll as int),
            y: to_coordinate(self.vertical_scroll as int),
        })
        &&& screen.vertical_bar.position == self.vertical_scroll
        &&& screen.vertical_bar.content_length == self.vertical_content_length
        &&& screen.horizontal_bar.position == self.horizontal_scroll
        &&& screen.horizontal_bar.content_length == self.horizontal_content_length
        &&& screen.popup is Some <==> self.show_popup
        &&& screen.popup matches Some(popup) ==> {
            &&& popup.text@ == self.input
            &&& popup.cursor == if self.input_mode == InputMode::Editing {
                Some(cursor_cell(popup.area, self.character_index))
            } else {
                None::<Position>
            }
        }
    }
}

impl App {
    /// The help line for the current mode.
    pub fn help(&self) -> (text: &'static str)
        ensures
            text@ == help_text(self@.show_popup),
    {
        if self.show_popup() {
            "<esc> to close"
        } else {
            "<i> :input / <q>, <Esc> :exit / <j> <k> , ▲ ▼ :scroll"
        }
    }

    /// Fills the areas of a frame: the help line into `instructions`, the
    /// output into `content`, the horizontal scrollbar into `bottom` less one
    /// column at either side, and the popup, if it is open, into `popup`.
    pub fn arrange(&self, instructions: Rect, content: Rect, bottom: Rect, popup: Rect) -> (screen:
        Screen)
        ensures
            self@.shown_on(screen),
            screen.instructions == instructions,
            screen.content == content,
            screen.horizontal_track == bottom.spec_inner(1, 0),
            screen.popup matches Some(p) ==> p.area == popup,
    {
        proof {
            use_type_invariant(self);
        }
        let overlay = if self.show_popup() {
            let cursor = match self.input_mode {
                InputMode::Normal => None,
                InputMode::Editing => Some(
                    Position {
                        x: popup.x.saturating_add(coordinate(self.character_index)).saturating_add(
                            1,
                        ),
                        y: popup.y.saturating_add(1),
                    },
                ),
            };
            Some(Popup { area: popup, text: self.input.clone(), cursor })
        } else {
            None
        };
        Screen {
            instructions,
            help: self.help(),
            content,
            scroll: Position {
                x: coordinate(self.horizontal.position),
                y: coordinate(self.vertical.position),
            },
            vertical_bar: self.vertical,
            horizontal_track: bottom.inner(1, 0),
            horizontal_bar: self.horizontal,
            popup: overlay,
        }
    }

    /// The frame for a terminal of size `area`: a help line of one row at the
    /// top, the viewport below it, and a row for the horizontal scrollbar at
    /// the bottom; over them the popup, while it is open. The layout solver
    /// places the bands and the popup; [`bands_placed`] and [`popup_placed`]
    /// say what holds wherever it puts them. The track of the horizontal
    /// scrollbar is the bottom band less one column at either side.
    pub fn draw(&self, area: Rect) -> (screen: Screen)
        ensures
            self@.shown_on(screen),
            exists|bottom: Rect|
                bands_placed(area, screen.instructions, screen.content, bottom)
                    && screen.horizontal_track == #[trigger] bottom.spec_inner(1, 0),
            on_screen(area) && area.height >= HELP_HEIGHT + TRACK_HEIGHT && 100 * (area.height
                - HELP_HEIGHT - TRACK_HEIGHT) <= CONTENT_PERCENT * area.height ==> {
                &&& screen.instructions == (Rect {
                    x: area.x,
                    y: area.y,
                    width: area.width,
                    height: HELP_HEIGHT,
                })
                &&& screen.content == (Rect {
                    x: area.x,
                    y: (area.y + HELP_HEIGHT) as u16,
                    width: area.width,
                    height: (area.height - HELP_HEIGHT - TRACK_HEIGHT) as u16,
                })
                &&& screen.horizontal_track == (Rect {
                    x: area.x,
                    y: (area.y + area.height - TRACK_HEIGHT) as u16,
                    width: area.width,
                    height: TRACK_HEIGHT,
                }).spec_inner(1, 0)
            },
            screen.popup matches Some(p) ==> popup_placed(area, POPUP_PERCENT, p.area),
    {
        let rows = split_rows(area, HELP_HEIGHT, CONTENT_PERCENT, TRACK_HEIGHT);
        let popup = if self.show_popup() {
            popup_area(area, POPUP_PERCENT)
        } else {
            area
        };
        let screen = self.arrange(rows[0], rows[1], rows[2], popup);
        assert(bands_placed(area, screen.instructions, screen.content, rows[2]));
        assert(screen.horizontal_track == rows[2].spec_inner(1, 0));
        screen
    }
}

} // verus!
