//! The viewport over a buffer: where the cursor is, which part of the text
//! is on screen, and what each row of the screen shows.
//!
//! The cursor counts lines and clusters. Moving it works on those, so that
//! a step is one cluster however wide it is. After each move the scroll
//! offset follows by the least amount that brings the cursor's cell back
//! into the viewport.

use crate::buffer::{buffer_of, Buffer};
use crate::editor_command::{Direction, EditorCommand};
use crate::line::{columns_before, window, Fragment};
use crate::terminal::{monus, ScreenPosition, Size};
use crate::text::texts;
use vstd::math::min;
use vstd::prelude::*;
use vstd::view::View as _;

verus! {

/// The name shown on the welcome row.
pub const NAME: &'static str = "hecto";

/// The version shown on the welcome row.
pub const VERSION: &'static str = "0.1.0";

/// Where the cursor is in the text: a line, and a cluster in that line. A
/// line index equal to the number of lines stands for the place after the
/// last line.
#[derive(Debug, Clone, Copy, PartialEq, Eq, Structural)]
pub struct TextLocation {
    pub grapheme_index: usize,
    pub line_index: usize,
}

impl Default for TextLocation {
    fn default() -> (start: Self)
        ensures
            start == (TextLocation { grapheme_index: 0, line_index: 0 }),
    {
        Self { grapheme_index: 0, line_index: 0 }
    }
}

/// All that a view holds, as plain numbers and sequences.
#[verifier::ext_equal]
pub struct ViewState {
    pub lines: Seq<Seq<Fragment>>,
    pub line_index: nat,
    pub grapheme_index: nat,
    pub scroll_col: nat,
    pub scroll_row: nat,
    pub width: nat,
    pub height: nat,
    pub needs_redraw: bool,
}

/// Where an offset goes so that `at` lies in the `extent` cells from it on:
/// back to `at` where `at` lies before it, forward by as little as is
/// needed where `at` lies behind those cells, and nowhere otherwise.
pub open spec fn scroll_to(offset: nat, at: nat, extent: nat) -> nat {
    if at < offset {
        at
    } else if at >= offset + extent {
        (at - extent + 1) as nat
    } else {
        offset
    }
}

/// `n` spaces.
pub open spec fn spaces(n: nat) -> Seq<char> {
    Seq::new(n, |i: int| ' ')
}

/// The name and version as the welcome row gives them.
pub open spec fn welcome_text() -> Seq<char> {
    NAME@ + " editor -- version "@ + VERSION@
}

/// The welcome row for a viewport of the given width: a tilde, then the
/// name and version moved to the middle by spaces; only the tilde where
/// they do not fit, and a single space for a viewport of no width.
pub open spec fn welcome(width: nat) -> Seq<char> {
    let text = welcome_text();
    if width == 0 {
        seq![' ']
    } else if width <= text.len() {
        seq!['~']
    } else {
        seq!['~'] + spaces(monus((width - text.len()) / 2, 1) as nat) + text
    }
}

impl ViewState {
    /// A viewport of the given size over no text, with the cursor and the
    /// scroll offset at the origin and a redraw due.
    pub open spec fn initial(size: Size) -> ViewState {
        ViewState {
            lines: Seq::empty(),
            line_index: 0,
            grapheme_index: 0,
            scroll_col: 0,
            scroll_row: 0,
            width: size.width as nat,
            height: size.height as nat,
            needs_redraw: true,
        }
    }

    /// The number of clusters in the line with index `i`; zero where there
    /// is no such line.
    pub open spec fn line_len(self, i: int) -> nat {
        if 0 <= i < self.lines.len() {
            self.lines[i].len()
        } else {
            0
        }
    }

    /// The row of the text that the cursor is in.
    pub open spec fn cursor_row(self) -> nat {
        self.line_index
    }

    /// The column of the text that the cursor is in: the columns of the
    /// clusters before it in its line.
    pub open spec fn cursor_col(self) -> nat {
        if self.line_index < self.lines.len() {
            columns_before(self.lines[self.line_index as int], self.grapheme_index as int)
        } else {
            0
        }
    }

    /// The cursor is in a line or directly after the last one, and in its
    /// line it is at a cluster or directly after the last one.
    pub open spec fn location_valid(self) -> bool {
        &&& self.line_index <= self.lines.len()
        &&& self.grapheme_index <= self.line_len(self.line_index as int)
    }

    /// The cursor's cell lies in the viewport.
    pub open spec fn cursor_visible(self) -> bool {
        &&& self.scroll_row <= self.cursor_row() < self.scroll_row + self.height
        &&& self.scroll_col <= self.cursor_col() < self.scroll_col + self.width
    }

    /// The cursor put at the given line and cluster, or as near to them as
    /// the text allows.
    pub open spec fn at(self, line: int, grapheme: int) -> ViewState {
        ViewState {
            line_index: min(line, self.lines.len() as int) as nat,
            grapheme_index: if 0 <= line < self.lines.len() {
                min(grapheme, self.lines[line].len() as int) as nat
            } else {
                0
            },
            ..self
        }
    }

    /// The line and cluster that a move in the given direction aims at.
    pub open spec fn target(self, direction: Direction) -> (int, int) {
        let line = self.line_index as int;
        let grapheme = self.grapheme_index as int;
        let page = monus(self.height as int, 1);
        match direction {
            Direction::Up => (monus(line, 1), grapheme),
            Direction::Down => (line + 1, grapheme),
            Direction::PageUp => (monus(line, page), grapheme),
            Direction::PageDown => (line + page, grapheme),
            Direction::Home => (line, 0),
            Direction::End => (line, self.line_len(line) as int),
            Direction::Left => if grapheme > 0 {
                (line, grapheme - 1)
            } else if line > 0 {
                let previous = min(line - 1, self.lines.len() as int);
                (previous, self.line_len(previous) as int)
            } else {
                (line, grapheme)
            },
            Direction::Right => if grapheme < self.line_len(line) {
                (line, grapheme + 1)
            } else {
                (line + 1, 0)
            },
        }
    }

    /// The scroll offset brought after the cursor. A redraw is due where
    /// the offset changed.
    pub open spec fn scrolled(self) -> ViewState {
        let row = scroll_to(self.scroll_row, self.cursor_row(), self.height);
        let col = scroll_to(self.scroll_col, self.cursor_col(), self.width);
        ViewState {
            scroll_row: row,
            scroll_col: col,
            needs_redraw: self.needs_redraw || row != self.scroll_row || col != self.scroll_col,
            ..self
        }
    }

    /// The state after a move.
    pub open spec fn moved(self, direction: Direction) -> ViewState {
        let (line, grapheme) = self.target(direction);
        self.at(line, grapheme).scrolled()
    }

    /// The state after the viewport got a new size.
    pub open spec fn resized(self, size: Size) -> ViewState {
        ViewState {
            needs_redraw: true,
            ..(ViewState {
                width: size.width as nat,
                height: size.height as nat,
                ..self
            }).scrolled()
        }
    }

    /// The state after a command. Quitting is for the caller to act on.
    pub open spec fn applied(self, command: EditorCommand) -> ViewState {
        match command {
            EditorCommand::Resize(size) => self.resized(size),
            EditorCommand::Move(direction) => self.moved(direction),
            EditorCommand::Quit => self,
        }
    }

    /// The state after a text was loaded. The cursor and the scroll offset
    /// stay where they are.
    pub open spec fn loaded(self, lines: Seq<Seq<Fragment>>) -> ViewState {
        ViewState { lines, needs_redraw: true, ..self }
    }

    /// What row `r` of the viewport shows: its line's window where a line
    /// falls on it; else the welcome row, on the row a third down, while no
    /// text is loaded; else a tilde.
    pub open spec fn row_text(self, r: int) -> Seq<char> {
        let line = self.scroll_row + r;
        if line < self.lines.len() {
            window(
                self.lines[line],
                self.scroll_col as int,
                (self.scroll_col + self.width) as int,
            )
        } else if r == self.height / 3 && self.lines.len() == 0 {
            welcome(self.width)
        } else {
            seq!['~']
        }
    }

    /// A call of `render` paints: a redraw is due and the viewport has
    /// cells.
    pub open spec fn paints(self) -> bool {
        self.needs_redraw && self.width > 0 && self.height > 0
    }

    /// The rows that `render` hands out, top to bottom: all rows of the
    /// viewport where it paints, none where it does not.
    pub open spec fn rows(self) -> Seq<Seq<char>> {
        if self.paints() {
            Seq::new(self.height, |r: int| self.row_text(r))
        } else {
            Seq::empty()
        }
    }

    /// The state after `render`: no redraw is due once it has painted.
    pub open spec fn rendered(self) -> ViewState {
        if self.paints() {
            ViewState { needs_redraw: false, ..self }
        } else {
            self
        }
    }
}

/// The cursor, the scroll offset and the size of a viewport over a buffer.
pub struct View {
    buf: Buffer,
    needs_redraw: bool,
    size: Size,
    text_location: TextLocation,
    scroll_offset: ScreenPosition,
}

impl vstd::view::View for View {
    type V = ViewState;

    closed spec fn view(&self) -> ViewState {
        ViewState {
            lines: self.buf@,
            line_index: self.text_location.line_index as nat,
            grapheme_index: self.text_location.grapheme_index as nat,
            scroll_col: self.scroll_offset.col as nat,
            scroll_row: self.scroll_offset.row as nat,
            width: self.size.width as nat,
            height: self.size.height as nat,
            needs_redraw: self.needs_redraw,
        }
    }
}

impl View {
    /// The row after the cursor's and the line after the last one have
    /// numbers.
    #[verifier::type_invariant]
    spec fn within_limits(self) -> bool {
        &&& self.buf.lines.len() < usize::MAX
        &&& self.text_location.line_index < usize::MAX
    }

    /// A view of the given size over no text.
    pub fn new(size: Size) -> (view: View)
        ensures
            view@ == ViewState::initial(size),
    {
        View {
            buf: Buffer::default(),
            needs_redraw: true,
            size,
            text_location: TextLocation::default(),
            scroll_offset: ScreenPosition::default(),
        }
    }

    /// Takes the new size, brings the scroll offset after the cursor, and
    /// asks for a redraw. Afterwards the cursor is visible, if the viewport
    /// has any cell.
    pub fn resize(&mut self, new_size: Size)
        ensures
            final(self)@ == old(self)@.resized(new_size),
            new_size.width > 0 && new_size.height > 0 ==> final(self)@.cursor_visible(),
    {
        proof {
            use_type_invariant(&*self);
        }
        self.size = new_size;
        self.scroll();
        self.needs_redraw = true;
    }

    /// Acts on a command: a move moves the cursor and scrolls after it, a
    /// resize resizes, and quitting changes nothing here.
    pub fn process_cmd(&mut self, cmd: EditorCommand)
        ensures
            final(self)@ == old(self)@.applied(cmd),
            cmd is Move ==> final(self)@.location_valid(),
            !(cmd is Quit) && final(self)@.width > 0 && final(self)@.height > 0
                ==> final(self)@.cursor_visible(),
    {
        match cmd {
            EditorCommand::Resize(new_size) => self.resize(new_size),
            EditorCommand::Move(dir) => self.move_text_location(&dir),
            EditorCommand::Quit => {},
        }
    }

    /// The welcome row for a viewport of the given width. It is no wider
    /// than the viewport.
    pub fn welcome_msg(width: usize) -> (msg: String)
        ensures
            msg@ == welcome(width as nat),
            width > 0 ==> msg@.len() <= width,
    {
        proof {
            reveal_strlit(" ");
            reveal_strlit("~");
        }
        if width == 0 {
            return String::from_str(" ");
        }
        let mut text = String::from_str(NAME);
        text.append(" editor -- version ");
        text.append(VERSION);
        let len = text.as_str().unicode_len();
        let mut msg = String::from_str("~");
        if width <= len {
            return msg;
        }
        let padding_num = (width - len) / 2;
        let padding = padding_num.saturating_sub(1);
        let mut i: usize = 0;
        while i < padding
            invariant
                i <= padding,
                msg@ == seq!['~'] + spaces(i as nat),
            decreases padding - i,
        {
            msg.push(' ');
            i += 1;
        }
        msg.append(text.as_str());
        msg
    }

    fn move_text_location(&mut self, dir: &Direction)
        ensures
            final(self)@ == old(self)@.moved(*dir),
            final(self)@.location_valid(),
            final(self)@.width > 0 && final(self)@.height > 0 ==> final(self)@.cursor_visible(),
    {
        let height = self.size.height;
        match dir {
            Direction::Up => self.move_up(1),
            Direction::Down => self.move_down(1),
            Direction::Left => self.move_left(),
            Direction::Right => self.move_right(),
            Direction::PageUp => self.move_up(height.saturating_sub(1)),
            Direction::PageDown => self.move_down(height.saturating_sub(1)),
            Direction::Home => self.move_to_start_of_line(),
            Direction::End => self.move_to_end_of_line(),
        }
        self.snap_to_valid_grapheme();
        self.snap_to_valid_line();
        self.scroll();
    }

    /// The text of each row of the viewport, top to bottom, where a redraw
    /// is due and the viewport has cells; after that no redraw is due.
    /// Otherwise no rows, and nothing changes.
    pub fn render(&mut self) -> (rows: Vec<String>)
        ensures
            texts(rows@) == old(self)@.rows(),
            final(self)@ == old(self)@.rendered(),
    {
        proof {
            use_type_invariant(&*self);
        }
        let mut rows: Vec<String> = Vec::new();
        if !self.needs_redraw {
            return rows;
        }
        let Size { width, height } = self.size;
        if height == 0 || width == 0 {
            return rows;
        }
        let center_row = height / 3;
        let top = self.scroll_offset.row;
        let left = self.scroll_offset.col;
        let right = left.saturating_add(width);
        let mut row: usize = 0;
        while row < height
            invariant
                row <= height,
                rows.len() == row,
                *self == *old(self),
                self.size == (Size { width, height }),
                center_row == height / 3,
                top == self.scroll_offset.row,
                left == self.scroll_offset.col,
                right == min(left + width, usize::MAX as int),
                forall|r: int| 0 <= r < row ==> (#[trigger] rows[r])@ == self@.row_text(r),
            decreases height - row,
        {
            let index = row.saturating_add(top);
            let text = if index < self.buf.lines.len() {
                let line = &self.buf.lines[index];
                proof {
                    use_type_invariant(line);
                    line.lemma_columns_fit();
                    if left + width > usize::MAX {
                        crate::line::lemma_window_past_line(
                            line@,
                            left as int,
                            right as int,
                            left + width,
                        );
                    }
                }
                line.get(left..right)
            } else if row == center_row && self.buf.is_empty() {
                Self::welcome_msg(width)
            } else {
                proof {
                    reveal_strlit("~");
                }
                String::from_str("~")
            };
            rows.push(text);
            row += 1;
        }
        self.needs_redraw = false;
        rows
    }

    /// The cell of the viewport that the cursor is in, counted from the
    /// cell at the scroll offset. A cursor before the offset counts as at
    /// it.
    pub fn get_cursor_position(&self) -> (position: ScreenPosition)
        ensures
            position.col == monus(self@.cursor_col() as int, self@.scroll_col as int),
            position.row == monus(self@.cursor_row() as int, self@.scroll_row as int),
    {
        self.cursor_position_to_screen().subtract(&self.scroll_offset)
    }

    /// Takes the text that reading a file gave as the new buffer and asks
    /// for a redraw. Where the read failed, nothing changes.
    pub fn load_file(&mut self, content: Result<String, std::io::Error>)
        requires
            content matches Ok(text) ==> 2 * text@.len() <= usize::MAX,
        ensures
            final(self)@ == match content {
                Ok(text) => old(self)@.loaded(buffer_of(text@)),
                Err(_) => old(self)@,
            },
    {
        proof {
            use_type_invariant(&*self);
        }
        if let Ok(buffer) = Buffer::load_file(content) {
            self.buf = buffer;
            self.needs_redraw = true;
        }
    }

    /// Where the cursor is in the text.
    pub fn location(&self) -> (location: TextLocation)
        ensures
            location.line_index == self@.line_index,
            location.grapheme_index == self@.grapheme_index,
    {
        self.text_location
    }

    /// The cell of the text that the top-left cell of the viewport shows.
    pub fn scroll_offset(&self) -> (offset: ScreenPosition)
        ensures
            offset.col == self@.scroll_col,
            offset.row == self@.scroll_row,
    {
        self.scroll_offset
    }

    /// The size of the viewport.
    pub fn size(&self) -> (size: Size)
        ensures
            size.width == self@.width,
            size.height == self@.height,
    {
        self.size
    }

    /// Whether a redraw is due.
    pub fn needs_redraw(&self) -> (due: bool)
        ensures
            due == self@.needs_redraw,
    {
        self.needs_redraw
    }

    fn cursor_position_to_screen(&self) -> (position: ScreenPosition)
        ensures
            position.col == self@.cursor_col(),
            position.row == self@.cursor_row(),
            position.col < usize::MAX,
    {
        let row = self.text_location.line_index;
        let col = if row < self.buf.lines.len() {
            let line = &self.buf.lines[row];
            proof {
                use_type_invariant(line);
                line.lemma_columns_fit();
                crate::line::lemma_columns_grow(
                    line@,
                    min(self.text_location.grapheme_index as int, line@.len() as int),
                    line@.len() as int,
                );
            }
            line.width_until(self.text_location.grapheme_index)
        } else {
            0
        };
        ScreenPosition { col, row }
    }

    fn scroll(&mut self)
        ensures
            final(self)@ == old(self)@.scrolled(),
            final(self)@.width > 0 && final(self)@.height > 0 ==> final(self)@.cursor_visible(),
    {
        proof {
            use_type_invariant(&*self);
        }
        let ScreenPosition { col, row } = self.cursor_position_to_screen();
        let Size { width, height } = self.size;

        if row < self.scroll_offset.row {
            self.scroll_offset.row = row;
            self.needs_redraw = true;
        } else if row >= self.scroll_offset.row.saturating_add(height) {
            self.scroll_offset.row = row.saturating_sub(height).saturating_add(1);
            self.needs_redraw = true;
        }
        if col < self.scroll_offset.col {
            self.scroll_offset.col = col;
            self.needs_redraw = true;
        } else if col >= self.scroll_offset.col.saturating_add(width) {
            self.scroll_offset.col = col.saturating_sub(width).saturating_add(1);
            self.needs_redraw = true;
        }
    }

    fn move_up(&mut self, step: usize)
        ensures
            final(self)@ == old(self)@.at(
                monus(old(self)@.line_index as int, step as int),
                old(self)@.grapheme_index as int,
            ),
    {
        proof {
            use_type_invariant(&*self);
        }
        self.text_location.line_index = self.text_location.line_index.saturating_sub(step);
        self.snap_to_valid_grapheme();
        self.snap_to_valid_line();
    }

    fn move_down(&mut self, step: usize)
        ensures
            final(self)@ == old(self)@.at(
                old(self)@.line_index + step,
                old(self)@.grapheme_index as int,
            ),
    {
        proof {
            use_type_invariant(&*self);
        }
        let target = self.text_location.line_index.saturating_add(step);
        self.text_location.line_index = if target < self.buf.lines.len() {
            target
        } else {
            self.buf.lines.len()
        };
        self.snap_to_valid_grapheme();
        self.snap_to_valid_line();
    }

    fn move_right(&mut self)
        ensures
            ({
                let (line, grapheme) = old(self)@.target(Direction::Right);
                final(self)@ == old(self)@.at(line, grapheme)
            }),
    {
        proof {
            use_type_invariant(&*self);
        }
        let line_index = self.text_location.line_index;
        let line_width = if line_index < self.buf.lines.len() {
            self.buf.lines[line_index].len()
        } else {
            0
        };
        if self.text_location.grapheme_index < line_width {
            self.text_location.grapheme_index += 1;
        } else {
            self.move_to_start_of_line();
            self.move_down(1);
        }
    }

    fn move_left(&mut self)
        ensures
            ({
                let (line, grapheme) = old(self)@.target(Direction::Left);
                final(self)@ == (ViewState {
                    line_index: line as nat,
                    grapheme_index: grapheme as nat,
                    ..old(self)@
                })
            }),
    {
        proof {
            use_type_invariant(&*self);
        }
        if self.text_location.grapheme_index > 0 {
            self.text_location.grapheme_index -= 1;
        } else if self.text_location.line_index > 0 {
            self.move_up(1);
            self.move_to_end_of_line();
        }
    }

    fn move_to_start_of_line(&mut self)
        ensures
            final(self)@ == (ViewState { grapheme_index: 0, ..old(self)@ }),
    {
        proof {
            use_type_invariant(&*self);
        }
        self.text_location.grapheme_index = 0;
    }

    fn move_to_end_of_line(&mut self)
        ensures
            final(self)@ == (ViewState {
                grapheme_index: old(self)@.line_len(old(self)@.line_index as int),
                ..old(self)@
            }),
    {
        proof {
            use_type_invariant(&*self);
        }
        let line_index = self.text_location.line_index;
        self.text_location.grapheme_index = if line_index < self.buf.lines.len() {
            self.buf.lines[line_index].len()
        } else {
            0
        };
    }

    fn snap_to_valid_grapheme(&mut self)
        ensures
            final(self)@ == (ViewState {
                grapheme_index: min(
                    old(self)@.grapheme_index as int,
                    old(self)@.line_len(old(self)@.line_index as int) as int,
                ) as nat,
                ..old(self)@
            }),
    {
        proof {
            use_type_invariant(&*self);
        }
        let line_index = self.text_location.line_index;
        self.text_location.grapheme_index = if line_index < self.buf.lines.len() {
            let len = self.buf.lines[line_index].len();
            if len < self.text_location.grapheme_index {
                len
            } else {
                self.text_location.grapheme_index
            }
        } else {
            0
        };
    }

    fn snap_to_valid_line(&mut self)
        ensures
            final(self)@ == (ViewState {
                line_index: min(old(self)@.line_index as int, old(self)@.lines.len() as int) as nat,
                ..old(self)@
            }),
    {
        proof {
            use_type_invariant(&*self);
        }
        let lines = self.buf.lines.len();
        if lines < self.text_location.line_index {
            self.text_location.line_index = lines;
        }
    }
}

/// Scrolling brings the cursor into view, and no offset that shows the
/// cursor lies nearer to where the offset was.
pub proof fn lemma_scroll_is_least(offset: nat, at: nat, extent: nat, other: nat)
    requires
        extent > 0,
        other <= at < other + extent,
    ensures
        scroll_to(offset, at, extent) <= at < scroll_to(offset, at, extent) + extent,
        vstd::math::abs(scroll_to(offset, at, extent) - offset) <= vstd::math::abs(other - offset),
{
}

/// Moving left from the start of a line other than the first puts the
/// cursor at the end of the line before it; from the start of the first
/// line it stays.
pub proof fn lemma_left_wraps(state: ViewState)
    requires
        state.location_valid(),
        state.grapheme_index == 0,
    ensures
        state.line_index > 0 ==> {
            &&& state.moved(Direction::Left).line_index == state.line_index - 1
            &&& state.moved(Direction::Left).grapheme_index == state.line_len(
                state.line_index - 1,
            )
        },
        state.line_index == 0 ==> {
            &&& state.moved(Direction::Left).line_index == 0
            &&& state.moved(Direction::Left).grapheme_index == 0
        },
{
}

/// Moving right from the end of a line puts the cursor at the start of
/// the line after it; from the end of the last line, at the place after
/// the last line, where it then stays.
pub proof fn lemma_right_wraps(state: ViewState)
    requires
        state.location_valid(),
        state.grapheme_index == state.line_len(state.line_index as int),
    ensures
        state.line_index < state.lines.len() ==> {
            &&& state.moved(Direction::Right).line_index == state.line_index + 1
            &&& state.moved(Direction::Right).grapheme_index == 0
        },
        state.line_index == state.lines.len() ==> {
            &&& state.moved(Direction::Right).line_index == state.lines.len()
            &&& state.moved(Direction::Right).grapheme_index == 0
        },
{
}

/// After a move the cursor is at a place of the text, whatever it was at
/// before.
pub proof fn lemma_moves_keep_location_valid(state: ViewState, direction: Direction)
    ensures
        state.moved(direction).location_valid(),
{
}

/// After a move or a resize the cursor's cell lies in the viewport, if
/// the viewport has any cell, whatever the state was before.
pub proof fn lemma_commands_keep_cursor_visible(state: ViewState, command: EditorCommand)
    requires
        !(command is Quit),
        state.applied(command).width > 0,
        state.applied(command).height > 0,
    ensures
        state.applied(command).cursor_visible(),
{
}

/// The state after a sequence of commands, first to last.
pub open spec fn after(state: ViewState, commands: Seq<EditorCommand>) -> ViewState
    decreases commands.len(),
{
    if commands.len() == 0 {
        state
    } else {
        after(state, commands.drop_last()).applied(commands.last())
    }
}

/// Through any sequence of moves and resizes, from any state, the
/// cursor's cell lies in the viewport after each of them that leaves the
/// viewport with a cell.
pub proof fn lemma_cursor_stays_visible(state: ViewState, commands: Seq<EditorCommand>, n: int)
    requires
        0 < n <= commands.len(),
        forall|i: int| 0 <= i < commands.len() ==> !(#[trigger] commands[i] is Quit),
        after(state, commands.take(n)).width > 0,
        after(state, commands.take(n)).height > 0,
    ensures
        after(state, commands.take(n)).cursor_visible(),
{
    let done = commands.take(n);
    assert(done.last() == commands[n - 1]);
    lemma_commands_keep_cursor_visible(after(state, done.drop_last()), done.last());
}

/// Where a redraw is due and the viewport has cells, `render` paints
/// every row of the viewport. Directly after `render`, another `render`
/// paints nothing and changes nothing.
pub proof fn lemma_second_render_paints_nothing(state: ViewState)
    ensures
        state.paints() ==> state.rows().len() == state.height,
        state.rendered().rows().len() == 0,
        state.rendered().rendered() == state.rendered(),
{
}

} // verus!
