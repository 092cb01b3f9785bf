//! The editor around a view: a caret that the navigation keys move over
//! the terminal grid, the flag that ends the session, and the view that
//! paints the text.

use crate::buffer::buffer_of;
use crate::editor_command::{InputEvent, Key};
use crate::terminal::{monus, ScreenPosition, Size};
use crate::text::texts;
use crate::view::{View, ViewState};
use vstd::math::min;
use vstd::prelude::*;
use vstd::view::View as _;

verus! {

/// All that an editor holds, as plain numbers and the state of its view.
#[verifier::ext_equal]
pub struct EditorState {
    pub is_quit: bool,
    pub caret_col: nat,
    pub caret_row: nat,
    pub view: ViewState,
}

impl EditorState {
    /// The editor at its start: over the text of the file where one was
    /// named and could be read, else over no text.
    pub open spec fn initial(
        size: Size,
        file: Option<Result<String, std::io::Error>>,
    ) -> EditorState {
        EditorState {
            is_quit: false,
            caret_col: 0,
            caret_row: 0,
            view: match file {
                Some(Ok(text)) => ViewState::initial(size).loaded(buffer_of(text@)),
                _ => ViewState::initial(size),
            },
        }
    }

    /// The state after a key moved the caret on a terminal of the given
    /// size. Up and down stay within the rows of the terminal; to the right
    /// the caret goes on as far as columns can be counted.
    pub open spec fn caret_moved(self, key: Key, terminal: Size) -> EditorState {
        let last_row = monus(terminal.height as int, 1);
        let last_col = monus(terminal.width as int, 1);
        match key {
            Key::Up => EditorState { caret_row: monus(self.caret_row as int, 1) as nat, ..self },
            Key::Down => EditorState {
                caret_row: min(last_row, (self.caret_row + 1) as int) as nat,
                ..self
            },
            Key::Left => EditorState { caret_col: monus(self.caret_col as int, 1) as nat, ..self },
            Key::Right => EditorState {
                caret_col: min((self.caret_col + 1) as int, usize::MAX as int) as nat,
                ..self
            },
            Key::PageUp => EditorState { caret_row: 0, ..self },
            Key::PageDown => EditorState { caret_row: last_row as nat, ..self },
            Key::Home => EditorState { caret_col: 0, ..self },
            Key::End => EditorState { caret_col: last_col as nat, ..self },
            _ => self,
        }
    }

    /// The state after an input event: control and `q`, pressed, ends the
    /// session; a navigation key, pressed, moves the caret; a resize goes
    /// to the view. Everything else is passed over.
    pub open spec fn evaluated(self, event: InputEvent, terminal: Size) -> EditorState {
        match event {
            InputEvent::Key(press) => if !press.pressed {
                self
            } else if press.key == Key::Char('q') && press.modifiers.only_control() {
                EditorState { is_quit: true, ..self }
            } else {
                self.caret_moved(press.key, terminal)
            },
            InputEvent::Resize(width, height) => EditorState {
                view: self.view.resized(Size { width: width as usize, height: height as usize }),
                ..self
            },
            InputEvent::Other => self,
        }
    }
}

/// What one refresh puts on the terminal.
pub struct Frame {
    /// The text of each row, top to bottom; empty where nothing is to be
    /// painted.
    pub rows: Vec<String>,
    /// Where the caret goes.
    pub caret: ScreenPosition,
}

/// A view with a caret over it.
pub struct Editor {
    is_quit: bool,
    pos: ScreenPosition,
    view: View,
}

impl vstd::view::View for Editor {
    type V = EditorState;

    closed spec fn view(&self) -> EditorState {
        EditorState {
            is_quit: self.is_quit,
            caret_col: self.pos.col as nat,
            caret_row: self.pos.row as nat,
            view: self.view@,
        }
    }
}

impl Editor {
    /// The editor for a terminal of the given size. `file` is what reading
    /// the named file gave, where one was named.
    pub fn new(size: Size, file: Option<Result<String, std::io::Error>>) -> (editor: Editor)
        requires
            file matches Some(Ok(text)) ==> 2 * text@.len() <= usize::MAX,
        ensures
            editor@ == EditorState::initial(size, file),
    {
        let mut view = View::new(size);
        if let Some(content) = file {
            view.load_file(content);
        }
        Editor { is_quit: false, pos: ScreenPosition::default(), view }
    }

    /// Whether the session is to end.
    pub fn is_quit(&self) -> (quit: bool)
        ensures
            quit == self@.is_quit,
    {
        self.is_quit
    }

    /// Where the caret is on the terminal grid.
    pub fn caret(&self) -> (caret: ScreenPosition)
        ensures
            caret.col == self@.caret_col,
            caret.row == self@.caret_row,
    {
        self.pos
    }

    /// The view that paints the text.
    pub fn viewport(&self) -> (view: &View)
        ensures
            view@ == self@.view,
    {
        &self.view
    }

    /// Moves the caret by a navigation key on a terminal of the given
    /// size. Other keys leave it where it is.
    pub fn move_caret(&mut self, key: Key, terminal: Size)
        ensures
            final(self)@ == old(self)@.caret_moved(key, terminal),
    {
        let ScreenPosition { col: mut x, row: mut y } = self.pos;
        let Size { height, width } = terminal;
        match key {
            Key::Up => {
                y = y.saturating_sub(1);
            },
            Key::Down => {
                let last = height.saturating_sub(1);
                let next = y.saturating_add(1);
                y = if last < next {
                    last
                } else {
                    next
                };
            },
            Key::Left => {
                x = x.saturating_sub(1);
            },
            Key::Right => {
                x = x.saturating_add(1);
            },
            Key::PageUp => {
                y = 0;
            },
            Key::PageDown => {
                y = height.saturating_sub(1);
            },
            Key::Home => {
                x = 0;
            },
            Key::End => {
                x = width.saturating_sub(1);
            },
            _ => (),
        }
        self.pos = ScreenPosition { col: x, row: y };
    }

    /// Acts on an input event, on a terminal of the given size.
    pub fn evaluate_event(&mut self, event: InputEvent, terminal: Size)
        ensures
            final(self)@ == old(self)@.evaluated(event, terminal),
    {
        match event {
            InputEvent::Key(press) => {
                if press.pressed {
                    let quit = match press.key {
                        Key::Char(c) => c == 'q' && press.modifiers.is_only_control(),
                        _ => false,
                    };
                    if quit {
                        self.is_quit = true;
                    } else {
                        self.move_caret(press.key, terminal);
                    }
                }
            },
            InputEvent::Resize(width, height) => {
                self.view.resize(Size { width: width as usize, height: height as usize });
            },
            InputEvent::Other => {},
        }
    }

    /// What is to be put on the terminal now: the rows that the view
    /// paints, and the caret. The view counts them as painted.
    pub fn refresh_screen(&mut self) -> (frame: Frame)
        ensures
            texts(frame.rows@) == old(self)@.view.rows(),
            frame.caret.col == old(self)@.caret_col,
            frame.caret.row == old(self)@.caret_row,
            final(self)@ == (EditorState { view: old(self)@.view.rendered(), ..old(self)@ }),
    {
        let rows = self.view.render();
        Frame { rows, caret: self.pos }
    }
}

} // verus!
