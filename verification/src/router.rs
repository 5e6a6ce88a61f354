//! Routing of input events by input mode.

use vstd::prelude::*;
use crate::app::{App, AppState, InputMode};
use crate::event::{Action, Event, KeyCode, KeyEventKind, MouseEventKind};

verus! {

/// Number of lines or columns that the paging keys scroll by.
pub const PAGE: i8 = 20;

impl AppState {
    /// What a pressed key does in normal mode: quit, open the popup, or
    /// scroll.
    pub open spec fn handle_normal_key(self, code: KeyCode) -> (AppState, Action) {
        match code {
            KeyCode::Char(c) => if c == 'q' {
                (self, Action::Quit)
            } else if c == 'i' {
                (self.toggle_popup(), Action::Continue)
            } else if c == 'j' {
                (self.scroll_down(None), Action::Continue)
            } else if c == 'k' {
                (self.scroll_up(None), Action::Continue)
            } else if c == 'h' {
                (self.scroll_left(None), Action::Continue)
            } else if c == 'l' {
                (self.scroll_right(None), Action::Continue)
            } else {
                (self, Action::Continue)
            },
            KeyCode::Esc => (self, Action::Quit),
            KeyCode::Down => (self.scroll_down(None), Action::Continue),
            KeyCode::Up => (self.scroll_up(None), Action::Continue),
            KeyCode::PageDown => (self.scroll_down(Some(PAGE)), Action::Continue),
            KeyCode::PageUp => (self.scroll_up(Some(PAGE)), Action::Continue),
            KeyCode::Left => (self.scroll_left(None), Action::Continue),
            KeyCode::Right => (self.scroll_right(None), Action::Continue),
            KeyCode::Home => (self.scroll_left(Some(PAGE)), Action::Continue),
            KeyCode::End => (self.scroll_right(Some(PAGE)), Action::Continue),
            _ => (self, Action::Continue),
        }
    }

    /// What a pressed key does in editing mode: edit the argument line,
    /// submit it, or leave the popup.
    pub open spec fn handle_editing_key(self, code: KeyCode) -> (AppState, Action) {
        match code {
            KeyCode::Enter => (self.submit_pueue(), Action::RunCommand),
            KeyCode::Char(c) => (self.enter_char(c), Action::Continue),
            KeyCode::Backspace => (self.delete_char(), Action::Continue),
            KeyCode::Left => (self.move_cursor_left(), Action::Continue),
            KeyCode::Right => (self.move_cursor_right(), Action::Continue),
            KeyCode::Esc => (self.toggle_popup(), Action::Continue),
            _ => (self, Action::Continue),
        }
    }

    /// What a pressed key does in the current input mode.
    pub open spec fn handle_key(self, code: KeyCode) -> (AppState, Action) {
        match self.input_mode {
            InputMode::Normal => self.handle_normal_key(code),
            InputMode::Editing => self.handle_editing_key(code),
        }
    }

    /// What the mouse wheel does, in either mode: it scrolls, and with the
    /// control key held the vertical wheel scrolls sideways.
    pub open spec fn handle_mouse(self, kind: MouseEventKind, ctrl: bool) -> AppState {
        match kind {
            MouseEventKind::ScrollDown => if ctrl {
                self.scroll_right(None)
            } else {
                self.scroll_down(None)
            },
            MouseEventKind::ScrollUp => if ctrl {
                self.scroll_left(None)
            } else {
                self.scroll_up(None)
            },
            MouseEventKind::ScrollLeft => self.scroll_left(None),
            MouseEventKind::ScrollRight => self.scroll_right(None),
            MouseEventKind::Other => self,
        }
    }

    /// The state after an event, and what the main loop has to do. Of the
    /// keyboard only presses count: a key that is held or released does
    /// nothing.
    pub open spec fn handle_event(self, event: Event) -> (AppState, Action) {
        match event {
            Event::Key { code, kind } => if kind == KeyEventKind::Press {
                self.handle_key(code)
            } else {
                (self, Action::Continue)
            },
            Event::Mouse { wheel, ctrl } => (self.handle_mouse(wheel, ctrl), Action::Continue),
            Event::Other => (self, Action::Continue),
        }
    }
}

impl App {
    /// Acts on a pressed key.
    pub fn handle_key(&mut self, code: KeyCode) -> (action: Action)
        ensures
            (final(self)@, action) == old(self)@.handle_key(code),
            final(self)@.wf(),
    {
        proof {
            use_type_invariant(&*self);
        }
        match self.input_mode {
            InputMode::Normal => match code {
                KeyCode::Char('q') | KeyCode::Esc => {
                    return Action::Quit;
                },
                KeyCode::Char('i') => self.toggle_popup(),
                KeyCode::Char('j') | KeyCode::Down => self.scroll_down(None),
                KeyCode::Char('k') | KeyCode::Up => self.scroll_up(None),
                KeyCode::PageDown => self.scroll_down(Some(PAGE)),
                KeyCode::PageUp => self.scroll_up(Some(PAGE)),
                KeyCode::Char('h') | KeyCode::Left => self.scroll_left(None),
                KeyCode::Char('l') | KeyCode::Right => self.scroll_right(None),
                KeyCode::Home => self.scroll_left(Some(PAGE)),
                KeyCode::End => self.scroll_right(Some(PAGE)),
                _ => {},
            },
            InputMode::Editing => match code {
                KeyCode::Enter => {
                    self.submit_pueue();
                    return Action::RunCommand;
                },
                KeyCode::Char(to_insert) => self.enter_char(to_insert),
                KeyCode::Backspace => self.delete_char(),
                KeyCode::Left => self.move_cursor_left(),
                KeyCode::Right => self.move_cursor_right(),
                KeyCode::Esc => self.toggle_popup(),
                _ => {},
            },
        }
        proof {
            use_type_invariant(&*self);
        }
        Action::Continue
    }

    /// Acts on the mouse wheel.
    pub fn handle_mouse(&mut self, kind: MouseEventKind, ctrl_pressed: bool)
        ensures
            final(self)@ == old(self)@.handle_mouse(kind, ctrl_pressed),
            final(self)@.wf(),
    {
        match kind {
            MouseEventKind::ScrollDown => {
                if ctrl_pressed {
                    self.scroll_right(None)
                } else {
                    self.scroll_down(None)
                }
            },
            MouseEventKind::ScrollUp => {
                if ctrl_pressed {
                    self.scroll_left(None)
                } else {
                    self.scroll_up(None)
                }
            },
            MouseEventKind::ScrollLeft => self.scroll_left(None),
            MouseEventKind::ScrollRight => self.scroll_right(None),
            MouseEventKind::Other => {},
        }
        proof {
            use_type_invariant(&*self);
        }
    }

    /// Acts on one event from the terminal and tells the main loop what to do
    /// next. After [`Action::RunCommand`] the loop runs the status command
    /// and hands its output to [`App::load_output`].
    pub fn handle_event(&mut self, event: Event) -> (action: Action)
        ensures
            (final(self)@, action) == old(self)@.handle_event(event),
            final(self)@.wf(),
    {
        proof {
            use_type_invariant(&*self);
        }
        match event {
            Event::Key { code, kind } => {
                if kind == KeyEventKind::Press {
                    self.handle_key(code)
                } else {
                    Action::Continue
                }
            },
            Event::Mouse { wheel, ctrl } => {
                self.handle_mouse(wheel, ctrl);
                Action::Continue
            },
            Event::Other => Action::Continue,
        }
    }
}

} // verus!
