//! The application state and its two input modes.

use vstd::prelude::*;
use crate::scroll::ScrollAxis;

verus! {

/// Where keyboard input goes.
#[derive(Clone, Copy, Debug, PartialEq, Eq, Structural)]
pub enum InputMode {
    /// Keys scroll the view, open the editor or quit.
    Normal,
    /// Keys edit the argument line in the popup.
    Editing,
}

/// What the content viewport has to show.
#[derive(Clone, Copy, Debug, PartialEq, Eq, Structural)]
pub enum ContentStatus {
    /// The captured output of the last run.
    Loaded,
    /// The status command could not be started.
    SpawnFailed,
    /// The captured output is not UTF-8 text.
    InvalidText,
}

/// The whole state of the dashboard. One value of it is owned by the main loop
/// and handed to each handler by exclusive reference.
///
/// The popup is shown exactly while the argument line is edited, so the input
/// mode alone is stored and the visibility of the popup is read off it.
pub struct App {
    pub(crate) last_tick: u128,
    pub(crate) command_output: Vec<u8>,
    pub(crate) status: ContentStatus,
    pub(crate) is_windows: bool,
    pub(crate) pueue_args: String,
    pub(crate) input: String,
    pub(crate) character_index: usize,
    pub(crate) input_mode: InputMode,
    pub(crate) vertical: ScrollAxis,
    pub(crate) horizontal: ScrollAxis,
}

/// The mathematical value of an [`App`]. The contracts of all handlers are
/// stated over it.
pub struct AppState {
    /// Whether the popup with the argument line is drawn.
    pub show_popup: bool,
    /// Time of the last run of the status command, in nanoseconds on the
    /// clock of the main loop.
    pub last_tick: nat,
    /// What the last run wrote to its standard output.
    pub command_output: Seq<u8>,
    /// How the last run ended.
    pub status: ContentStatus,
    /// Whether commands go through `cmd` instead of `sh`.
    pub is_windows: bool,
    /// The arguments that the next run appends to the status command.
    pub pueue_args: Seq<char>,
    /// The text of the argument line.
    pub input: Seq<char>,
    /// The cursor in the argument line, counted in characters.
    pub character_index: nat,
    /// Where keyboard input goes.
    pub input_mode: InputMode,
    /// First line of the output that the viewport shows.
    pub vertical_scroll: nat,
    /// Number of lines of the output.
    pub vertical_content_length: nat,
    /// First column of the output that the viewport shows.
    pub horizontal_scroll: nat,
    /// Width of the longest line of the output, without its styling.
    pub horizontal_content_length: nat,
}

impl AppState {
    /// What holds of every state: the cursor lies within the argument line,
    /// and the popup is shown exactly while the line is edited.
    pub open spec fn wf(self) -> bool {
        &&& self.character_index <= self.input.len()
        &&& (self.input_mode == InputMode::Editing) == self.show_popup
    }

    /// The state in which the dashboard starts.
    pub open spec fn initial(is_windows: bool, now: nat) -> AppState {
        AppState {
            show_popup: false,
            last_tick: now,
            command_output: Seq::empty(),
            status: ContentStatus::Loaded,
            is_windows,
            pueue_args: Seq::empty(),
            input: Seq::empty(),
            character_index: 0,
            input_mode: InputMode::Normal,
            vertical_scroll: 0,
            vertical_content_length: 0,
            horizontal_scroll: 0,
            horizontal_content_length: 0,
        }
    }

    /// Opens the popup from normal mode and closes it from editing mode.
    pub open spec fn toggle_popup(self) -> AppState {
        AppState {
            input_mode: if self.input_mode == InputMode::Normal {
                InputMode::Editing
            } else {
                InputMode::Normal
            },
            show_popup: !self.show_popup,
            ..self
        }
    }

    /// Takes the argument line as the arguments of the next run and leaves
    /// the popup. The line itself stays as it is.
    pub open spec fn submit_pueue(self) -> AppState {
        (AppState { pueue_args: self.input, ..self }).toggle_popup()
    }
}

impl View for App {
    type V = AppState;

    open(crate) spec fn view(&self) -> AppState {
        AppState {
            show_popup: self.input_mode == InputMode::Editing,
            last_tick: self.last_tick as nat,
            command_output: self.command_output@,
            status: self.status,
            is_windows: self.is_windows,
            pueue_args: self.pueue_args@,
            input: self.input@,
            character_index: self.character_index as nat,
            input_mode: self.input_mode,
            vertical_scroll: self.vertical.position as nat,
            vertical_content_length: self.vertical.content_length as nat,
            horizontal_scroll: self.horizontal.position as nat,
            horizontal_content_length: self.horizontal.content_length as nat,
        }
    }
}

impl App {
    #[verifier::type_invariant]
    pub open(crate) spec fn well_formed(self) -> bool {
        self@.wf()
    }

    /// The dashboard before the first run of the status command: nothing
    /// captured, an empty argument line, normal mode, both axes at zero.
    /// `now` is the time on the clock of the main loop.
    pub fn new(is_windows: bool, now: u128) -> (app: App)
        ensures
            app@ == AppState::initial(is_windows, now as nat),
            app@.wf(),
    {
        App {
            last_tick: now,
            command_output: Vec::new(),
            status: ContentStatus::Loaded,
            is_windows,
            pueue_args: String::new(),
            input: String::new(),
            character_index: 0,
            input_mode: InputMode::Normal,
            vertical: ScrollAxis { position: 0, content_length: 0 },
            horizontal: ScrollAxis { position: 0, content_length: 0 },
        }
    }

    /// Time of the last run of the status command.
    pub fn last_tick(&self) -> (tick: u128)
        ensures
            tick == self@.last_tick,
    {
        self.last_tick
    }

    /// What the last run of the status command printed.
    pub fn command_output(&self) -> (output: &[u8])
        ensures
            output@ == self@.command_output,
    {
        self.command_output.as_slice()
    }

    /// How the last run of the status command ended.
    pub fn status(&self) -> (status: ContentStatus)
        ensures
            status == self@.status,
    {
        self.status
    }

    /// Whether commands go through `cmd` instead of `sh`.
    pub fn is_windows(&self) -> (windows: bool)
        ensures
            windows == self@.is_windows,
    {
        self.is_windows
    }

    /// The arguments for the next run of the status command.
    pub fn pueue_args(&self) -> (args: &str)
        ensures
            args@ == self@.pueue_args,
    {
        self.pueue_args.as_str()
    }

    /// The text of the argument line.
    pub fn input(&self) -> (text: &str)
        ensures
            text@ == self@.input,
    {
        self.input.as_str()
    }

    /// The cursor in the argument line, counted in characters.
    pub fn character_index(&self) -> (index: usize)
        ensures
            index == self@.character_index,
            index <= self@.input.len(),
    {
        proof {
            use_type_invariant(self);
        }
        self.character_index
    }

    /// Where keyboard input goes.
    pub fn input_mode(&self) -> (mode: InputMode)
        ensures
            mode == self@.input_mode,
            (mode == InputMode::Editing) == self@.show_popup,
    {
        self.input_mode
    }

    /// Position and content length along the lines of the output.
    pub fn vertical_scroll_state(&self) -> (axis: ScrollAxis)
        ensures
            axis.position == self@.vertical_scroll,
            axis.content_length == self@.vertical_content_length,
    {
        self.vertical
    }

    /// Position and content length along the columns of the output.
    pub fn horizontal_scroll_state(&self) -> (axis: ScrollAxis)
        ensures
            axis.position == self@.horizontal_scroll,
            axis.content_length == self@.horizontal_content_length,
    {
        self.horizontal
    }

    /// First line of the output that the viewport shows.
    pub fn vertical_scroll(&self) -> (position: usize)
        ensures
            position == self@.vertical_scroll,
    {
        self.vertical.position
    }

    /// First column of the output that the viewport shows.
    pub fn horizontal_scroll(&self) -> (position: usize)
        ensures
            position == self@.horizontal_scroll,
    {
        self.horizontal.position
    }

    /// Whether the popup with the argument line is drawn.
    pub fn show_popup(&self) -> (shown: bool)
        ensures
            shown == self@.show_popup,
    {
        self.input_mode == InputMode::Editing
    }

    /// Commits the argument line: the next run of the status command gets its
    /// text as arguments, word for word. The line keeps its text and its
    /// cursor, and the popup closes if it was open.
    pub fn submit_pueue(&mut self)
        ensures
            final(self)@ == old(self)@.submit_pueue(),
            final(self)@.wf(),
            final(self)@.pueue_args == old(self)@.input,
            final(self)@.input == old(self)@.input,
    {
        proof {
            use_type_invariant(&*self);
        }
        self.pueue_args = self.input.clone();
        self.toggle_popup();
    }

    /// Flips the input mode and the visibility of the popup together.
    pub fn toggle_popup(&mut self)
        ensures
            final(self)@ == old(self)@.toggle_popup(),
            final(self)@.wf(),
            (final(self)@.input_mode == InputMode::Editing) == final(self)@.show_popup,
    {
        proof {
            use_type_invariant(&*self);
        }
        self.input_mode = if self.input_mode == InputMode::Normal {
            InputMode::Editing
        } else {
            InputMode::Normal
        };
    }
}

} // verus!
