//! The status command: when it is due, how it is called, and what the state
//! keeps of its output.
//!
//! Starting the process is the main loop's part. It asks [`App::refresh_due`]
//! and [`App::command_line`], runs the command, and hands what came back to
//! [`App::load_output`] or [`App::spawn_failed`].

use vstd::prelude::*;
use vstd::string::*;
use vstd::utf8::*;
use crate::app::{App, AppState, ContentStatus};
use crate::lines::{line_count, max_line_width, measure_lines};
use crate::scroll::{saturating_backward, ScrollAxis};

verus! {

/// Time between two runs of the status command, in nanoseconds.
pub const TICK_RATE: u128 = 5_000_000_000;

/// Longest wait for an input event in one turn of the main loop, in
/// milliseconds.
pub const POLL_TIMEOUT_MILLIS: u64 = 250;

/// The text `text` without its ANSI escape sequences, as
/// `fast_strip_ansi::strip_ansi_string` gives it.
pub uninterp spec fn ansi_stripped(text: Seq<char>) -> Seq<char>;

/// `std::str::from_utf8`: the bytes read as text, if they are valid UTF-8.
/// The text has exactly these bytes as its encoding.
#[verifier::external_body]
fn text_of(bytes: &[u8]) -> (text: Option<&str>)
    ensures
        text is Some <==> valid_utf8(bytes@),
        text matches Some(t) ==> encode_utf8(t@) == bytes@,
{
    std::str::from_utf8(bytes).ok()
}

/// `fast_strip_ansi::strip_ansi_string`: the text without its escape
/// sequences. Claimed of the result: it depends on the text alone, and of the
/// empty text nothing is left, since the parser is fed nothing.
#[verifier::external_body]
fn strip_ansi(text: &str) -> (plain: String)
    ensures
        plain@ == ansi_stripped(text@),
        text@.len() == 0 ==> plain@.len() == 0,
{
    fast_strip_ansi::strip_ansi_string(text).into_owned()
}

/// Number of lines of the captured output, and the width in characters of its
/// longest line once the styling is taken out. `None` if the output is not
/// UTF-8 text. Empty output has no line and no width.
pub fn content_extent(output: &[u8]) -> (extent: Option<(usize, usize)>)
    ensures
        extent is Some <==> valid_utf8(output@),
        extent matches Some(e) ==> {
            &&& e.0 == line_count(decode_utf8(output@))
            &&& e.1 == max_line_width(ansi_stripped(decode_utf8(output@)))
        },
        output@.len() == 0 ==> extent == Some((0usize, 0usize)),
{
    match text_of(output) {
        None => None,
        Some(text) => {
            proof {
                encode_utf8_decode_utf8(text@);
            }
            let plain = strip_ansi(text);
            let (rows, _) = measure_lines(text);
            let (_, columns) = measure_lines(plain.as_str());
            Some((rows, columns))
        },
    }
}

impl AppState {
    /// Whether the status command has to run again at time `now`: more than
    /// [`TICK_RATE`] has passed since the last run, and the popup is closed.
    pub open spec fn refresh_due(self, now: nat) -> bool {
        !self.show_popup && saturating_backward(now, self.last_tick) > TICK_RATE
    }

    /// The line that the shell is given: the status command with colours
    /// forced on, and the arguments behind it as they were typed.
    pub open spec fn command_line(self) -> Seq<char> {
        "pueue --color always status "@ + self.pueue_args
    }

    /// The state after a run at time `now` that printed `output`. The output
    /// replaces what was captured before, and both content lengths are
    /// measured anew. Output that is no text is kept and measures zero.
    pub open spec fn load_output(self, output: Seq<u8>, now: nat) -> AppState {
        if valid_utf8(output) {
            AppState {
                last_tick: now,
                command_output: output,
                status: ContentStatus::Loaded,
                vertical_content_length: line_count(decode_utf8(output)),
                horizontal_content_length: max_line_width(ansi_stripped(decode_utf8(output))),
                ..self
            }
        } else {
            AppState {
                last_tick: now,
                command_output: output,
                status: ContentStatus::InvalidText,
                vertical_content_length: 0,
                horizontal_content_length: 0,
                ..self
            }
        }
    }

    /// The state after the status command could not be started at time `now`:
    /// nothing is captured.
    pub open spec fn spawn_failed(self, now: nat) -> AppState {
        AppState {
            last_tick: now,
            command_output: Seq::empty(),
            status: ContentStatus::SpawnFailed,
            vertical_content_length: 0,
            horizontal_content_length: 0,
            ..self
        }
    }
}

impl App {
    /// Tells the main loop whether to run the status command now. While the
    /// popup is open the answer is no, however much time has passed, and the
    /// time of the last run stays as it is.
    pub fn refresh_due(&self, now: u128) -> (due: bool)
        ensures
            due == self@.refresh_due(now as nat),
            self@.show_popup ==> !due,
    {
        !self.show_popup() && now.saturating_sub(self.last_tick) > TICK_RATE
    }

    /// The command line for the shell.
    pub fn command_line(&self) -> (line: String)
        ensures
            line@ == self@.command_line(),
    {
        let mut line = String::from_str("pueue --color always status ");
        line.append(self.pueue_args.as_str());
        line
    }

    /// The shell that runs the command line, and the flag that makes it take
    /// the line as its next argument.
    pub fn shell(&self) -> (shell: (&'static str, &'static str))
        ensures
            shell.0@ == if self@.is_windows {
                "cmd"@
            } else {
                "sh"@
            },
            shell.1@ == if self@.is_windows {
                "/C"@
            } else {
                "-c"@
            },
    {
        if self.is_windows {
            ("cmd", "/C")
        } else {
            ("sh", "-c")
        }
    }

    /// Takes in what a run of the status command at time `now` printed. After
    /// a run that printed nothing both content lengths are zero.
    pub fn load_output(&mut self, output: Vec<u8>, now: u128)
        ensures
            final(self)@ == old(self)@.load_output(output@, now as nat),
            final(self)@.wf(),
            output@.len() == 0 ==> {
                &&& final(self)@.status == ContentStatus::Loaded
                &&& final(self)@.vertical_content_length == 0
                &&& final(self)@.horizontal_content_length == 0
            },
    {
        proof {
            use_type_invariant(&*self);
        }
        let extent = content_extent(output.as_slice());
        self.last_tick = now;
        self.command_output = output;
        match extent {
            Some((rows, columns)) => {
                self.status = ContentStatus::Loaded;
                self.vertical = ScrollAxis { position: self.vertical.position, content_length: rows };
                self.horizontal = ScrollAxis {
                    position: self.horizontal.position,
                    content_length: columns,
                };
            },
            None => {
                self.status = ContentStatus::InvalidText;
                self.vertical = ScrollAxis { position: self.vertical.position, content_length: 0 };
                self.horizontal = ScrollAxis {
                    position: self.horizontal.position,
                    content_length: 0,
                };
            },
        }
    }

    /// Records at time `now` that the status command could not be started.
    pub fn spawn_failed(&mut self, now: u128)
        ensures
            final(self)@ == old(self)@.spawn_failed(now as nat),
            final(self)@.wf(),
    {
        proof {
            use_type_invariant(&*self);
        }
        self.last_tick = now;
        self.command_output = Vec::new();
        self.status = ContentStatus::SpawnFailed;
        self.vertical = ScrollAxis { position: self.vertical.position, content_length: 0 };
        self.horizontal = ScrollAxis { position: self.horizontal.position, content_length: 0 };
    }
}

} // verus!
