//! Laws of the state machine, proved over its mathematical model.

use vstd::prelude::*;
use vstd::utf8::*;
use crate::app::{AppState, InputMode};
use crate::event::{Action, Event, KeyCode, KeyEventKind};
use crate::scroll::{magnitude, saturating_backward, saturating_forward};
use crate::text::{
    byte_offset, char_width, lemma_byte_offset_is_boundary, lemma_byte_offset_split,
    lemma_byte_offset_step, lemma_encode_concat, lemma_encode_single,
};

verus! {

/// One scroll request along an axis.
pub enum ScrollStep {
    /// Towards the end: down or right.
    Forward(Option<i8>),
    /// Towards the start: up or left.
    Backward(Option<i8>),
}

/// The position after one scroll request.
pub open spec fn scroll_step(position: nat, step: ScrollStep) -> nat {
    match step {
        ScrollStep::Forward(amount) => saturating_forward(position, magnitude(amount)),
        ScrollStep::Backward(amount) => saturating_backward(position, magnitude(amount)),
    }
}

/// The position after a sequence of scroll requests, taken one after the
/// other.
pub open spec fn scroll_steps(position: nat, steps: Seq<ScrollStep>) -> nat
    decreases steps.len(),
{
    if steps.len() == 0 {
        position
    } else {
        scroll_step(scroll_steps(position, steps.drop_last()), steps.last())
    }
}

/// The distances of a sequence of scroll requests, added up.
pub open spec fn total_distance(steps: Seq<ScrollStep>) -> nat
    decreases steps.len(),
{
    if steps.len() == 0 {
        0
    } else {
        total_distance(steps.drop_last()) + match steps.last() {
            ScrollStep::Forward(amount) => magnitude(amount),
            ScrollStep::Backward(amount) => magnitude(amount),
        }
    }
}

/// The state after a sequence of vertical scroll requests.
pub open spec fn scrolled_vertically(state: AppState, steps: Seq<ScrollStep>) -> AppState
    decreases steps.len(),
{
    if steps.len() == 0 {
        state
    } else {
        let before = scrolled_vertically(state, steps.drop_last());
        match steps.last() {
            ScrollStep::Forward(amount) => before.scroll_down(amount),
            ScrollStep::Backward(amount) => before.scroll_up(amount),
        }
    }
}

/// Any sequence of scroll requests down and up changes the vertical position
/// alone, and leaves it where saturating arithmetic puts it step by step:
/// never below zero and never above the largest machine word.
pub proof fn lemma_scroll_sequence(state: AppState, steps: Seq<ScrollStep>)
    requires
        state.vertical_scroll <= usize::MAX,
    ensures
        scrolled_vertically(state, steps) == (AppState {
            vertical_scroll: scroll_steps(state.vertical_scroll, steps),
            ..state
        }),
        0 <= scroll_steps(state.vertical_scroll, steps) <= usize::MAX,
    decreases steps.len(),
{
    if steps.len() > 0 {
        lemma_scroll_sequence(state, steps.drop_last());
    }
}

/// Requests towards the end alone add their distances up, and the sum is held
/// at the largest machine word.
pub proof fn lemma_scroll_forward_only(position: nat, steps: Seq<ScrollStep>)
    requires
        position <= usize::MAX,
        forall|i: int| 0 <= i < steps.len() ==> steps[i] is Forward,
    ensures
        scroll_steps(position, steps) == saturating_forward(position, total_distance(steps)),
    decreases steps.len(),
{
    if steps.len() > 0 {
        let before = steps.drop_last();
        assert forall|i: int| 0 <= i < before.len() implies before[i] is Forward by {
            assert(before[i] == steps[i]);
        }
        lemma_scroll_forward_only(position, before);
    }
}

/// Requests towards the start alone take their distances off, and the
/// difference is held at zero.
pub proof fn lemma_scroll_backward_only(position: nat, steps: Seq<ScrollStep>)
    requires
        forall|i: int| 0 <= i < steps.len() ==> steps[i] is Backward,
    ensures
        scroll_steps(position, steps) == saturating_backward(position, total_distance(steps)),
    decreases steps.len(),
{
    if steps.len() > 0 {
        let before = steps.drop_last();
        assert forall|i: int| 0 <= i < before.len() implies before[i] is Backward by {
            assert(before[i] == steps[i]);
        }
        lemma_scroll_backward_only(position, before);
    }
}

/// Every edit and every move of the cursor leaves the cursor within the
/// argument line. On an empty line the moves change nothing.
pub proof fn lemma_cursor_stays_in_line(state: AppState, c: char)
    requires
        state.wf(),
    ensures
        state.move_cursor_left().wf(),
        state.move_cursor_right().wf(),
        state.enter_char(c).wf(),
        state.delete_char().wf(),
        state.input.len() == 0 ==> state.move_cursor_left() == state && state.move_cursor_right()
            == state && state.delete_char() == state,
{
}

/// Whatever the event, the state after it is well formed again: the cursor
/// lies within the argument line, and the popup is open exactly in editing
/// mode.
pub proof fn lemma_handle_event_keeps_wf(state: AppState, event: Event)
    requires
        state.wf(),
    ensures
        state.handle_event(event).0.wf(),
{
}

/// Typing a character and deleting it again restores the argument line and
/// the cursor.
pub proof fn lemma_enter_then_delete(state: AppState, c: char)
    requires
        state.wf(),
    ensures
        state.enter_char(c).delete_char() == state,
{
    let typed = state.enter_char(c);
    assert(typed.input.remove(state.character_index as int) =~= state.input);
}

/// After typing `c` at the cursor, the byte offset of the old cursor position
/// is what it was, it is a character boundary of the new line, the encoding
/// of `c` starts there, and the new cursor lies behind that encoding.
pub proof fn lemma_enter_char_byte_offsets(state: AppState, c: char)
    requires
        state.wf(),
    ensures
        ({
            let typed = state.enter_char(c);
            let at = state.character_index as int;
            let offset = byte_offset(state.input, at);
            &&& byte_offset(typed.input, at) == offset
            &&& is_char_boundary(encode_utf8(typed.input), offset as int)
            &&& byte_offset(typed.input, at + 1) == offset + char_width(c)
            &&& is_char_boundary(encode_utf8(typed.input), (offset + char_width(c)) as int)
            &&& encode_utf8(typed.input).subrange(offset as int, (offset + char_width(c)) as int)
                == encode_scalar(c as u32)
        }),
{
    let typed = state.enter_char(c);
    let at = state.character_index as int;
    assert(typed.input.subrange(0, at) =~= state.input.subrange(0, at));
    assert(typed.input[at] == c);
    lemma_byte_offset_step(typed.input, at);
    lemma_byte_offset_is_boundary(typed.input, at);
    lemma_byte_offset_is_boundary(typed.input, at + 1);
    lemma_byte_offset_split(typed.input, at);
    let tail = typed.input.subrange(at, typed.input.len() as int);
    assert(tail =~= seq![c] + tail.drop_first());
    lemma_encode_concat(seq![c], tail.drop_first());
    lemma_encode_single(c);
    let bytes = encode_utf8(typed.input);
    let offset = byte_offset(state.input, at);
    assert(bytes.subrange(offset as int, (offset + char_width(c)) as int) =~= bytes.subrange(
        offset as int,
        bytes.len() as int,
    ).subrange(0, char_width(c) as int));
    assert(encode_utf8(tail).subrange(0, char_width(c) as int) =~= encode_scalar(c as u32));
}

/// Flipping the popup twice changes nothing, and after each flip the popup is
/// open exactly in editing mode.
pub proof fn lemma_toggle_popup(state: AppState)
    requires
        state.wf(),
    ensures
        (state.toggle_popup().input_mode == InputMode::Editing) == state.toggle_popup().show_popup,
        state.toggle_popup().show_popup == !state.show_popup,
        state.toggle_popup().toggle_popup() == state,
{
}

/// Pressing Enter in editing mode takes the argument line as the arguments
/// of the status command, asks for a run, and goes back to normal mode. The
/// line and the cursor stay as they are.
pub proof fn lemma_enter_submits(state: AppState)
    requires
        state.wf(),
        state.input_mode == InputMode::Editing,
    ensures
        state.handle_event(Event::Key { code: KeyCode::Enter, kind: KeyEventKind::Press }) == (
            AppState {
                pueue_args: state.input,
                input_mode: InputMode::Normal,
                show_popup: false,
                ..state
            },
            Action::RunCommand,
        ),
{
}

/// A key that is held or released changes nothing, whatever the key and the
/// mode.
pub proof fn lemma_only_presses_count(state: AppState, code: KeyCode, kind: KeyEventKind)
    requires
        kind != KeyEventKind::Press,
    ensures
        state.handle_event(Event::Key { code, kind }) == (state, Action::Continue),
{
}

/// While the popup is open no refresh is due, however late it is.
pub proof fn lemma_no_refresh_under_popup(state: AppState, now: nat)
    requires
        state.show_popup,
    ensures
        !state.refresh_due(now),
{
}

} // verus!
