//! Scroll positions along one axis.

use vstd::prelude::*;
use crate::app::{App, AppState};

verus! {

/// Position and extent of the content along one axis.
///
/// The position is not bounded by the content length: scrolling past the end
/// simply shows blank space.
#[derive(Clone, Copy, Debug, PartialEq, Eq, Structural)]
pub struct ScrollAxis {
    pub position: usize,
    pub content_length: usize,
}

/// The distance that a scroll request moves, as a natural number.
///
/// No amount means one step. A negative amount stands for the value that its
/// bit pattern has when widened to the machine word, so it moves further than
/// any content is long.
pub open spec fn magnitude(amount: Option<i8>) -> nat {
    match amount {
        None => 1,
        Some(n) => if n >= 0 {
            n as nat
        } else {
            (usize::MAX + 1 + n) as nat
        },
    }
}

/// `position + distance`, held at the largest machine word.
pub open spec fn saturating_forward(position: nat, distance: nat) -> nat {
    if position + distance <= usize::MAX {
        position + distance
    } else {
        usize::MAX as nat
    }
}

/// `position - distance`, held at zero.
pub open spec fn saturating_backward(position: nat, distance: nat) -> nat {
    if position >= distance {
        (position - distance) as nat
    } else {
        0
    }
}

/// Computes [`magnitude`] as a machine word.
pub fn scroll_distance(amount: Option<i8>) -> (distance: usize)
    ensures
        distance == magnitude(amount),
{
    match amount {
        None => 1,
        Some(n) => {
            if n >= 0 {
                n as usize
            } else {
                let below: i16 = -(n as i16) - 1;
                usize::MAX - (below as usize)
            }
        },
    }
}

impl ScrollAxis {
    /// The axis with its position moved towards the end by [`magnitude`] of
    /// `amount` and held at the largest machine word. The content length sets
    /// no bound.
    pub fn scroll_forward(self, amount: Option<i8>) -> (moved: ScrollAxis)
        ensures
            moved.position == saturating_forward(self.position as nat, magnitude(amount)),
            moved.content_length == self.content_length,
    {
        ScrollAxis {
            position: self.position.saturating_add(scroll_distance(amount)),
            content_length: self.content_length,
        }
    }

    /// The axis with its position moved towards the start by [`magnitude`]
    /// of `amount` and held at zero.
    pub fn scroll_backward(self, amount: Option<i8>) -> (moved: ScrollAxis)
        ensures
            moved.position == saturating_backward(self.position as nat, magnitude(amount)),
            moved.content_length == self.content_length,
    {
        ScrollAxis {
            position: self.position.saturating_sub(scroll_distance(amount)),
            content_length: self.content_length,
        }
    }
}

impl AppState {
    /// The state after scrolling towards the last line.
    pub open spec fn scroll_down(self, amount: Option<i8>) -> AppState {
        AppState {
            vertical_scroll: saturating_forward(self.vertical_scroll, magnitude(amount)),
            ..self
        }
    }

    /// The state after scrolling towards the first line.
    pub open spec fn scroll_up(self, amount: Option<i8>) -> AppState {
        AppState {
            vertical_scroll: saturating_backward(self.vertical_scroll, magnitude(amount)),
            ..self
        }
    }

    /// The state after scrolling towards the first column.
    pub open spec fn scroll_left(self, amount: Option<i8>) -> AppState {
        AppState {
            horizontal_scroll: saturating_backward(self.horizontal_scroll, magnitude(amount)),
            ..self
        }
    }

    /// The state after scrolling towards the last column.
    pub open spec fn scroll_right(self, amount: Option<i8>) -> AppState {
        AppState {
            horizontal_scroll: saturating_forward(self.horizontal_scroll, magnitude(amount)),
            ..self
        }
    }
}

impl App {
    /// Scrolls the output down by one line, or by `scroll_val` lines.
    pub fn scroll_down(&mut self, scroll_val: Option<i8>)
        ensures
            final(self)@ == old(self)@.scroll_down(scroll_val),
    {
        proof {
            use_type_invariant(&*self);
        }
        self.vertical = self.vertical.scroll_forward(scroll_val);
    }

    /// Scrolls the output up by one line, or by `scroll_val` lines, and stops
    /// at the first line.
    pub fn scroll_up(&mut self, scroll_val: Option<i8>)
        ensures
            final(self)@ == old(self)@.scroll_up(scroll_val),
    {
        proof {
            use_type_invariant(&*self);
        }
        self.vertical = self.vertical.scroll_backward(scroll_val);
    }

    /// Scrolls the output left by one column, or by `scroll_val` columns, and
    /// stops at the first column.
    pub fn scroll_left(&mut self, scroll_val: Option<i8>)
        ensures
            final(self)@ == old(self)@.scroll_left(scroll_val),
    {
        proof {
            use_type_invariant(&*self);
        }
        self.horizontal = self.horizontal.scroll_backward(scroll_val);
    }

    /// Scrolls the output right by one column, or by `scroll_val` columns.
    pub fn scroll_right(&mut self, scroll_val: Option<i8>)
        ensures
            final(self)@ == old(self)@.scroll_right(scroll_val),
    {
        proof {
            use_type_invariant(&*self);
        }
        self.horizontal = self.horizontal.scroll_forward(scroll_val);
    }
}

} // verus!
