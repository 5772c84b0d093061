//! Pointer tracking: the record that survives from frame to frame, and the
//! sampler that turns the button's level into edge events.

use vstd::prelude::*;
use crate::geometry::Point2;

verus! {

/// What the primary button did between the previous frame and this one.
#[derive(Clone, Copy, Debug, PartialEq, Eq, Structural)]
pub enum EdgeEvent {
    /// Up before, down now.
    PressStart,
    /// Down before, down now.
    HeldWhilePressed,
    /// Down before, up now.
    ReleaseEdge,
    /// Up before, up now.
    NoChange,
}

/// Timing and edge-detection bookkeeping of the pointer.
#[derive(Clone, Copy, Debug, PartialEq, Eq, Structural)]
pub struct DQ {
    /// When the button last went down.
    pub last_click_time: u64,
    /// When the press that may become a drag began, while one is armed.
    pub held_start_time: Option<u64>,
    /// Where the cursor was when it was last sampled.
    pub cursor_pos: Point2,
    /// Whether the button was down when it was last sampled.
    pub was_pressed: bool,
}

/// The edge between two consecutive samples of the button.
pub open spec fn edge_between(was_pressed: bool, pressed: bool) -> EdgeEvent {
    if pressed {
        if was_pressed {
            EdgeEvent::HeldWhilePressed
        } else {
            EdgeEvent::PressStart
        }
    } else {
        if was_pressed {
            EdgeEvent::ReleaseEdge
        } else {
            EdgeEvent::NoChange
        }
    }
}

impl EdgeEvent {
    /// Whether the button is down after this event.
    pub open spec fn button_down(self) -> bool {
        self is PressStart || self is HeldWhilePressed
    }

    /// Whether the button is down after this event.
    pub fn is_button_down(self) -> (down: bool)
        ensures
            down == self.button_down(),
    {
        match self {
            EdgeEvent::PressStart | EdgeEvent::HeldWhilePressed => true,
            EdgeEvent::ReleaseEdge | EdgeEvent::NoChange => false,
        }
    }
}

impl DQ {
    /// The record before anything was sampled: button up, cursor at the
    /// origin, no press armed, and `now` standing in for the last click.
    pub open spec fn initial(now: u64) -> DQ {
        DQ {
            last_click_time: now,
            held_start_time: None,
            cursor_pos: Point2 { x: 0, y: 0 },
            was_pressed: false,
        }
    }

    /// The record after sampling the button at `pressed` and the cursor at
    /// `cursor`. The click times are not the sampler's to change.
    pub open spec fn sampled(self, pressed: bool, cursor: Point2) -> DQ {
        DQ { was_pressed: pressed, cursor_pos: cursor, ..self }
    }

    /// The record at start-up, created at time `now`.
    pub fn new(now: u64) -> (dq: DQ)
        ensures
            dq == DQ::initial(now),
    {
        DQ {
            last_click_time: now,
            held_start_time: None,
            cursor_pos: Point2 { x: 0, y: 0 },
            was_pressed: false,
        }
    }
}

/// Samples the pointer: records the cursor position and the button's level,
/// and reports the edge against the level recorded before.
pub fn update_cursor_pos(dq: &mut DQ, pressed: bool, cursor: Point2) -> (event: EdgeEvent)
    ensures
        event == edge_between(old(dq).was_pressed, pressed),
        *final(dq) == old(dq).sampled(pressed, cursor),
{
    let event = if pressed {
        if dq.was_pressed {
            EdgeEvent::HeldWhilePressed
        } else {
            EdgeEvent::PressStart
        }
    } else {
        if dq.was_pressed {
            EdgeEvent::ReleaseEdge
        } else {
            EdgeEvent::NoChange
        }
    };
    dq.was_pressed = pressed;
    dq.cursor_pos = cursor;
    event
}

} // verus!
