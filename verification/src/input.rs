//! One frame's input, and what it is routed to.

use crate::geometry::Point;
use vstd::prelude::*;

verus! {

/// What the pointer and the keyboard did during one frame.
#[derive(Clone, Copy, Debug, PartialEq, Eq, Structural)]
pub struct FrameInput {
    /// Where the pointer is, in screen space.
    pub pointer: Point,
    /// How far the pointer moved since the previous frame.
    pub pointer_delta: Point,
    /// The vertical scroll since the previous frame.
    pub scroll: i64,
    /// Whether a shift key is held.
    pub shift_held: bool,
    /// Whether a control key is held.
    pub ctrl_held: bool,
    /// Whether a control key went down during this frame.
    pub ctrl_pressed: bool,
    /// Whether the primary pointer button is held.
    pub primary_down: bool,
    /// Whether the quit key went down during this frame.
    pub quit_pressed: bool,
    /// Whether the secondary pointer button went down during this frame.
    pub exit_pressed: bool,
    /// The seconds that the previous frame took.
    pub frame_time: i64,
    /// The estimated number of frames per second.
    pub frame_rate: u32,
}

/// The one consumer of a frame's scroll.
#[derive(Clone, Copy, Debug, PartialEq, Eq, Structural)]
pub enum ScrollTarget {
    /// There was no scroll.
    Nothing,
    /// The scroll feeds the zoom momentum.
    Zoom,
    /// The scroll changes the lens magnification.
    Magnification,
    /// The scroll changes the lens radius.
    Radius,
}

/// Shift routes a scroll to the magnification; control, without shift, to
/// the radius; no modifier, to the zoom.
pub open spec fn routed(scroll: int, shift_held: bool, ctrl_held: bool) -> ScrollTarget {
    if scroll == 0 {
        ScrollTarget::Nothing
    } else if shift_held {
        ScrollTarget::Magnification
    } else if ctrl_held {
        ScrollTarget::Radius
    } else {
        ScrollTarget::Zoom
    }
}

impl FrameInput {
    /// A frame in which nothing happened, at the pointer position given.
    pub fn idle(pointer: Point, frame_time: i64, frame_rate: u32) -> (input: FrameInput)
        ensures
            input == (FrameInput {
                pointer,
                pointer_delta: Point { x: 0, y: 0 },
                scroll: 0,
                shift_held: false,
                ctrl_held: false,
                ctrl_pressed: false,
                primary_down: false,
                quit_pressed: false,
                exit_pressed: false,
                frame_time,
                frame_rate,
            }),
    {
        FrameInput {
            pointer,
            pointer_delta: Point { x: 0, y: 0 },
            scroll: 0,
            shift_held: false,
            ctrl_held: false,
            ctrl_pressed: false,
            primary_down: false,
            quit_pressed: false,
            exit_pressed: false,
            frame_time,
            frame_rate,
        }
    }

    /// The consumer of this frame's scroll.
    pub open spec fn target(self) -> ScrollTarget {
        routed(self.scroll as int, self.shift_held, self.ctrl_held)
    }

    /// The consumer of this frame's scroll.
    pub fn scroll_target(&self) -> (t: ScrollTarget)
        ensures
            t == self.target(),
    {
        if self.scroll == 0 {
            ScrollTarget::Nothing
        } else if self.shift_held {
            ScrollTarget::Magnification
        } else if self.ctrl_held {
            ScrollTarget::Radius
        } else {
            ScrollTarget::Zoom
        }
    }

    /// Whether the loop ends with this frame: on the quit key, on the
    /// secondary pointer button, or when the window was asked to close.
    pub fn wants_quit(&self, close_requested: bool) -> (quit: bool)
        ensures
            quit == (self.quit_pressed || self.exit_pressed || close_requested),
    {
        self.quit_pressed || self.exit_pressed || close_requested
    }
}

} // verus!
