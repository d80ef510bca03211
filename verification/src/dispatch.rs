//! Input-event dispatch: the decision each classified key release leads to.
//!
//! The OS-level listener only enqueues events; a single consumer drains the
//! queue in arrival order and asks `plan_dispatch` what to do.  The plan for
//! an advance-only event depends on whether the viewer has caught up to the
//! last captured slide: if so, a new slide must be captured (after a settle
//! delay, so on-screen transitions finish) before the position moves; if
//! not, only the position moves and nothing is captured or broadcast.

use vstd::prelude::*;
use crate::state::PresentationState;

verus! {

/// How long to wait before a delayed capture, so that on-screen animations
/// and loading have settled.
pub const SETTLE_DELAY_MILLIS: u64 = 1000;

/// A key release, classified.  Anything else the listener sees is discarded
/// before it reaches the dispatcher.
#[derive(Clone, Copy, PartialEq, Eq, Structural, Debug)]
pub enum InputEvent {
    /// Capture a new slide now, then advance the position.
    AdvanceAndCapture,
    /// Advance the position; capture first only if already caught up.
    AdvanceOnly,
    /// Step the position back; never captures.
    RetreatOnly,
}

/// What the dispatcher decides to do for one event.
#[derive(Clone, Copy, PartialEq, Eq, Structural, Debug)]
pub enum DispatchPlan {
    /// Capture immediately, then advance the position.
    CaptureThenAdvance,
    /// Wait the settle delay, capture, then advance the position.
    DelayedCaptureThenAdvance,
    /// Only advance the position: the next slide is already captured.
    AdvancePosition,
    /// Only step the position back.
    RetreatPosition,
}

/// The dispatch decision for an event against a position and slide count.
pub open spec fn spec_plan(position: u16, slide_count: u16, event: InputEvent) -> DispatchPlan {
    match event {
        InputEvent::AdvanceAndCapture => DispatchPlan::CaptureThenAdvance,
        InputEvent::AdvanceOnly => if position == slide_count {
            DispatchPlan::DelayedCaptureThenAdvance
        } else {
            DispatchPlan::AdvancePosition
        },
        InputEvent::RetreatOnly => DispatchPlan::RetreatPosition,
    }
}

/// Decide what one event does, from the state as read at dispatch time.
pub fn plan_dispatch(state: &PresentationState, event: InputEvent) -> (p: DispatchPlan)
    ensures
        p == spec_plan(state.current_position, state.slide_count, event),
{
    match event {
        InputEvent::AdvanceAndCapture => DispatchPlan::CaptureThenAdvance,
        InputEvent::AdvanceOnly => {
            if state.current_position == state.slide_count {
                DispatchPlan::DelayedCaptureThenAdvance
            } else {
                DispatchPlan::AdvancePosition
            }
        },
        InputEvent::RetreatOnly => DispatchPlan::RetreatPosition,
    }
}

} // verus!
