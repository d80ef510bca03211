//! The mutate-and-publish flows: capturing a slide, deleting one, and the
//! initial sync text for a new connection.
//!
//! A capture consumes the next slide number first; the frame grab and the
//! write to disk happen outside this library, and only a successful persist
//! leads to a broadcast — a failed capture leaves the counter advanced
//! (numbering may gap) but sends nothing for a slide that does not exist.

use vstd::prelude::*;
use crate::codec::{encode_message, spec_message_json};
use crate::hub::Hub;
use crate::message::{full_sync_message, slide_added_message, slide_deleted_message};
use crate::state::PresentationState;
use crate::text::{slide_file_name, spec_slide_file_name};

verus! {

/// Why a capture attempt produced no slide.
#[derive(Clone, Copy, PartialEq, Eq, Structural, Debug)]
pub enum CaptureError {
    /// No capturable display was found.
    NoDisplay,
    /// The captured frame could not be persisted.
    PersistFailed,
}

/// Begin a capture: consume the next slide number and derive the asset name
/// it will be persisted under.  The counter is not rolled back if the
/// capture later fails.
pub fn begin_capture(state: &mut PresentationState) -> (r: (u16, String))
    requires
        old(state).slide_count < u16::MAX,
    ensures
        final(state).slide_count == old(state).slide_count + 1,
        final(state).current_position == old(state).current_position,
        final(state).deleted_slides@ == old(state).deleted_slides@,
        r.0 == final(state).slide_count,
        r.1@ == spec_slide_file_name(r.0 as nat),
        old(state).wf() ==> final(state).wf(),
{
    let n = state.record_new_slide();
    let name = slide_file_name(n);
    (n, name)
}

/// Broadcast that slide `slide_count` was captured and persisted.
pub fn publish_slide_added(hub: &mut Hub, slide_count: u16)
    requires
        old(hub).log@.len() < usize::MAX,
    ensures
        final(hub).texts() == old(hub).texts().push(
            spec_message_json(("slideAdded")@, Option::Some(slide_count), Option::None),
        ),
        final(hub).capacity == old(hub).capacity,
{
    let m = slide_added_message(slide_count);
    let text = encode_message(&m);
    hub.publish(text);
}

/// Finish a successful capture: broadcast the new slide and advance the
/// position to it.  Returns the new position.
pub fn complete_capture(state: &mut PresentationState, hub: &mut Hub, slide_number: u16) -> (p: u16)
    requires
        old(state).wf(),
        old(state).current_position < old(state).slide_count,
        old(hub).log@.len() < usize::MAX,
    ensures
        final(state).slide_count == old(state).slide_count,
        final(state).deleted_slides@ == old(state).deleted_slides@,
        final(state).current_position == old(state).current_position + 1,
        final(state).wf(),
        p == final(state).current_position,
        final(hub).texts() == old(hub).texts().push(
            spec_message_json(("slideAdded")@, Option::Some(slide_number), Option::None),
        ),
        final(hub).capacity == old(hub).capacity,
{
    publish_slide_added(hub, slide_number);
    state.advance_position(1)
}

/// Finish a capture attempt, given how the grab-and-persist went.  A
/// persisted slide is broadcast and the position advances to it.  A failed
/// attempt changes nothing further: the already-consumed slide number stays
/// consumed, but no broadcast goes out for a slide that does not exist on
/// disk, and the error is handed back.
pub fn finish_capture(
    state: &mut PresentationState,
    hub: &mut Hub,
    slide_number: u16,
    persisted: Result<(), CaptureError>,
) -> (r: Result<u16, CaptureError>)
    requires
        old(state).wf(),
        old(state).current_position < old(state).slide_count,
        old(hub).log@.len() < usize::MAX,
    ensures
        persisted is Ok ==> {
            &&& final(state).current_position == old(state).current_position + 1
            &&& final(hub).texts() == old(hub).texts().push(
                spec_message_json(("slideAdded")@, Option::Some(slide_number), Option::None),
            )
            &&& r == Result::<u16, CaptureError>::Ok(slide_number)
        },
        persisted matches Err(e) ==> {
            &&& *final(state) == *old(state)
            &&& final(hub).texts() == old(hub).texts()
            &&& r == Result::<u16, CaptureError>::Err(e)
        },
        final(state).slide_count == old(state).slide_count,
        final(state).deleted_slides@ == old(state).deleted_slides@,
        final(state).wf(),
        final(hub).capacity == old(hub).capacity,
{
    match persisted {
        Result::Ok(()) => {
            complete_capture(state, hub, slide_number);
            Result::Ok(slide_number)
        },
        Result::Err(e) => Result::Err(e),
    }
}

/// Commit a deletion: record the slide number — whether or not it was ever
/// captured — and broadcast the updated deletion list.  Returns that list.
pub fn delete_slide_commit(state: &mut PresentationState, hub: &mut Hub, slide_number: u16) -> (deleted: Vec<u16>)
    requires
        old(hub).log@.len() < usize::MAX,
    ensures
        final(state).deleted_slides@ == old(state).deleted_slides@.push(slide_number),
        final(state).slide_count == old(state).slide_count,
        final(state).current_position == old(state).current_position,
        old(state).wf() ==> final(state).wf(),
        deleted@ == final(state).deleted_slides@,
        final(hub).texts() == old(hub).texts().push(
            spec_message_json(
                ("slideDeleted")@,
                Option::None,
                Option::Some(old(state).deleted_slides@.push(slide_number)),
            ),
        ),
        final(hub).capacity == old(hub).capacity,
{
    let deleted = state.record_deletion(slide_number);
    let m = slide_deleted_message(deleted);
    let text = encode_message(&m);
    hub.publish(text);
    match m.current_state.deleted_slides {
        Option::Some(v) => v,
        Option::None => Vec::new(),
    }
}

/// The full-sync text for a connection that joins now: it reflects exactly
/// the state's current slide count and deletion list.
pub fn full_sync_json(state: &PresentationState) -> (r: String)
    ensures
        r@ == spec_message_json(
            ("slidesInfo")@,
            Option::Some(state.slide_count),
            Option::Some(state.deleted_slides@),
        ),
{
    let m = full_sync_message(state);
    encode_message(&m)
}

} // verus!
