//! The state-update message sent to viewers, and its three shapes: the
//! initial full sync, a slide addition, and a slide deletion.

use vstd::prelude::*;
use crate::codec::json_safe;
use crate::state::PresentationState;

verus! {

/// One state-update message as it goes over the wire: a message type tag and
/// the piece of the current state it carries.
pub struct ServerMessage {
    pub message_type: String,
    pub current_state: CurrentState,
}

/// The state payload of a message.  A field the message does not speak of is
/// `None` and is encoded as `null`.
pub struct CurrentState {
    pub num_slides: Option<u16>,
    pub deleted_slides: Option<Vec<u16>>,
}

impl ServerMessage {
    /// The payload's deleted-slide list as a sequence, where present.
    pub open spec fn deleted_view(self) -> Option<Seq<u16>> {
        match self.current_state.deleted_slides {
            Option::None => Option::None,
            Option::Some(v) => Option::Some(v@),
        }
    }
}

/// Build the broadcast message for a newly captured slide: tagged
/// `slideAdded`, carrying the new slide count and no deletion list.
pub fn slide_added_message(slide_count: u16) -> (m: ServerMessage)
    ensures
        m.message_type@ == ("slideAdded")@,
        m.current_state.num_slides == Option::Some(slide_count),
        m.current_state.deleted_slides is None,
        json_safe(m.message_type@),
{
    proof {
        reveal_strlit("slideAdded");
    }
    ServerMessage {
        message_type: String::from_str("slideAdded"),
        current_state: CurrentState { num_slides: Option::Some(slide_count), deleted_slides: Option::None },
    }
}

/// Build the broadcast message for a deletion: tagged `slideDeleted`,
/// carrying the updated deletion list and no slide count.
pub fn slide_deleted_message(deleted: Vec<u16>) -> (m: ServerMessage)
    ensures
        m.message_type@ == ("slideDeleted")@,
        m.current_state.num_slides is None,
        m.deleted_view() == Option::Some(deleted@),
        json_safe(m.message_type@),
{
    proof {
        reveal_strlit("slideDeleted");
    }
    ServerMessage {
        message_type: String::from_str("slideDeleted"),
        current_state: CurrentState { num_slides: Option::None, deleted_slides: Option::Some(deleted) },
    }
}

/// Build the initial per-connection sync message: tagged `slidesInfo`,
/// reflecting exactly the given state — its slide count and its full
/// deletion list.
pub fn full_sync_message(state: &PresentationState) -> (m: ServerMessage)
    ensures
        m.message_type@ == ("slidesInfo")@,
        m.current_state.num_slides == Option::Some(state.slide_count),
        m.deleted_view() == Option::Some(state.deleted_slides@),
        json_safe(m.message_type@),
{
    proof {
        reveal_strlit("slidesInfo");
    }
    let snapshot = state.read_snapshot();
    ServerMessage {
        message_type: String::from_str("slidesInfo"),
        current_state: CurrentState {
            num_slides: Option::Some(snapshot.slide_count),
            deleted_slides: Option::Some(snapshot.deleted_slides),
        },
    }
}

} // verus!
