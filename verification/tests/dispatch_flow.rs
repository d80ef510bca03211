use slide_sync::dispatch::{plan_dispatch, DispatchPlan, InputEvent};
use slide_sync::hub::{Hub, PollOutcome};
use slide_sync::pipeline::{
    begin_capture, complete_capture, delete_slide_commit, finish_capture, full_sync_json,
    CaptureError,
};
use slide_sync::state::PresentationState;

fn expect_message(outcome: PollOutcome) -> String {
    match outcome {
        PollOutcome::Message(m) => m,
        _ => panic!("expected a message"),
    }
}

#[test]
fn advance_and_capture_from_start() {
    let mut state = PresentationState::new();
    let mut hub = Hub::new(100);
    let mut sub = hub.subscribe();

    let plan = plan_dispatch(&state, InputEvent::AdvanceAndCapture);
    assert_eq!(plan, DispatchPlan::CaptureThenAdvance);

    let (n, file_name) = begin_capture(&mut state);
    assert_eq!(n, 1);
    assert_eq!(file_name, "slide1.png");
    let position = complete_capture(&mut state, &mut hub, n);

    assert_eq!(state.slide_count, 1);
    assert_eq!(position, 1);
    assert_eq!(
        expect_message(hub.poll(&mut sub)),
        "{\"message_type\":\"slideAdded\",\"current_state\":{\"num_slides\":1,\"deleted_slides\":null}}"
    );
}

#[test]
fn advance_only_when_caught_up_captures_after_delay() {
    let mut state = PresentationState { slide_count: 3, current_position: 3, deleted_slides: Vec::new() };
    let mut hub = Hub::new(100);
    let mut sub = hub.subscribe();

    let plan = plan_dispatch(&state, InputEvent::AdvanceOnly);
    assert_eq!(plan, DispatchPlan::DelayedCaptureThenAdvance);

    let (n, _file_name) = begin_capture(&mut state);
    assert_eq!(n, 4);
    let position = complete_capture(&mut state, &mut hub, n);

    assert_eq!(state.slide_count, 4);
    assert_eq!(position, 4);
    assert_eq!(
        expect_message(hub.poll(&mut sub)),
        "{\"message_type\":\"slideAdded\",\"current_state\":{\"num_slides\":4,\"deleted_slides\":null}}"
    );
}

#[test]
fn advance_only_when_behind_moves_position_only() {
    let mut state = PresentationState { slide_count: 3, current_position: 1, deleted_slides: Vec::new() };
    let mut hub = Hub::new(100);
    let mut sub = hub.subscribe();

    let plan = plan_dispatch(&state, InputEvent::AdvanceOnly);
    assert_eq!(plan, DispatchPlan::AdvancePosition);

    let position = state.advance_position(1);
    assert_eq!(position, 2);
    assert_eq!(state.slide_count, 3);
    assert!(matches!(hub.poll(&mut sub), PollOutcome::Empty));
}

#[test]
fn retreat_only_never_captures() {
    let state = PresentationState { slide_count: 3, current_position: 2, deleted_slides: Vec::new() };
    let plan = plan_dispatch(&state, InputEvent::RetreatOnly);
    assert_eq!(plan, DispatchPlan::RetreatPosition);
}

#[test]
fn delete_slide_two_broadcasts_and_syncs() {
    let mut state = PresentationState::new();
    let mut hub = Hub::new(100);
    let mut sub = hub.subscribe();

    let deleted = delete_slide_commit(&mut state, &mut hub, 2);
    assert_eq!(deleted, vec![2]);
    assert_eq!(
        expect_message(hub.poll(&mut sub)),
        "{\"message_type\":\"slideDeleted\",\"current_state\":{\"num_slides\":null,\"deleted_slides\":[2]}}"
    );

    let sync = full_sync_json(&state);
    assert_eq!(
        sync,
        "{\"message_type\":\"slidesInfo\",\"current_state\":{\"num_slides\":0,\"deleted_slides\":[2]}}"
    );
}

#[test]
fn capture_failure_sends_no_broadcast() {
    let mut state = PresentationState::new();
    let mut hub = Hub::new(100);
    let mut sub = hub.subscribe();

    let (n, _file_name) = begin_capture(&mut state);
    assert_eq!(n, 1);
    assert_eq!(state.slide_count, 1);

    let outcome = finish_capture(&mut state, &mut hub, n, Err(CaptureError::NoDisplay));
    assert_eq!(outcome, Err(CaptureError::NoDisplay));
    assert_eq!(state.slide_count, 1);
    assert_eq!(state.current_position, 0);
    assert!(matches!(hub.poll(&mut sub), PollOutcome::Empty));
}

#[test]
fn persisted_capture_is_broadcast() {
    let mut state = PresentationState::new();
    let mut hub = Hub::new(100);
    let mut sub = hub.subscribe();

    let (n, _file_name) = begin_capture(&mut state);
    let outcome = finish_capture(&mut state, &mut hub, n, Ok(()));
    assert_eq!(outcome, Ok(1));
    assert_eq!(state.current_position, 1);
    assert!(matches!(hub.poll(&mut sub), PollOutcome::Message(_)));
}
