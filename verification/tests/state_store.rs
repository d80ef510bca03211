use slide_sync::state::PresentationState;

#[test]
fn new_state_zeroed() {
    let s = PresentationState::new();
    assert_eq!(s.slide_count, 0);
    assert_eq!(s.current_position, 0);
    assert!(s.deleted_slides.is_empty());
}

#[test]
fn record_three_slides() {
    let mut s = PresentationState::new();
    assert_eq!(s.record_new_slide(), 1);
    assert_eq!(s.record_new_slide(), 2);
    assert_eq!(s.record_new_slide(), 3);
    assert_eq!(s.slide_count, 3);
    assert_eq!(s.current_position, 0);
    assert!(s.deleted_slides.is_empty());
}

#[test]
fn retreat_floor_at_one() {
    let mut s = PresentationState { slide_count: 3, current_position: 1, deleted_slides: Vec::new() };
    assert_eq!(s.advance_position(-1), 1);
    assert_eq!(s.current_position, 1);
    assert_eq!(s.advance_position(-1), 1);
    assert_eq!(s.current_position, 1);
}

#[test]
fn retreat_steps_back_above_one() {
    let mut s = PresentationState { slide_count: 5, current_position: 3, deleted_slides: Vec::new() };
    assert_eq!(s.advance_position(-1), 2);
    assert_eq!(s.advance_position(-1), 1);
    assert_eq!(s.advance_position(-1), 1);
}

#[test]
fn advance_moves_forward() {
    let mut s = PresentationState { slide_count: 2, current_position: 0, deleted_slides: Vec::new() };
    assert_eq!(s.advance_position(1), 1);
    assert_eq!(s.advance_position(1), 2);
    assert_eq!(s.slide_count, 2);
}

#[test]
fn deletion_without_prior_add() {
    let mut s = PresentationState::new();
    let deleted = s.record_deletion(7);
    assert_eq!(deleted, vec![7]);
    assert_eq!(s.deleted_slides, vec![7]);
    assert_eq!(s.slide_count, 0);
}

#[test]
fn deletions_keep_insertion_order() {
    let mut s = PresentationState::new();
    s.record_deletion(4);
    s.record_deletion(2);
    let deleted = s.record_deletion(4);
    assert_eq!(deleted, vec![4, 2, 4]);
}

#[test]
fn snapshot_is_a_copy() {
    let mut s = PresentationState { slide_count: 2, current_position: 1, deleted_slides: vec![2] };
    let snap = s.read_snapshot();
    s.record_new_slide();
    s.record_deletion(3);
    assert_eq!(snap.slide_count, 2);
    assert_eq!(snap.current_position, 1);
    assert_eq!(snap.deleted_slides, vec![2]);
}
