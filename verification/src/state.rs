//! The shared presentation state and its store operations.
//!
//! One instance lives for the whole run.  `slide_count` is a monotonic
//! counter of captured slides, `current_position` is the slide the viewers
//! should be showing now, and `deleted_slides` records, in insertion order,
//! the slide numbers removed from view.

use vstd::prelude::*;

verus! {

/// The single shared presentation state.
///
/// Invariant: after every completed update, `current_position` never exceeds
/// `slide_count` (`wf`).  Every mutator preserves it.
#[verifier::ext_equal]
pub struct PresentationState {
    /// Number of slides captured so far; never decremented.
    pub slide_count: u16,
    /// The slide the viewers are at now; once raised it never goes below 1.
    pub current_position: u16,
    /// Slide numbers removed from view, in the order the deletions happened.
    pub deleted_slides: Vec<u16>,
}

impl PresentationState {
    /// The store's invariant: the position never points past the last
    /// captured slide.
    pub open spec fn wf(self) -> bool {
        self.current_position <= self.slide_count
    }

    /// Fresh state at service start: all fields zeroed.
    pub fn new() -> (s: PresentationState)
        ensures
            s.slide_count == 0,
            s.current_position == 0,
            s.deleted_slides@ == Seq::<u16>::empty(),
            s.wf(),
    {
        PresentationState { slide_count: 0, current_position: 0, deleted_slides: Vec::new() }
    }

    /// A consistent point-in-time copy of the state.
    pub fn read_snapshot(&self) -> (s: PresentationState)
        ensures
            s.slide_count == self.slide_count,
            s.current_position == self.current_position,
            s.deleted_slides@ == self.deleted_slides@,
    {
        let mut deleted: Vec<u16> = Vec::new();
        let mut i: usize = 0;
        while i < self.deleted_slides.len()
            invariant
                i <= self.deleted_slides.len(),
                deleted@ == self.deleted_slides@.take(i as int),
            decreases self.deleted_slides.len() - i,
        {
            deleted.push(self.deleted_slides[i]);
            proof {
                assert(self.deleted_slides@.take(i + 1)
                    =~= self.deleted_slides@.take(i as int).push(self.deleted_slides@[i as int]));
            }
            i = i + 1;
        }
        proof {
            assert(self.deleted_slides@.take(self.deleted_slides@.len() as int)
                =~= self.deleted_slides@);
        }
        PresentationState {
            slide_count: self.slide_count,
            current_position: self.current_position,
            deleted_slides: deleted,
        }
    }

    /// Consume the next slide number: the counter goes up by one and the new
    /// count is returned.  Nothing else changes.
    pub fn record_new_slide(&mut self) -> (n: u16)
        requires
            old(self).slide_count < u16::MAX,
        ensures
            *final(self) == spec_record_new_slide(*old(self)),
            final(self).slide_count == old(self).slide_count + 1,
            final(self).current_position == old(self).current_position,
            final(self).deleted_slides@ == old(self).deleted_slides@,
            n == final(self).slide_count,
            old(self).wf() ==> final(self).wf(),
    {
        self.slide_count = self.slide_count + 1;
        self.slide_count
    }

    /// Record a deletion.  The number is appended unconditionally: a
    /// deletion needs no prior capture of that number.
    pub fn record_deletion(&mut self, slide_number: u16) -> (deleted: Vec<u16>)
        ensures
            final(self).deleted_slides@ == old(self).deleted_slides@.push(slide_number),
            final(self).slide_count == old(self).slide_count,
            final(self).current_position == old(self).current_position,
            deleted@ == final(self).deleted_slides@,
            old(self).wf() ==> final(self).wf(),
    {
        self.deleted_slides.push(slide_number);
        let snapshot = self.read_snapshot();
        snapshot.deleted_slides
    }

    /// Move the position by one step.  A step back at position 1 is a no-op:
    /// the position is floored there so rapid retreat input never goes below
    /// the first slide.  Returns the position after the call.
    pub fn advance_position(&mut self, delta: i8) -> (p: u16)
        requires
            delta == 1 || delta == -1,
            old(self).wf(),
            delta == 1 ==> old(self).current_position < old(self).slide_count,
            delta == -1 ==> old(self).current_position >= 1,
        ensures
            delta == 1 ==> final(self).current_position == old(self).current_position + 1,
            delta == -1 && old(self).current_position == 1 ==> final(self).current_position
                == old(self).current_position,
            delta == -1 && old(self).current_position > 1 ==> final(self).current_position
                == old(self).current_position - 1,
            final(self).slide_count == old(self).slide_count,
            final(self).deleted_slides@ == old(self).deleted_slides@,
            p == final(self).current_position,
            final(self).wf(),
    {
        if delta == -1 && self.current_position == 1 {
            return self.current_position;
        }
        if delta == 1 {
            self.current_position = self.current_position + 1;
        } else {
            self.current_position = self.current_position - 1;
        }
        self.current_position
    }
}

/// What one `record_new_slide` call does to the state.
pub open spec fn spec_record_new_slide(s: PresentationState) -> PresentationState {
    PresentationState {
        slide_count: (s.slide_count + 1) as u16,
        current_position: s.current_position,
        deleted_slides: s.deleted_slides,
    }
}

/// The state after `n` successive `record_new_slide` calls.
pub open spec fn spec_records(s: PresentationState, n: nat) -> PresentationState
    decreases n,
{
    if n == 0 {
        s
    } else {
        spec_record_new_slide(spec_records(s, (n - 1) as nat))
    }
}

/// After any sequence of `n` successful `record_new_slide` calls the slide
/// count has grown by exactly `n` — one per successful call, no skips — and
/// nothing else has moved.
pub proof fn lemma_slide_count_after_records(s: PresentationState, n: nat)
    requires
        s.slide_count + n <= u16::MAX,
    ensures
        spec_records(s, n).slide_count == s.slide_count + n,
        spec_records(s, n).current_position == s.current_position,
        spec_records(s, n).deleted_slides == s.deleted_slides,
    decreases n,
{
    if n > 0 {
        lemma_slide_count_after_records(s, (n - 1) as nat);
    }
}

} // verus!
