//! The broadcast hub: single-writer, multi-reader fan-out of encoded
//! state-update messages.
//!
//! A publish appends to the hub's log; each subscriber owns an independent
//! cursor into that log.  A subscriber sees only what was published after it
//! subscribed (no replay).  A subscriber that falls more than `capacity`
//! messages behind is not dropped: one poll reports how many messages it
//! missed and moves its cursor to the oldest retained message, after which
//! it keeps receiving.  A publish never waits on any subscriber.

use vstd::prelude::*;
use vstd::math::min;

verus! {

/// The fan-out hub.  `capacity` is the per-subscriber window: the number of
/// most recent messages a subscriber may still catch up on before it is
/// counted as lagging.
pub struct Hub {
    pub log: Vec<String>,
    pub capacity: usize,
}

/// One subscriber's handle: a cursor into the hub's log pointing at the next
/// message this subscriber is owed.
pub struct Subscription {
    pub cursor: usize,
}

/// What one poll hands a subscriber.
pub enum PollOutcome {
    /// Nothing published past this subscriber's cursor yet.
    Empty,
    /// The next message, in publish order.
    Message(String),
    /// The subscriber lagged: this many messages were missed.  The
    /// subscription stays usable and later polls deliver the retained
    /// messages.
    Lagged(usize),
}

impl Subscription {
    /// A subscription is valid for a hub while its cursor does not point
    /// past the log's end.  Publishing only grows the log, so a valid
    /// subscription stays valid.
    pub open spec fn valid_for(self, hub: Hub) -> bool {
        self.cursor <= hub.log@.len()
    }
}

impl Hub {
    /// The published message texts, oldest first.
    pub open spec fn texts(self) -> Seq<Seq<char>> {
        self.log.deep_view()
    }

    /// A fresh hub with no history and the given per-subscriber window.
    pub fn new(capacity: usize) -> (h: Hub)
        requires
            capacity >= 1,
        ensures
            h.log@.len() == 0,
            h.capacity == capacity,
    {
        Hub { log: Vec::new(), capacity }
    }

    /// Publish one message: it is appended to the log, behind everything
    /// published before it, and no subscriber is waited on.
    pub fn publish(&mut self, msg: String)
        requires
            old(self).log@.len() < usize::MAX,
        ensures
            final(self).log@ == old(self).log@.push(msg),
            final(self).texts() == old(self).texts().push(msg@),
            final(self).capacity == old(self).capacity,
    {
        self.log.push(msg);
        proof {
            assert(self.texts() =~= old(self).texts().push(msg@));
        }
    }

    /// A fresh subscription.  Its cursor starts at the log's end: the
    /// subscriber is owed everything published from this moment on and
    /// nothing from before (no replay of history).
    pub fn subscribe(&self) -> (sub: Subscription)
        ensures
            sub.cursor == self.log@.len(),
            sub.valid_for(*self),
    {
        Subscription { cursor: self.log.len() }
    }

    /// One poll for a subscriber.  Exactly one of three things happens:
    /// the subscriber is caught up (`Empty`); it is owed a message within
    /// the window and gets the next one in publish order (`Message`); or it
    /// fell behind the window and is told how many messages it missed
    /// (`Lagged`), its cursor moving to the oldest retained message.  A
    /// lagging subscriber is never disconnected here.
    pub fn poll(&self, sub: &mut Subscription) -> (r: PollOutcome)
        requires
            old(sub).valid_for(*self),
        ensures
            final(sub).cursor == spec_next_cursor(
                self.log@.len() as int,
                self.capacity as int,
                old(sub).cursor as int,
            ),
            old(sub).cursor <= final(sub).cursor <= self.log@.len(),
            self.log@.len() - old(sub).cursor > self.capacity ==> r == PollOutcome::Lagged(
                (self.log@.len() - old(sub).cursor - self.capacity) as usize,
            ),
            self.log@.len() - old(sub).cursor <= self.capacity && old(sub).cursor == self.log@.len()
                ==> r == PollOutcome::Empty,
            self.log@.len() - old(sub).cursor <= self.capacity && old(sub).cursor < self.log@.len()
                ==> (r matches PollOutcome::Message(m) && m@ == self.texts()[old(sub).cursor as int]),
            final(sub).valid_for(*self),
    {
        let len = self.log.len();
        if len - sub.cursor > self.capacity {
            let skipped = len - sub.cursor - self.capacity;
            sub.cursor = len - self.capacity;
            PollOutcome::Lagged(skipped)
        } else if sub.cursor == len {
            PollOutcome::Empty
        } else {
            let m = self.log[sub.cursor].clone();
            sub.cursor = sub.cursor + 1;
            PollOutcome::Message(m)
        }
    }
}

/// Where a subscriber's cursor stands after one poll of a log of length
/// `len` with window `cap`.
pub open spec fn spec_next_cursor(len: int, cap: int, c: int) -> int {
    if len - c > cap {
        len - cap
    } else if c == len {
        c
    } else {
        c + 1
    }
}

/// The messages a subscriber with cursor `c` is handed over `steps`
/// successive polls of an unchanging log: a lagging poll hands nothing but
/// moves the cursor to the oldest retained message, and every other poll
/// hands the next message, if any.
pub open spec fn spec_delivered(log: Seq<Seq<char>>, cap: int, c: int, steps: nat) -> Seq<Seq<char>>
    decreases steps,
{
    if steps == 0 {
        Seq::<Seq<char>>::empty()
    } else {
        let len = log.len() as int;
        if len - c > cap {
            spec_delivered(log, cap, len - cap, (steps - 1) as nat)
        } else if c == len {
            spec_delivered(log, cap, c, (steps - 1) as nat)
        } else {
            seq![log[c]] + spec_delivered(log, cap, c + 1, (steps - 1) as nat)
        }
    }
}

/// A subscriber within the window receives exactly the log's messages from
/// its cursor on, in publish order: nothing from before the cursor (for a
/// fresh subscription, nothing from before it subscribed), nothing skipped,
/// nothing twice.  With enough polls it receives everything published.
pub proof fn lemma_subscriber_stream(log: Seq<Seq<char>>, cap: int, c: int, steps: nat)
    requires
        0 <= c <= log.len(),
        cap >= 1,
        log.len() - c <= cap,
    ensures
        spec_delivered(log, cap, c, steps) == log.subrange(
            c,
            c + min(steps as int, log.len() - c),
        ),
    decreases steps,
{
    if steps == 0 {
        assert(spec_delivered(log, cap, c, steps) =~= log.subrange(c, c));
    } else if c == log.len() {
        lemma_subscriber_stream(log, cap, c, (steps - 1) as nat);
        assert(spec_delivered(log, cap, c, steps) =~= log.subrange(
            c,
            c + min(steps as int, log.len() - c),
        ));
    } else {
        lemma_subscriber_stream(log, cap, c + 1, (steps - 1) as nat);
        assert(spec_delivered(log, cap, c, steps) =~= log.subrange(
            c,
            c + min(steps as int, log.len() - c),
        ));
    }
}

/// A subscriber that joins when `history` is already published — its cursor
/// then standing at `history.len()`, as `subscribe` ensures — receives, as
/// `later` messages are published behind its subscription, exactly those
/// `later` messages in publish order: every subsequent change and none of
/// the earlier ones.
pub proof fn lemma_late_subscriber(
    history: Seq<Seq<char>>,
    later: Seq<Seq<char>>,
    cap: int,
    steps: nat,
)
    requires
        cap >= 1,
        later.len() <= cap,
    ensures
        spec_delivered(history + later, cap, history.len() as int, steps) == later.take(
            min(steps as int, later.len() as int),
        ),
{
    let log = history + later;
    let c = history.len() as int;
    lemma_subscriber_stream(log, cap, c, steps);
    assert(log.subrange(c, c + min(steps as int, later.len() as int)) =~= later.take(
        min(steps as int, later.len() as int),
    ));
}

/// A subscriber that fell behind the window is not cut off: its first poll
/// only reports the lag, and from then on it receives exactly the retained
/// tail of the log — the most recent `cap` messages — in publish order.
pub proof fn lemma_lagged_subscriber_recovers(log: Seq<Seq<char>>, cap: int, c: int, steps: nat)
    requires
        0 <= c <= log.len(),
        cap >= 1,
        log.len() - c > cap,
        steps >= 1,
    ensures
        spec_delivered(log, cap, c, steps) == log.subrange(
            log.len() - cap,
            log.len() - cap + min(steps - 1, cap),
        ),
{
    let len = log.len() as int;
    lemma_subscriber_stream(log, cap, len - cap, (steps - 1) as nat);
}

} // verus!
