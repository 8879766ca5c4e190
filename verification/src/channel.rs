//! Single-writer, multi-reader "latest value" channel: a versioned last-value
//! cell. A publish replaces the current chunk and marks it unseen for every
//! subscriber; a subscriber that polls sees the most recent value exactly
//! once. Slow subscribers skip intermediate values — recency over
//! completeness, by design.
//!
//! The channel's view is the history of published payloads, the initial
//! empty chunk included; a subscriber's view is how much of that history it
//! has accounted for.

use vstd::prelude::*;

use crate::chunk::Chunk;

verus! {

/// What `wait_for_change` reports: a value published since the subscriber
/// last looked, the publisher side permanently closed, or nothing yet (the
/// real task would stay suspended).
#[derive(Clone, Copy, PartialEq, Eq, Structural, Debug)]
pub enum WaitOutcome {
    Changed,
    Closed,
    Pending,
}

/// One observer of the channel. Fresh subscribers start from "nothing seen
/// yet", so their first wait immediately reports the value already in the
/// slot.
#[derive(Clone, Copy, PartialEq, Eq, Structural, Debug)]
pub struct Subscriber {
    seen: u64,
}

impl View for Subscriber {
    type V = nat;

    /// How many history entries this subscriber has accounted for.
    closed spec fn view(&self) -> nat {
        self.seen as nat
    }
}

/// What a poll against history `hist` observes when `seen` entries are
/// already accounted for: the latest value if anything new was published,
/// nothing otherwise. Intermediate values are never observed.
pub open spec fn poll_observation(hist: Seq<Seq<u8>>, seen: nat) -> Option<Seq<u8>> {
    if seen < hist.len() {
        Some(hist.last())
    } else {
        None
    }
}

/// The subscriber's accounting after that poll: caught up with the whole
/// history if it observed something, unchanged otherwise.
pub open spec fn poll_seen_after(hist: Seq<Seq<u8>>, seen: nat) -> nat {
    if seen < hist.len() {
        hist.len()
    } else {
        seen
    }
}

/// The last-value cell. `current` is the slot every subscriber reads;
/// `published` counts the values that have occupied it, the initial empty
/// chunk included.
pub struct Channel {
    current: Chunk,
    published: u64,
    closed: bool,
    history: Ghost<Seq<Seq<u8>>>,
}

impl View for Channel {
    type V = Seq<Seq<u8>>;

    /// The payloads that have occupied the slot, in publish order.
    closed spec fn view(&self) -> Seq<Seq<u8>> {
        self.history@
    }
}

impl Channel {
    /// The version count matches the history, at least the initial value is
    /// there, and the slot holds the latest payload.
    pub closed spec fn wf(&self) -> bool {
        &&& self.current.wf()
        &&& self.published == self.history@.len()
        &&& self.history@.len() >= 1
        &&& self.current@ == self.history@.last()
    }

    /// Whether the publisher side has been permanently closed.
    pub closed spec fn is_closed(&self) -> bool {
        self.closed
    }

    /// A fresh channel, holding the empty chunk as its initial value.
    pub fn new() -> (r: Channel)
        ensures
            r.wf(),
            !r.is_closed(),
            r@.len() == 1,
            r@[0] == Seq::<u8>::empty(),
    {
        let c = Chunk::default();
        let ghost hist: Seq<Seq<u8>> = seq![c@];
        Channel { current: c, published: 1, closed: false, history: Ghost(hist) }
    }

    /// Replace the current value and mark it unseen for every subscriber.
    /// Never blocks and never fails for the publisher: absence of
    /// subscribers is not an error.
    pub fn publish(&mut self, c: Chunk)
        requires
            old(self).wf(),
            c.wf(),
            old(self)@.len() < u64::MAX,
        ensures
            final(self).wf(),
            final(self)@ == old(self)@.push(c@),
            final(self).is_closed() == old(self).is_closed(),
    {
        proof {
            self.history@ = self.history@.push(c@);
        }
        self.current = c;
        self.published = self.published + 1;
    }

    /// A new observer that has seen nothing yet: its first wait reports the
    /// value already in the slot.
    pub fn subscribe(&self) -> (s: Subscriber)
        ensures
            s@ == 0,
    {
        Subscriber { seen: 0 }
    }

    /// Has a new value been published since this subscriber last observed
    /// one? Reports `Changed` (and accounts the whole history as seen),
    /// `Closed` when nothing is new and the publisher is gone, or `Pending`
    /// when the caller would stay suspended.
    pub fn wait_for_change(&self, sub: &mut Subscriber) -> (r: WaitOutcome)
        requires
            self.wf(),
        ensures
            final(sub)@ == poll_seen_after(self@, old(sub)@),
            r is Changed <==> poll_observation(self@, old(sub)@) is Some,
            r is Closed <==> (poll_observation(self@, old(sub)@) is None && self.is_closed()),
            r is Pending <==> (poll_observation(self@, old(sub)@) is None && !self.is_closed()),
    {
        if sub.seen < self.published {
            sub.seen = self.published;
            WaitOutcome::Changed
        } else if self.closed {
            WaitOutcome::Closed
        } else {
            WaitOutcome::Pending
        }
    }

    /// A copy of the current value's payload, released immediately: a
    /// publish and a concurrent read are mutually atomic, so no reader ever
    /// observes a torn mixture of two chunks.
    pub fn get_data_copy(&self) -> (r: Vec<u8>)
        requires
            self.wf(),
        ensures
            r@ == self@.last(),
    {
        self.current.payload()
    }

    /// Drop the publisher side: every subscriber that catches up is told
    /// `Closed` from then on.
    pub fn close(&mut self)
        requires
            old(self).wf(),
        ensures
            final(self).wf(),
            final(self)@ == old(self)@,
            final(self).is_closed(),
    {
        self.closed = true;
    }
}

/// The history after publishing each payload of `ps` in order onto `hist`.
pub open spec fn publish_all(hist: Seq<Seq<u8>>, ps: Seq<Seq<u8>>) -> Seq<Seq<u8>>
    decreases ps.len(),
{
    if ps.len() == 0 {
        hist
    } else {
        publish_all(hist.push(ps[0]), ps.drop_first())
    }
}

/// What a single subscriber observes when it polls once after every one of
/// the publishes `ps`, starting from history `hist` with `seen` entries
/// accounted for.
pub open spec fn attentive_observations(hist: Seq<Seq<u8>>, seen: nat, ps: Seq<Seq<u8>>) -> Seq<
    Seq<u8>,
>
    decreases ps.len(),
{
    if ps.len() == 0 {
        Seq::empty()
    } else {
        let hist2 = hist.push(ps[0]);
        let rest = attentive_observations(hist2, poll_seen_after(hist2, seen), ps.drop_first());
        match poll_observation(hist2, seen) {
            Some(v) => seq![v] + rest,
            None => rest,
        }
    }
}

/// Law: a subscriber that polls after every publish observes exactly the
/// published sequence, in order, with no duplicates — whatever history and
/// accounting it starts from, as long as the accounting is consistent.
pub proof fn lemma_attentive_subscriber_sees_all(hist: Seq<Seq<u8>>, seen: nat, ps: Seq<Seq<u8>>)
    requires
        seen <= hist.len(),
    ensures
        attentive_observations(hist, seen, ps) == ps,
    decreases ps.len(),
{
    if ps.len() > 0 {
        let hist2 = hist.push(ps[0]);
        lemma_attentive_subscriber_sees_all(hist2, poll_seen_after(hist2, seen), ps.drop_first());
        assert(attentive_observations(hist, seen, ps) =~= ps);
    } else {
        assert(attentive_observations(hist, seen, ps) =~= ps);
    }
}

/// Publishing a batch appends it to the history.
pub proof fn lemma_publish_all_appends(hist: Seq<Seq<u8>>, ps: Seq<Seq<u8>>)
    ensures
        publish_all(hist, ps) == hist + ps,
    decreases ps.len(),
{
    if ps.len() == 0 {
        assert(publish_all(hist, ps) =~= hist + ps);
    } else {
        lemma_publish_all_appends(hist.push(ps[0]), ps.drop_first());
        assert(hist.push(ps[0]) + ps.drop_first() =~= hist + ps);
    }
}

/// Law (lost update): a subscriber that misses any number of publishes while
/// not polling observes exactly the most recent of them on its next poll —
/// never a stale one — and is then fully caught up.
pub proof fn lemma_missed_publishes_latest_wins(hist: Seq<Seq<u8>>, seen: nat, ps: Seq<Seq<u8>>)
    requires
        seen <= hist.len(),
        ps.len() > 0,
    ensures
        poll_observation(publish_all(hist, ps), seen) == Some(ps.last()),
        poll_seen_after(publish_all(hist, ps), seen) == publish_all(hist, ps).len(),
{
    lemma_publish_all_appends(hist, ps);
    assert((hist + ps).last() == ps.last());
}

} // verus!
