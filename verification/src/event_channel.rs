//! Delivery contract of the event channel.
//!
//! Events reach the application through an unbounded queue with many
//! producers (one per listener or in-flight connection) and a single
//! consumer. Each occurrence is delivered exactly once, in queue order;
//! per-producer emission order is preserved, while events of different
//! producers may interleave arbitrarily. There is no back-pressure: a
//! stalled consumer means unbounded growth, a tradeoff the caller
//! manages by draining promptly.

use vstd::prelude::*;

use crate::event::Event;

verus! {

/// The events of one producer within a pending sequence, in order.
pub open spec fn produced_by<UID>(q: Seq<(u64, Event<UID>)>, producer: u64) -> Seq<Event<UID>>
    decreases q.len(),
{
    if q.len() == 0 {
        Seq::empty()
    } else if q.first().0 == producer {
        seq![q.first().1] + produced_by(q.skip(1), producer)
    } else {
        produced_by(q.skip(1), producer)
    }
}

/// The unbounded multiple-producer/single-consumer event queue, viewed
/// as the pending sequence of (producer, event) pairs in delivery
/// order.
pub struct EventChannel<UID> {
    items: Vec<(u64, Event<UID>)>,
}

impl<UID> View for EventChannel<UID> {
    type V = Seq<(u64, Event<UID>)>;

    closed spec fn view(&self) -> Seq<(u64, Event<UID>)> {
        self.items@
    }
}

impl<UID> EventChannel<UID> {
    /// An empty channel.
    pub fn new() -> (r: Self)
        ensures
            r@ == Seq::<(u64, Event<UID>)>::empty(),
    {
        EventChannel { items: Vec::new() }
    }

    /// How many events are pending.
    pub fn len(&self) -> (n: usize)
        ensures
            n == self@.len(),
    {
        self.items.len()
    }

    /// A producer emits one event: it is appended behind everything
    /// already pending, so emission order within one producer is the
    /// queue order. The queue is unbounded — emitting never fails and
    /// never blocks.
    pub fn send(&mut self, producer: u64, event: Event<UID>)
        ensures
            final(self)@ == old(self)@.push((producer, event)),
    {
        self.items.push((producer, event));
    }

    /// The consumer takes the oldest pending event, or `None` when
    /// nothing is pending. Each event is delivered exactly once:
    /// delivery removes it.
    pub fn recv(&mut self) -> (r: Option<Event<UID>>)
        ensures
            old(self)@.len() == 0 ==> r is None && final(self)@ == old(self)@,
            old(self)@.len() > 0 ==> r == Some(old(self)@.first().1) && final(self)@ == old(
                self,
            )@.skip(1),
    {
        if self.items.len() == 0 {
            None
        } else {
            let (_, event) = self.items.remove(0);
            proof {
                assert(old(self)@.remove(0) =~= old(self)@.skip(1));
            }
            Some(event)
        }
    }
}

/// Law: one producer's emission order is preserved. Emitting an event
/// appends it to that producer's pending subsequence and leaves every
/// other producer's subsequence untouched; since the consumer takes
/// events in queue order, the relative order it observes for a single
/// producer is exactly that producer's emission order. No order across
/// different producers is promised.
pub proof fn lemma_send_preserves_producer_order<UID>(
    q: Seq<(u64, Event<UID>)>,
    producer: u64,
    event: Event<UID>,
)
    ensures
        produced_by(q.push((producer, event)), producer) == produced_by(q, producer).push(event),
        forall|other: u64| other != producer ==> produced_by(q.push((producer, event)), other)
            == produced_by(q, other),
    decreases q.len(),
{
    let q2 = q.push((producer, event));
    if q.len() == 0 {
        assert(q2.skip(1) =~= Seq::<(u64, Event<UID>)>::empty());
        assert(q2.first() == (producer, event));
        assert(produced_by(q2, producer) == seq![event] + produced_by(q2.skip(1), producer));
        assert(seq![event] + Seq::<Event<UID>>::empty() =~= Seq::<Event<UID>>::empty().push(
            event,
        ));
        assert forall|other: u64| other != producer implies produced_by(q2, other) == produced_by(
            q,
            other,
        ) by {
            assert(produced_by(q2, other) == produced_by(q2.skip(1), other));
        }
    } else {
        lemma_send_preserves_producer_order(q.skip(1), producer, event);
        assert(q2.skip(1) =~= q.skip(1).push((producer, event)));
        assert(q2.first() == q.first());
        assert(produced_by(q2.skip(1), producer) == produced_by(q.skip(1), producer).push(event));
        if q.first().0 == producer {
            assert(produced_by(q2, producer) == seq![q.first().1] + produced_by(
                q2.skip(1),
                producer,
            ));
            assert(produced_by(q, producer) == seq![q.first().1] + produced_by(
                q.skip(1),
                producer,
            ));
            assert(seq![q.first().1] + produced_by(q.skip(1), producer).push(event) =~= (
            seq![q.first().1] + produced_by(q.skip(1), producer)).push(event));
        } else {
            assert(produced_by(q2, producer) == produced_by(q2.skip(1), producer));
            assert(produced_by(q, producer) == produced_by(q.skip(1), producer));
        }
        assert forall|other: u64| other != producer implies produced_by(q2, other) == produced_by(
            q,
            other,
        ) by {
            assert(produced_by(q2.skip(1), other) == produced_by(q.skip(1), other));
            if q.first().0 == other {
                assert(produced_by(q2, other) == seq![q.first().1] + produced_by(
                    q2.skip(1),
                    other,
                ));
                assert(produced_by(q, other) == seq![q.first().1] + produced_by(q.skip(1), other));
            } else {
                assert(produced_by(q2, other) == produced_by(q2.skip(1), other));
                assert(produced_by(q, other) == produced_by(q.skip(1), other));
            }
        }
    }
}

} // verus!
