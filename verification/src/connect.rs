//! Resolution of the connection race.
//!
//! Given a local private descriptor and a received public descriptor,
//! the connecting side races direct dial attempts against a rendezvous
//! attempt. The dialing itself is the transport layer's business; this
//! module is the decision core the caller drives: it counts the
//! attempts in flight, declares the first established stream the
//! winner, and declares exhaustion once every attempt has failed.
//! Exactly one terminal event is produced per negotiation — either
//! [`Event::ConnectSuccess`] or [`Event::ConnectFailure`], never both.

use vstd::prelude::*;

use crate::event::Event;

verus! {

/// How many attempts a race starts with: one per direct address, plus
/// one rendezvous attempt when — and only when — both sides provided
/// rendezvous information.
pub open spec fn total_attempts(
    n_direct: usize,
    our_rendezvous: bool,
    their_rendezvous: bool,
) -> int {
    n_direct + if our_rendezvous && their_rendezvous {
        1int
    } else {
        0int
    }
}

/// One connection negotiation: the attempts still in flight and whether
/// a terminal event has already been produced.
///
/// The caller reports each attempt's outcome through
/// [`ConnectRace::attempt_resolved`]; once the race is `done`, every
/// losing attempt is to be cancelled and no further outcome may be
/// reported — cancelled paths emit no event.
pub struct ConnectRace<UID> {
    /// The peer this negotiation is with.
    pub uid: UID,
    /// Attempts (direct dials and, when eligible, the rendezvous
    /// attempt) that have not resolved yet.
    pub pending: usize,
    /// Whether the terminal event for this negotiation was produced.
    pub done: bool,
    /// Whether the negotiation ended with an established stream; only
    /// meaningful once `done`.
    pub succeeded: bool,
}

impl<UID: Copy> ConnectRace<UID> {
    /// Starts a race over `n_direct` direct addresses, with the
    /// rendezvous strategy eligible only if both sides carry rendezvous
    /// information. A race with nothing to attempt fails as a whole at
    /// once: the terminal [`Event::ConnectFailure`] is produced here.
    pub fn new(
        uid: UID,
        n_direct: usize,
        our_rendezvous: bool,
        their_rendezvous: bool,
    ) -> (r: (Self, Option<Event<UID>>))
        requires
            n_direct < usize::MAX,
        ensures
            r.0.uid == uid,
            !r.0.succeeded,
            total_attempts(n_direct, our_rendezvous, their_rendezvous) == 0 ==> r.0.done
                && r.0.pending == 0
                && r.1 == Some(Event::<UID>::ConnectFailure(uid)),
            total_attempts(n_direct, our_rendezvous, their_rendezvous) > 0 ==> !r.0.done
                && r.0.pending == total_attempts(n_direct, our_rendezvous, their_rendezvous)
                && r.1 is None,
    {
        let pending = if our_rendezvous && their_rendezvous {
            n_direct + 1
        } else {
            n_direct
        };
        if pending == 0 {
            let race = ConnectRace { uid, pending: 0, done: true, succeeded: false };
            (race, Some(Event::ConnectFailure(uid)))
        } else {
            let race = ConnectRace { uid, pending, done: false, succeeded: false };
            (race, None)
        }
    }

    /// Reports that one in-flight attempt resolved: `succeeded` says
    /// whether it produced an established stream.
    ///
    /// The first success wins the whole race: the terminal
    /// [`Event::ConnectSuccess`] is produced, every other attempt is
    /// counted as cancelled and may no longer report. A failure removes
    /// the attempt; when it was the last one, the negotiation is
    /// exhausted and the terminal [`Event::ConnectFailure`] is produced.
    /// No partial success is ever reported, and at most one event comes
    /// out of each call.
    pub fn attempt_resolved(&mut self, succeeded: bool) -> (ev: Option<Event<UID>>)
        requires
            !old(self).done,
            old(self).pending > 0,
        ensures
            final(self).uid == old(self).uid,
            succeeded ==> final(self).done
                && final(self).succeeded
                && final(self).pending == 0
                && ev == Some(Event::<UID>::ConnectSuccess(old(self).uid)),
            !succeeded && old(self).pending == 1 ==> final(self).done
                && !final(self).succeeded
                && final(self).pending == 0
                && ev == Some(Event::<UID>::ConnectFailure(old(self).uid)),
            !succeeded && old(self).pending > 1 ==> !final(self).done
                && !final(self).succeeded
                && final(self).pending == old(self).pending - 1
                && ev is None,
    {
        if succeeded {
            self.pending = 0;
            self.done = true;
            self.succeeded = true;
            Some(Event::ConnectSuccess(self.uid))
        } else {
            self.succeeded = false;
            self.pending = self.pending - 1;
            if self.pending == 0 {
                self.done = true;
                Some(Event::ConnectFailure(self.uid))
            } else {
                None
            }
        }
    }
}

} // verus!
