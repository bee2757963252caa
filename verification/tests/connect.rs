use crust::ConnectRace;
use crust::Event;

fn count_terminal(events: &[Option<Event<u64>>]) -> (usize, usize) {
    let mut successes: usize = 0;
    let mut failures: usize = 0;
    for ev in events {
        match ev {
            Some(Event::ConnectSuccess(_)) => successes += 1,
            Some(Event::ConnectFailure(_)) => failures += 1,
            _ => {}
        }
    }
    (successes, failures)
}

#[test]
fn one_reachable_direct_address_yields_exactly_one_connect_success() {
    let uid: u64 = 42;
    let (mut race, ev0) = ConnectRace::new(uid, 1, false, false);
    assert!(ev0.is_none());

    let ev1 = race.attempt_resolved(true);

    assert!(matches!(ev1, Some(Event::ConnectSuccess(u)) if u == uid));
    let (successes, failures) = count_terminal(&[ev0, ev1]);
    assert_eq!(successes, 1);
    assert_eq!(failures, 0);
}

#[test]
fn all_direct_addresses_unreachable_yields_exactly_one_connect_failure() {
    let uid: u64 = 43;
    let (mut race, ev0) = ConnectRace::new(uid, 2, false, false);
    assert!(ev0.is_none());

    let ev1 = race.attempt_resolved(false);
    assert!(ev1.is_none());
    let ev2 = race.attempt_resolved(false);

    assert!(matches!(ev2, Some(Event::ConnectFailure(u)) if u == uid));
    let (successes, failures) = count_terminal(&[ev0, ev1, ev2]);
    assert_eq!(successes, 0);
    assert_eq!(failures, 1);
}

#[test]
fn rendezvous_is_only_eligible_when_both_sides_carry_info() {
    let uid: u64 = 44;

    // Both sides carry rendezvous info: one rendezvous attempt races.
    let (mut race, ev0) = ConnectRace::new(uid, 0, true, true);
    assert!(ev0.is_none());
    let ev1 = race.attempt_resolved(true);
    assert!(matches!(ev1, Some(Event::ConnectSuccess(u)) if u == uid));

    // Only our side carries it: nothing to attempt, the negotiation
    // fails as a whole at once.
    let (race2, ev2) = ConnectRace::new(uid, 0, true, false);
    assert!(race2.done);
    assert!(matches!(ev2, Some(Event::ConnectFailure(u)) if u == uid));
}

#[test]
fn winner_cancels_remaining_attempts_without_further_events() {
    let uid: u64 = 45;
    let (mut race, _) = ConnectRace::new(uid, 3, true, true);

    let ev1 = race.attempt_resolved(false);
    assert!(ev1.is_none());
    let ev2 = race.attempt_resolved(true);
    assert!(matches!(ev2, Some(Event::ConnectSuccess(u)) if u == uid));

    // The race is decided; the losing attempts count as cancelled.
    assert!(race.done);
    assert_eq!(race.pending, 0);
}

#[test]
fn oversized_outgoing_message_yields_exactly_one_prohibitive_event() {
    let uid: u64 = 46;
    let msg = vec![8u8; 100];

    let r = crust::event::check_outgoing_msg(uid, msg.clone(), 64);

    match r {
        Err(Event::WriteMsgSizeProhibitive(u, m)) => {
            assert_eq!(u, uid);
            assert_eq!(m, msg);
        }
        _ => panic!("an oversized message must be dropped with its event"),
    }
}

#[test]
fn message_within_the_limit_passes_through_unchanged() {
    let uid: u64 = 47;
    let msg = vec![1u8, 2, 3];

    let r = crust::event::check_outgoing_msg(uid, msg.clone(), 3);

    match r {
        Ok(m) => assert_eq!(m, msg),
        Err(_) => panic!("a message within the limit must be sent"),
    }
}
