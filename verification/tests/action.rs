use any_dns::action::{answer, relay, Action};
use any_dns::endpoint::Endpoint;
use any_dns::pending_queries::PendingQuery;

fn client() -> Endpoint {
    Endpoint::v4(10, 1, 2, 3, 51000)
}

fn entry(query: Vec<u8>, received_at: u64) -> PendingQuery {
    PendingQuery { from: client(), query, received_at, icann_id: 0x0102 }
}

#[test]
fn answer_gets_the_identifier_of_the_query() {
    match answer(vec![0xff, 0xee, 1, 2, 3], &vec![0xab, 0xcd, 9], client()) {
        Action::Answer { datagram, to } => {
            assert_eq!(datagram, vec![0xab, 0xcd, 1, 2, 3]);
            assert_eq!(to, client());
        }
        other => panic!("expected an answer, got {:?}", other),
    }
}

#[test]
fn answer_with_the_right_identifier_is_sent_as_it_is() {
    match answer(vec![0xab, 0xcd, 1], &vec![0xab, 0xcd], client()) {
        Action::Answer { datagram, .. } => assert_eq!(datagram, vec![0xab, 0xcd, 1]),
        other => panic!("expected an answer, got {:?}", other),
    }
}

#[test]
fn answer_needs_room_for_an_identifier_on_both_sides() {
    assert!(matches!(answer(vec![1], &vec![0xab, 0xcd], client()), Action::Malformed));
    assert!(matches!(answer(vec![], &vec![0xab, 0xcd], client()), Action::Malformed));
    assert!(matches!(answer(vec![1, 2, 3], &vec![0xab], client()), Action::Malformed));
    assert!(matches!(answer(vec![1, 2, 3], &vec![], client()), Action::Malformed));
}

#[test]
fn relay_restores_the_identifier_of_the_pending_query() {
    let reply = vec![0x01, 0x02, 7, 8, 9];
    match relay(reply, Some(entry(vec![0x12, 0x34, 0, 0], 1_000)), 1_250) {
        Action::Relay { datagram, to, waited_ms } => {
            assert_eq!(datagram, vec![0x12, 0x34, 7, 8, 9]);
            assert_eq!(to, client());
            assert_eq!(waited_ms, 250);
        }
        other => panic!("expected a relay, got {:?}", other),
    }
}

#[test]
fn relay_without_an_entry_sends_nothing() {
    assert!(matches!(relay(vec![0x01, 0x02, 7], None, 5), Action::Orphan));
}

#[test]
fn relay_without_an_identifier_to_restore_sends_nothing() {
    assert!(matches!(relay(vec![0x01, 0x02, 7], Some(entry(vec![0x12], 0)), 5), Action::Orphan));
    assert!(matches!(relay(vec![0x01], Some(entry(vec![0x12, 0x34], 0)), 5), Action::Orphan));
}

#[test]
fn waited_time_never_underflows() {
    match relay(vec![1, 2], Some(entry(vec![3, 4], u64::MAX)), 0) {
        Action::Relay { waited_ms, .. } => assert_eq!(waited_ms, 0),
        other => panic!("expected a relay, got {:?}", other),
    }
    match relay(vec![1, 2], Some(entry(vec![3, 4], 0)), u64::MAX) {
        Action::Relay { waited_ms, .. } => assert_eq!(waited_ms, u64::MAX),
        other => panic!("expected a relay, got {:?}", other),
    }
}
