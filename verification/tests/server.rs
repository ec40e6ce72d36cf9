use line_echo::connection::{ConnectionState, ReadOutcome};
use line_echo::server::{
    interest_for, plan_for, EventSet, Interest, IoStep, ReadResult, Server, SERVER_TOKEN,
};

#[test]
fn issued_tokens_are_distinct_and_not_reserved() {
    let mut s = Server::new();
    let mut tokens = Vec::new();
    for _ in 0..5 {
        tokens.push(s.accept_client());
    }
    assert_eq!(tokens, vec![2, 3, 4, 5, 6]);
    for i in 0..tokens.len() {
        assert_ne!(tokens[i], SERVER_TOKEN);
        for j in 0..tokens.len() {
            if i != j {
                assert_ne!(tokens[i], tokens[j]);
            }
        }
    }
}

#[test]
fn interleaved_clients_stay_isolated() {
    let mut s = Server::new();
    let a = s.accept_client();
    let b = s.accept_client();
    assert!(matches!(
        s.handle_client_read(a, ReadOutcome::Data(b"left ".to_vec())),
        ReadResult::Rearm(Interest::Readable)
    ));
    assert!(matches!(
        s.handle_client_read(b, ReadOutcome::Data(b"right ".to_vec())),
        ReadResult::Rearm(Interest::Readable)
    ));
    assert!(matches!(
        s.handle_client_read(a, ReadOutcome::Data(b"line\n".to_vec())),
        ReadResult::Rearm(Interest::Writable)
    ));
    assert!(matches!(
        s.handle_client_read(b, ReadOutcome::Data(b"line\n".to_vec())),
        ReadResult::Rearm(Interest::Writable)
    ));
    assert_eq!(s.handle_client_write(a), b"left line\n".to_vec());
    assert_eq!(s.handle_client_write(b), b"right line\n".to_vec());
}

#[test]
fn disconnect_removes_exactly_one_entry() {
    let mut s = Server::new();
    let a = s.accept_client();
    let b = s.accept_client();
    assert!(s.remove_client(a));
    assert!(!s.contains_client(a));
    assert!(s.contains_client(b));
    // A second hangup for the same token finds nothing to remove.
    assert!(!s.remove_client(a));
}

#[test]
fn invalid_utf8_drops_only_the_offender() {
    let mut s = Server::new();
    let a = s.accept_client();
    let b = s.accept_client();
    assert!(matches!(
        s.handle_client_read(b, ReadOutcome::Data(b"keep".to_vec())),
        ReadResult::Rearm(Interest::Readable)
    ));
    assert!(matches!(
        s.handle_client_read(a, ReadOutcome::Data(vec![0x80, 0x80])),
        ReadResult::Rejected
    ));
    assert!(!s.contains_client(a));
    assert_eq!(s.client_state(b), Some(ConnectionState::WaitingForLine));
    assert!(matches!(
        s.handle_client_read(b, ReadOutcome::Data(b"\n".to_vec())),
        ReadResult::Rearm(Interest::Writable)
    ));
    assert_eq!(s.handle_client_write(b), b"keep\n".to_vec());
}

#[test]
fn failed_and_empty_reads_leave_client_waiting() {
    let mut s = Server::new();
    let a = s.accept_client();
    assert!(matches!(
        s.handle_client_read(a, ReadOutcome::Failed),
        ReadResult::Rearm(Interest::Readable)
    ));
    assert!(matches!(
        s.handle_client_read(a, ReadOutcome::NothingYet),
        ReadResult::Rearm(Interest::Readable)
    ));
    assert_eq!(s.client_state(a), Some(ConnectionState::WaitingForLine));
}

#[test]
fn plan_listener_readable_accepts() {
    let p = plan_for(
        SERVER_TOKEN,
        EventSet { readable: true, writable: false, hup: false },
    );
    assert_eq!(p.step, IoStep::AcceptNew);
    assert!(!p.drop_after);
}

#[test]
fn plan_client_events_reach_the_handler() {
    let p = plan_for(7, EventSet { readable: true, writable: false, hup: false });
    assert_eq!(p.step, IoStep::HandleClient);
    assert!(!p.drop_after);
    let p = plan_for(7, EventSet { readable: false, writable: true, hup: false });
    assert_eq!(p.step, IoStep::HandleClient);
}

#[test]
fn plan_hangup_drops_clients_but_never_the_listener() {
    let p = plan_for(7, EventSet { readable: false, writable: false, hup: true });
    assert_eq!(p.step, IoStep::Skip);
    assert!(p.drop_after);
    // Both halves of the same notification apply independently.
    let p = plan_for(7, EventSet { readable: true, writable: false, hup: true });
    assert_eq!(p.step, IoStep::HandleClient);
    assert!(p.drop_after);
    let p = plan_for(
        SERVER_TOKEN,
        EventSet { readable: false, writable: false, hup: true },
    );
    assert!(!p.drop_after);
}

#[test]
fn rearm_interest_follows_state() {
    assert_eq!(interest_for(ConnectionState::WaitingForLine), Interest::Readable);
    assert_eq!(interest_for(ConnectionState::ReadyToSend), Interest::Writable);
}

#[test]
fn client_state_reports_missing_tokens() {
    let mut s = Server::new();
    assert_eq!(s.client_state(42), None);
    let a = s.accept_client();
    assert_eq!(s.client_state(a), Some(ConnectionState::WaitingForLine));
    s.handle_client_read(a, ReadOutcome::Data(b"x\n".to_vec()));
    assert_eq!(s.client_state(a), Some(ConnectionState::ReadyToSend));
}
