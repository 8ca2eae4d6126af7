use keyboard_cat::error::SessionError;
use keyboard_cat::session::{
    control_result, teardown_result, Advance, Session, SessionState, Teardown,
};
use keyboard_cat::track::TrackInfo;

fn joined(channel: u64) -> Session {
    Session::create(channel, Ok(())).expect("the join succeeded")
}

fn track(source: &str, requester: u64) -> TrackInfo {
    TrackInfo::new(source.to_string(), requester)
}

#[test]
fn create_gives_an_idle_session_with_an_empty_queue() {
    let session = joined(42);
    assert_eq!(session.channel(), 42);
    assert_eq!(session.state(), SessionState::Idle);
    assert_eq!(session.queue_len(), 0);
    assert!(session.now_playing().is_none());
    assert!(session.queued(0).is_none());
}

#[test]
fn create_reports_a_failed_join() {
    let made = Session::create(42, Err("no route".to_string()));
    assert_eq!(made.err(), Some(SessionError::CallJoinError("no route".to_string())));
}

#[test]
fn track_info_keeps_its_parts() {
    let t = track("https://example.org/a", 7);
    assert_eq!(t.source(), "https://example.org/a");
    assert_eq!(t.requester(), 7);
    assert_eq!(t.clone(), t);
}

#[test]
fn append_queues_at_the_back_and_starts_nothing() {
    let mut session = joined(1);
    assert!(session.append("a".to_string(), 10));
    assert!(session.append("b".to_string(), 11));
    assert_eq!(session.state(), SessionState::Idle);
    assert!(session.now_playing().is_none());
    assert_eq!(session.queue_len(), 2);
    assert_eq!(session.queued(0), Some(&track("a", 10)));
    assert_eq!(session.queued(1), Some(&track("b", 11)));
    assert_eq!(session.queued(2), None);
}

#[test]
fn fifo_order() {
    let mut session = joined(1);
    session.append("T1".to_string(), 1);
    session.append("T2".to_string(), 2);
    session.append("T3".to_string(), 3);
    let first = session.advance();
    let second = session.advance();
    let third = session.advance();
    assert_eq!(first.started, Some(track("T1", 1)));
    assert_eq!(second.started, Some(track("T2", 2)));
    assert_eq!(third.started, Some(track("T3", 3)));
    assert_eq!(session.queue_len(), 0);
}

#[test]
fn fifo_order_holds_when_appends_and_advances_alternate() {
    let mut session = joined(1);
    session.append("a".to_string(), 1);
    session.append("b".to_string(), 1);
    assert_eq!(session.advance().started, Some(track("a", 1)));
    session.append("c".to_string(), 2);
    assert_eq!(session.advance().started, Some(track("b", 1)));
    assert_eq!(session.advance().started, Some(track("c", 2)));
    assert_eq!(session.advance().started, None);
}

#[test]
fn skip_supersedes() {
    let mut session = joined(1);
    session.append("a".to_string(), 1);
    session.append("b".to_string(), 2);
    let first = session.advance();
    assert_eq!(first, Advance { halted: None, started: Some(track("a", 1)) });
    assert_eq!(session.state(), SessionState::Playing);
    assert_eq!(session.now_playing(), Some(&track("a", 1)));
    let second = session.advance();
    assert_eq!(second, Advance { halted: Some(track("a", 1)), started: Some(track("b", 2)) });
    assert_eq!(session.now_playing(), Some(&track("b", 2)));
    assert_eq!(session.state(), SessionState::Playing);
}

#[test]
fn empty_queue_advance() {
    let mut session = joined(1);
    let step = session.advance();
    assert_eq!(step, Advance { halted: None, started: None });
    assert_eq!(session.state(), SessionState::Idle);
    assert!(session.now_playing().is_none());
}

#[test]
fn advance_past_the_last_track_halts_it_and_idles() {
    let mut session = joined(1);
    session.append("a".to_string(), 1);
    session.advance();
    let step = session.advance();
    assert_eq!(step, Advance { halted: Some(track("a", 1)), started: None });
    assert_eq!(session.state(), SessionState::Idle);
    assert!(session.now_playing().is_none());
}

#[test]
fn stop_halts_without_advancing() {
    let mut session = joined(1);
    session.append("a".to_string(), 1);
    session.append("b".to_string(), 2);
    session.advance();
    let halted = session.stop();
    assert_eq!(halted, Some(track("a", 1)));
    assert_eq!(session.state(), SessionState::Idle);
    assert!(session.now_playing().is_none());
    assert_eq!(session.queue_len(), 1);
    assert_eq!(session.queued(0), Some(&track("b", 2)));
}

#[test]
fn stop_is_a_no_op_when_idle() {
    let mut session = joined(1);
    session.append("a".to_string(), 1);
    assert_eq!(session.stop(), None);
    assert_eq!(session.state(), SessionState::Idle);
    assert_eq!(session.queue_len(), 1);
}

#[test]
fn destroy_halts_the_playing_track_and_leaves() {
    let mut session = joined(9);
    session.append("a".to_string(), 1);
    session.advance();
    let teardown = session.destroy();
    assert_eq!(teardown, Teardown { halted: Some(track("a", 1)), leave: true });
    assert_eq!(session.state(), SessionState::Destroyed);
    assert!(session.now_playing().is_none());
    assert_eq!(session.channel(), 9);
}

#[test]
fn idempotent_destroy() {
    let mut session = joined(9);
    let first = session.destroy();
    let second = session.destroy();
    assert_eq!(first, Teardown { halted: None, leave: true });
    assert_eq!(second, Teardown { halted: None, leave: false });
    assert_eq!(session.state(), SessionState::Destroyed);
}

#[test]
fn a_destroyed_session_takes_no_requests() {
    let mut session = joined(9);
    session.append("a".to_string(), 1);
    session.destroy();
    assert!(!session.append("b".to_string(), 2));
    assert_eq!(session.queue_len(), 1);
    assert_eq!(session.advance(), Advance { halted: None, started: None });
    assert_eq!(session.stop(), None);
    assert_eq!(session.state(), SessionState::Destroyed);
    assert_eq!(session.queue_len(), 1);
}

#[test]
fn control_failures_are_reported() {
    assert_eq!(control_result(Ok(())), Ok(()));
    assert_eq!(
        control_result(Err("finished".to_string())),
        Err(SessionError::SongbirdControlError("finished".to_string()))
    );
}

#[test]
fn teardown_is_not_blocked_by_the_transport() {
    assert_eq!(teardown_result(Ok(()), Ok(())), Ok(()));
    assert_eq!(teardown_result(Err("finished".to_string()), Ok(())), Ok(()));
    assert_eq!(teardown_result(Ok(()), Err("no call".to_string())), Ok(()));
    assert_eq!(teardown_result(Err("a".to_string()), Err("b".to_string())), Ok(()));
}
