use keyboard_cat::error::SessionError;
use keyboard_cat::manager::{guild_channel, Admission, SessionManager};
use keyboard_cat::session::{Advance, SessionState, Teardown};
use keyboard_cat::track::TrackInfo;
use keyboard_cat::util::Channel;

const G: u64 = 100;
const C: u64 = 7;

fn track(source: &str, requester: u64) -> TrackInfo {
    TrackInfo::new(source.to_string(), requester)
}

#[test]
fn example_scenario() {
    let mut manager = SessionManager::new();
    assert!(manager.get(G).is_none());
    // the user is in channel C and names none
    assert_eq!(manager.get_or_create(G, None, Some(C)), Ok(Admission::Join(C)));
    assert_eq!(
        manager.bind_channel(G, Ok(Channel::Guild { id: C, guild_id: G, kind: 2 })),
        Ok(C)
    );
    assert_eq!(manager.create(G, C, Ok(())), Ok(()));
    assert_eq!(manager.get(G).map(|s| s.state()), Some(SessionState::Idle));
    assert_eq!(manager.get(G).map(|s| s.channel()), Some(C));

    assert!(manager.append(G, "a".to_string(), 1));
    assert!(manager.append(G, "b".to_string(), 1));
    assert_eq!(manager.get(G).map(|s| s.queue_len()), Some(2));

    assert_eq!(
        manager.advance(G),
        Some(Advance { halted: None, started: Some(track("a", 1)) })
    );
    assert_eq!(manager.get(G).map(|s| s.queue_len()), Some(1));
    assert_eq!(manager.get(G).map(|s| s.state()), Some(SessionState::Playing));

    assert_eq!(
        manager.advance(G),
        Some(Advance { halted: Some(track("a", 1)), started: Some(track("b", 1)) })
    );
    assert_eq!(manager.get(G).map(|s| s.queue_len()), Some(0));
    assert_eq!(manager.get(G).map(|s| s.state()), Some(SessionState::Playing));

    assert_eq!(
        manager.advance(G),
        Some(Advance { halted: Some(track("b", 1)), started: None })
    );
    assert_eq!(manager.get(G).map(|s| s.state()), Some(SessionState::Idle));

    assert_eq!(manager.destroy(G), Ok(Teardown { halted: None, leave: true }));
    assert!(manager.get(G).is_none());
}

#[test]
fn at_most_one_session() {
    let mut manager = SessionManager::new();
    assert_eq!(manager.get_or_create(G, Some(C), None), Ok(Admission::Join(C)));
    // while the join is under way nobody else is told to join
    assert_eq!(manager.get_or_create(G, Some(C), None), Ok(Admission::Joining(C)));
    assert_eq!(manager.get_or_create(G, Some(C + 1), Some(3)), Ok(Admission::Joining(C)));
    assert_eq!(manager.get_or_create(G, None, None), Ok(Admission::Joining(C)));
    assert_eq!(manager.joining(G), Some(C));
    assert!(manager.get(G).is_none());
    assert_eq!(manager.create(G, C, Ok(())), Ok(()));
    assert_eq!(manager.joining(G), None);
    // a later request finds the session and asks for no join
    assert_eq!(manager.get_or_create(G, Some(C), None), Ok(Admission::Existing));
    assert_eq!(manager.get_or_create(G, Some(C + 1), Some(3)), Ok(Admission::Existing));
    assert_eq!(manager.get_or_create(G, None, None), Ok(Admission::Existing));
    // a create that lost the race is refused and changes nothing
    manager.append(G, "a".to_string(), 1);
    assert_eq!(manager.create(G, C + 1, Ok(())), Err(SessionError::SessionExists(C)));
    assert_eq!(manager.get(G).map(|s| s.channel()), Some(C));
    assert_eq!(manager.get(G).map(|s| s.queue_len()), Some(1));
}

#[test]
fn the_named_channel_wins_over_the_users_channel() {
    let mut manager = SessionManager::new();
    assert_eq!(manager.get_or_create(G, Some(1), Some(2)), Ok(Admission::Join(1)));
    assert_eq!(manager.get_or_create(G + 1, None, Some(2)), Ok(Admission::Join(2)));
    assert_eq!(manager.joining(G), Some(1));
    assert_eq!(manager.joining(G + 1), Some(2));
}

#[test]
fn missing_voice_channel() {
    let mut manager = SessionManager::new();
    assert_eq!(manager.get_or_create(G, None, None), Err(SessionError::MissingVoiceChannel));
    // the group stays free
    assert_eq!(manager.joining(G), None);
    assert_eq!(manager.get_or_create(G, Some(C), None), Ok(Admission::Join(C)));
}

#[test]
fn join_failed() {
    let mut manager = SessionManager::new();
    assert_eq!(manager.get_or_create(G, Some(C), None), Ok(Admission::Join(C)));
    assert_eq!(
        manager.create(G, C, Err("timed out".to_string())),
        Err(SessionError::CallJoinError("timed out".to_string()))
    );
    assert!(manager.get(G).is_none());
    // the failed join freed the group: the next request is told to join
    assert_eq!(manager.joining(G), None);
    assert_eq!(manager.get_or_create(G, Some(C), None), Ok(Admission::Join(C)));
}

#[test]
fn groups_are_independent() {
    let mut manager = SessionManager::new();
    manager.create(1, 10, Ok(())).unwrap();
    manager.create(2, 20, Ok(())).unwrap();
    manager.append(1, "a".to_string(), 5);
    manager.advance(1);
    assert_eq!(manager.get(2).map(|s| s.queue_len()), Some(0));
    assert_eq!(manager.get(2).map(|s| s.state()), Some(SessionState::Idle));
    manager.destroy(1).unwrap();
    assert!(manager.get(1).is_none());
    assert_eq!(manager.get(2).map(|s| s.channel()), Some(20));
}

#[test]
fn registry_operations_without_a_session_do_nothing() {
    let mut manager = SessionManager::new();
    assert!(!manager.append(G, "a".to_string(), 1));
    assert_eq!(manager.advance(G), None);
    assert_eq!(manager.stop(G), None);
    assert!(manager.get(G).is_none());
}

#[test]
fn registry_stop_halts_the_playing_track() {
    let mut manager = SessionManager::new();
    manager.create(G, C, Ok(())).unwrap();
    manager.append(G, "a".to_string(), 1);
    manager.append(G, "b".to_string(), 2);
    manager.advance(G);
    assert_eq!(manager.stop(G), Some(track("a", 1)));
    assert_eq!(manager.get(G).map(|s| s.state()), Some(SessionState::Idle));
    assert_eq!(manager.get(G).map(|s| s.queue_len()), Some(1));
    assert_eq!(manager.stop(G), None);
}

#[test]
fn destroy_twice_leaves_once() {
    let mut manager = SessionManager::new();
    manager.create(G, C, Ok(())).unwrap();
    manager.append(G, "a".to_string(), 1);
    manager.advance(G);
    assert_eq!(
        manager.destroy(G),
        Ok(Teardown { halted: Some(track("a", 1)), leave: true })
    );
    assert_eq!(manager.destroy(G), Ok(Teardown { halted: None, leave: false }));
}

#[test]
fn destroy_without_a_session_succeeds() {
    let mut manager = SessionManager::new();
    assert_eq!(manager.destroy(G), Ok(Teardown { halted: None, leave: false }));
}

#[test]
fn post_destroy_unreachability() {
    let mut manager = SessionManager::new();
    manager.create(G, C, Ok(())).unwrap();
    manager.append(G, "old".to_string(), 1);
    manager.advance(G);
    manager.append(G, "older".to_string(), 1);
    manager.destroy(G).unwrap();
    assert!(manager.get(G).is_none());
    // a new request asks for a new join, and the session that follows is fresh
    assert_eq!(manager.get_or_create(G, Some(8), None), Ok(Admission::Join(8)));
    manager.create(G, 8, Ok(())).unwrap();
    let fresh = manager.get(G).expect("the group has a session again");
    assert_eq!(fresh.channel(), 8);
    assert_eq!(fresh.state(), SessionState::Idle);
    assert_eq!(fresh.queue_len(), 0);
    assert!(fresh.now_playing().is_none());
}

#[test]
fn the_target_channel_must_be_a_channel_of_a_group() {
    assert_eq!(guild_channel(Ok(Channel::Guild { id: 5, guild_id: G, kind: 2 })), Ok(5));
    assert_eq!(guild_channel(Ok(Channel::Private)), Err(SessionError::MissingVoiceChannel));
    assert_eq!(
        guild_channel(Err("unknown channel".to_string())),
        Err(SessionError::SerenityError("unknown channel".to_string()))
    );
}

#[test]
fn a_lookup_without_a_channel_frees_the_group() {
    let mut manager = SessionManager::new();
    assert_eq!(manager.get_or_create(G, Some(C), None), Ok(Admission::Join(C)));
    assert_eq!(
        manager.bind_channel(G, Ok(Channel::Private)),
        Err(SessionError::MissingVoiceChannel)
    );
    assert_eq!(manager.joining(G), None);
    assert_eq!(manager.get_or_create(G, Some(8), None), Ok(Admission::Join(8)));
    assert_eq!(
        manager.bind_channel(G, Err("unknown channel".to_string())),
        Err(SessionError::SerenityError("unknown channel".to_string()))
    );
    assert_eq!(manager.joining(G), None);
    assert!(manager.get(G).is_none());
}

#[test]
fn a_lookup_that_found_the_channel_keeps_the_group() {
    let mut manager = SessionManager::new();
    assert_eq!(manager.get_or_create(G, Some(C), None), Ok(Admission::Join(C)));
    assert_eq!(
        manager.bind_channel(G, Ok(Channel::Guild { id: C, guild_id: G, kind: 2 })),
        Ok(C)
    );
    assert_eq!(manager.joining(G), Some(C));
    assert_eq!(manager.get_or_create(G, Some(C), None), Ok(Admission::Joining(C)));
}

#[test]
fn requests_that_interleave_are_told_to_join_once() {
    // three callers ask for one group and two for another before any join is settled
    let mut manager = SessionManager::new();
    let answers = [
        manager.get_or_create(1, Some(10), None),
        manager.get_or_create(2, None, Some(20)),
        manager.get_or_create(1, Some(11), None),
        manager.get_or_create(2, Some(21), None),
        manager.get_or_create(1, None, Some(12)),
    ];
    assert_eq!(
        answers,
        [
            Ok(Admission::Join(10)),
            Ok(Admission::Join(20)),
            Ok(Admission::Joining(10)),
            Ok(Admission::Joining(20)),
            Ok(Admission::Joining(10)),
        ]
    );
    // the joins are settled in the other order
    assert_eq!(manager.create(2, 20, Ok(())), Ok(()));
    assert_eq!(manager.get_or_create(1, Some(11), None), Ok(Admission::Joining(10)));
    assert_eq!(manager.get_or_create(2, Some(21), None), Ok(Admission::Existing));
    assert_eq!(manager.create(1, 10, Ok(())), Ok(()));
    // every caller now finds the one session of its group
    for _ in 0..3 {
        assert_eq!(manager.get_or_create(1, Some(11), None), Ok(Admission::Existing));
        assert_eq!(manager.get(1).map(|s| s.channel()), Some(10));
    }
    assert_eq!(manager.get(2).map(|s| s.channel()), Some(20));
}

#[test]
fn destroy_leaves_a_join_under_way_alone() {
    let mut manager = SessionManager::new();
    assert_eq!(manager.get_or_create(G, Some(C), None), Ok(Admission::Join(C)));
    assert_eq!(manager.destroy(G), Ok(Teardown { halted: None, leave: false }));
    assert_eq!(manager.joining(G), Some(C));
    assert_eq!(manager.create(G, C, Ok(())), Ok(()));
    assert_eq!(manager.get(G).map(|s| s.channel()), Some(C));
}
