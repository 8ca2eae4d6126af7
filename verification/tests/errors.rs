use keyboard_cat::error::{Error, SessionError};
use keyboard_cat::reply::{handle_error, react, FrameworkFault, Reaction};
use keyboard_cat::util::{kind, Channel};

#[test]
fn only_two_session_errors_are_shown_to_the_user() {
    assert!(SessionError::MissingVoiceChannel.is_user_facing());
    assert!(SessionError::SessionExists(3).is_user_facing());
    assert!(!SessionError::CallJoinError("x".to_string()).is_user_facing());
    assert!(!SessionError::SerenityError("x".to_string()).is_user_facing());
    assert!(!SessionError::SongbirdControlError("x".to_string()).is_user_facing());
}

#[test]
fn session_error_messages() {
    assert_eq!(
        SessionError::MissingVoiceChannel.message(),
        "No voice channel specified and author is not in a voice channel"
    );
    assert_eq!(
        SessionError::CallJoinError("dropped".to_string()).message(),
        "Failed to join voice channel"
    );
    assert_eq!(
        SessionError::SerenityError("http 500".to_string()).message(),
        "Serenity error: http 500"
    );
    assert_eq!(
        SessionError::SessionExists(12).message(),
        "Session already exists for this guild"
    );
    assert_eq!(
        SessionError::SongbirdControlError("finished".to_string()).message(),
        "Songbird error: finished"
    );
}

#[test]
fn command_errors_shown_to_the_user() {
    assert!(Error::PermissionError("no".to_string()).is_user_facing());
    assert!(Error::Custom("no").is_user_facing());
    assert!(Error::SessionManagerError(SessionError::MissingVoiceChannel).is_user_facing());
    assert!(Error::SessionManagerError(SessionError::SessionExists(1)).is_user_facing());
    assert!(!Error::SessionManagerError(SessionError::CallJoinError("x".to_string()))
        .is_user_facing());
    assert!(!Error::SerenityError("x".to_string()).is_user_facing());
    assert!(!Error::SongbirdInputError("x".to_string()).is_user_facing());
    assert!(!Error::SongbirdJoinError("x".to_string()).is_user_facing());
    assert!(!Error::UrlParseError("x".to_string()).is_user_facing());
}

#[test]
fn command_error_messages() {
    assert_eq!(Error::SerenityError("a".to_string()).message(), "Serenity error: a");
    assert_eq!(Error::PermissionError("not yours".to_string()).message(), "not yours");
    assert_eq!(Error::SongbirdInputError("b".to_string()).message(), "Songbird input error: b");
    assert_eq!(Error::SongbirdJoinError("c".to_string()).message(), "Songbird join error: c");
    assert_eq!(
        Error::UrlParseError("empty host".to_string()).message(),
        "URL parsing error: empty host"
    );
    assert_eq!(
        Error::SessionManagerError(SessionError::SessionExists(1)).message(),
        "Session already exists for this guild"
    );
    assert_eq!(Error::Custom("later").message(), "later");
}

#[test]
fn boxed_keeps_the_error() {
    let boxed = Error::Custom("x").boxed();
    assert_eq!(*boxed, Error::Custom("x"));
}

#[test]
fn faults_of_the_user_are_answered() {
    assert_eq!(
        handle_error(&FrameworkFault::ArgumentParse),
        Reaction::Reply(":x: Error parsing arguments, please try again.".to_string())
    );
    assert_eq!(
        handle_error(&FrameworkFault::SubcommandRequired),
        Reaction::Reply(":x: Please specify a subcommand.".to_string())
    );
    assert_eq!(
        handle_error(&FrameworkFault::CommandCheckFailed(Some(Error::PermissionError(
            "You may not do this.".to_string()
        )))),
        Reaction::Reply(":x: You may not do this.".to_string())
    );
    assert_eq!(
        handle_error(&FrameworkFault::CommandCheckFailed(Some(Error::SessionManagerError(
            SessionError::MissingVoiceChannel
        )))),
        Reaction::Reply(
            ":x: No voice channel specified and author is not in a voice channel".to_string()
        )
    );
}

#[test]
fn a_refused_check_that_is_not_the_users_is_passed_over() {
    assert_eq!(
        handle_error(&FrameworkFault::CommandCheckFailed(Some(Error::SerenityError(
            "x".to_string()
        )))),
        Reaction::Nothing
    );
    assert_eq!(handle_error(&FrameworkFault::CommandCheckFailed(None)), Reaction::Nothing);
}

#[test]
fn a_cooldown_is_answered_with_the_time_that_remains() {
    assert_eq!(
        handle_error(&FrameworkFault::CooldownHit { seconds: 9420, nanoseconds: 0 }),
        Reaction::Reply(":x: You are on cooldown. Please wait 2h 37m.".to_string())
    );
    assert_eq!(
        handle_error(&FrameworkFault::CooldownHit { seconds: 0, nanoseconds: 32_000_000 }),
        Reaction::Reply(":x: You are on cooldown. Please wait 32ms.".to_string())
    );
    assert_eq!(
        handle_error(&FrameworkFault::CooldownHit { seconds: 0, nanoseconds: 0 }),
        Reaction::Reply(":x: You are on cooldown. Please wait 0s.".to_string())
    );
}

#[test]
fn react_takes_the_written_cooldown() {
    assert_eq!(
        react(&FrameworkFault::CooldownHit { seconds: 1, nanoseconds: 0 }, "a while"),
        Reaction::Reply(":x: You are on cooldown. Please wait a while.".to_string())
    );
    assert_eq!(react(&FrameworkFault::Other, "a while"), Reaction::Log);
}

const GENERAL_NOTICE: &str =
    ":warning: Encountered an error while running the command. Please report this to @kaylen!";

#[test]
fn a_command_that_failed_for_the_users_reason_is_answered_in_its_words() {
    assert_eq!(
        handle_error(&FrameworkFault::Command(Error::SessionManagerError(
            SessionError::MissingVoiceChannel
        ))),
        Reaction::Reply(
            ":x: No voice channel specified and author is not in a voice channel".to_string()
        )
    );
    assert_eq!(
        handle_error(&FrameworkFault::Command(Error::SessionManagerError(
            SessionError::SessionExists(7)
        ))),
        Reaction::Reply(":x: Session already exists for this guild".to_string())
    );
    assert_eq!(
        handle_error(&FrameworkFault::Command(Error::PermissionError(
            "You may not do this.".to_string()
        ))),
        Reaction::Reply(":x: You may not do this.".to_string())
    );
    assert_eq!(
        handle_error(&FrameworkFault::Command(Error::Custom("Not now."))),
        Reaction::Reply(":x: Not now.".to_string())
    );
}

#[test]
fn a_command_that_failed_for_another_reason_gets_the_general_notice() {
    let internal = [
        Error::SerenityError("http 500 at /channels".to_string()),
        Error::SongbirdInputError("no stream".to_string()),
        Error::SongbirdJoinError("dropped".to_string()),
        Error::UrlParseError("empty host".to_string()),
        Error::SessionManagerError(SessionError::CallJoinError("timed out".to_string())),
        Error::SessionManagerError(SessionError::SerenityError("missing access".to_string())),
        Error::SessionManagerError(SessionError::SongbirdControlError("finished".to_string())),
    ];
    for error in internal {
        assert_eq!(
            handle_error(&FrameworkFault::Command(error)),
            Reaction::Reply(GENERAL_NOTICE.to_string())
        );
    }
}

#[test]
fn react_answers_a_failed_command_whatever_the_written_cooldown() {
    assert_eq!(
        react(&FrameworkFault::Command(Error::Custom("Not now.")), "5s"),
        Reaction::Reply(":x: Not now.".to_string())
    );
    assert_eq!(
        react(&FrameworkFault::Command(Error::SerenityError("x".to_string())), "5s"),
        Reaction::Reply(GENERAL_NOTICE.to_string())
    );
}

#[test]
fn misplaced_commands_are_passed_over() {
    assert_eq!(handle_error(&FrameworkFault::NsfwOnly), Reaction::Nothing);
    assert_eq!(handle_error(&FrameworkFault::GuildOnly), Reaction::Nothing);
    assert_eq!(handle_error(&FrameworkFault::DmOnly), Reaction::Nothing);
    assert_eq!(handle_error(&FrameworkFault::NotAnOwner), Reaction::Nothing);
}

#[test]
fn a_panic_aborts_and_the_rest_is_logged() {
    assert_eq!(handle_error(&FrameworkFault::CommandPanic), Reaction::Abort);
    assert_eq!(handle_error(&FrameworkFault::Other), Reaction::Log);
}

#[test]
fn channel_kind_is_told_within_the_group_only() {
    let voice = Channel::Guild { id: 1, guild_id: 10, kind: 2 };
    assert_eq!(kind(Ok(voice), 10), Ok(Some(2)));
    assert_eq!(kind(Ok(voice), 11), Ok(None));
    assert_eq!(kind(Ok(Channel::Private), 10), Ok(None));
    assert_eq!(
        kind(Err("missing access".to_string()), 10),
        Err(Box::new(Error::SerenityError("missing access".to_string())))
    );
}
