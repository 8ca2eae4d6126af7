//! Error taxonomy of the session core.

use vstd::prelude::*;

verus! {

/// The mathematical value of a [`SessionError`].
pub enum SessionErrorView {
    MissingVoiceChannel,
    CallJoinError(Seq<char>),
    SerenityError(Seq<char>),
    SessionExists(u64),
    SongbirdControlError(Seq<char>),
}

/// What can go wrong while a session is created, used or torn down.
#[derive(Debug, PartialEq, Eq)]
pub enum SessionError {
    /// No voice channel was named and the requesting user is in none.
    MissingVoiceChannel,
    /// The transport refused to join the voice channel; holds its report.
    CallJoinError(String),
    /// The gateway failed while a channel was looked up; holds its report.
    SerenityError(String),
    /// A session is already active for the group, bound to this channel.
    SessionExists(u64),
    /// A playback control request was refused; holds the transport's report.
    SongbirdControlError(String),
}

impl View for SessionError {
    type V = SessionErrorView;

    open spec fn view(&self) -> SessionErrorView {
        match *self {
            SessionError::MissingVoiceChannel => SessionErrorView::MissingVoiceChannel,
            SessionError::CallJoinError(report) => SessionErrorView::CallJoinError(report@),
            SessionError::SerenityError(report) => SessionErrorView::SerenityError(report@),
            SessionError::SessionExists(channel) => SessionErrorView::SessionExists(channel),
            SessionError::SongbirdControlError(report) => SessionErrorView::SongbirdControlError(
                report@,
            ),
        }
    }
}

impl SessionErrorView {
    /// The text that describes the error.
    pub open spec fn message(self) -> Seq<char> {
        match self {
            SessionErrorView::MissingVoiceChannel =>
                "No voice channel specified and author is not in a voice channel"@,
            SessionErrorView::CallJoinError(_) => "Failed to join voice channel"@,
            SessionErrorView::SerenityError(report) => "Serenity error: "@ + report,
            SessionErrorView::SessionExists(_) => "Session already exists for this guild"@,
            SessionErrorView::SongbirdControlError(report) => "Songbird error: "@ + report,
        }
    }

    /// Only a missing voice channel and an existing session are the user's
    /// to mend; every other kind is an internal fault.
    pub open spec fn user_facing(self) -> bool {
        self is MissingVoiceChannel || self is SessionExists
    }
}

impl SessionError {
    /// The text that describes the error.
    pub fn message(&self) -> (text: String)
        ensures
            text@ == self@.message(),
    {
        match self {
            SessionError::MissingVoiceChannel => {
                "No voice channel specified and author is not in a voice channel".to_string()
            },
            SessionError::CallJoinError(_) => "Failed to join voice channel".to_string(),
            SessionError::SerenityError(report) => {
                "Serenity error: ".to_string().concat(report.as_str())
            },
            SessionError::SessionExists(_) => "Session already exists for this guild".to_string(),
            SessionError::SongbirdControlError(report) => {
                "Songbird error: ".to_string().concat(report.as_str())
            },
        }
    }

    /// Whether the error may be shown verbatim to an end user.
    pub fn is_user_facing(&self) -> (shown: bool)
        ensures
            shown == self@.user_facing(),
    {
        match self {
            SessionError::MissingVoiceChannel => true,
            SessionError::SessionExists(_) => true,
            _ => false,
        }
    }
}

/// The mathematical value of an [`Error`].
pub enum ErrorView {
    SerenityError(Seq<char>),
    PermissionError(Seq<char>),
    SongbirdInputError(Seq<char>),
    SongbirdJoinError(Seq<char>),
    UrlParseError(Seq<char>),
    SessionManagerError(SessionErrorView),
    Custom(Seq<char>),
}

/// What can go wrong while a command runs.
#[derive(Debug, PartialEq, Eq)]
pub enum Error {
    /// The gateway failed; holds its report.
    SerenityError(String),
    /// The user lacks a permission; holds what is said to the user.
    PermissionError(String),
    /// An audio input failed; holds the transport's report.
    SongbirdInputError(String),
    /// The transport refused to join a channel; holds its report.
    SongbirdJoinError(String),
    /// An address did not parse; holds the parser's report.
    UrlParseError(String),
    /// The session registry or a session failed.
    SessionManagerError(SessionError),
    /// Any other failure, with what is said to the user.
    Custom(&'static str),
}

impl View for Error {
    type V = ErrorView;

    open spec fn view(&self) -> ErrorView {
        match *self {
            Error::SerenityError(report) => ErrorView::SerenityError(report@),
            Error::PermissionError(text) => ErrorView::PermissionError(text@),
            Error::SongbirdInputError(report) => ErrorView::SongbirdInputError(report@),
            Error::SongbirdJoinError(report) => ErrorView::SongbirdJoinError(report@),
            Error::UrlParseError(report) => ErrorView::UrlParseError(report@),
            Error::SessionManagerError(error) => ErrorView::SessionManagerError(error@),
            Error::Custom(text) => ErrorView::Custom(text@),
        }
    }
}

impl ErrorView {
    /// The text that describes the error.
    pub open spec fn message(self) -> Seq<char> {
        match self {
            ErrorView::SerenityError(report) => "Serenity error: "@ + report,
            ErrorView::PermissionError(text) => text,
            ErrorView::SongbirdInputError(report) => "Songbird input error: "@ + report,
            ErrorView::SongbirdJoinError(report) => "Songbird join error: "@ + report,
            ErrorView::UrlParseError(report) => "URL parsing error: "@ + report,
            ErrorView::SessionManagerError(error) => error.message(),
            ErrorView::Custom(text) => text,
        }
    }

    /// A permission error and a custom error are written for the user; an
    /// error of the session core is the user's where the core says so; every
    /// other kind is an internal fault.
    pub open spec fn user_facing(self) -> bool {
        match self {
            ErrorView::SessionManagerError(error) => error.user_facing(),
            ErrorView::PermissionError(_) => true,
            ErrorView::Custom(_) => true,
            _ => false,
        }
    }
}

impl Error {
    /// The text that describes the error.
    pub fn message(&self) -> (text: String)
        ensures
            text@ == self@.message(),
    {
        match self {
            Error::SerenityError(report) => "Serenity error: ".to_string().concat(report.as_str()),
            Error::PermissionError(text) => text.clone(),
            Error::SongbirdInputError(report) => {
                "Songbird input error: ".to_string().concat(report.as_str())
            },
            Error::SongbirdJoinError(report) => {
                "Songbird join error: ".to_string().concat(report.as_str())
            },
            Error::UrlParseError(report) => {
                "URL parsing error: ".to_string().concat(report.as_str())
            },
            Error::SessionManagerError(error) => error.message(),
            Error::Custom(text) => (*text).to_string(),
        }
    }

    /// Returns true if this error can be shown to the user.
    pub fn is_user_facing(&self) -> (shown: bool)
        ensures
            shown == self@.user_facing(),
    {
        match self {
            Error::SessionManagerError(error) => error.is_user_facing(),
            Error::PermissionError(_) => true,
            Error::Custom(_) => true,
            _ => false,
        }
    }

    /// Converts this error into a boxed error.
    pub fn boxed(self) -> (boxed: Box<Self>)
        ensures
            *boxed == self,
    {
        Box::new(self)
    }
}

} // verus!
