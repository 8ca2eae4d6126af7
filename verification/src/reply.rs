//! What is said to the user, and what else is done, when a command fails.

use vstd::prelude::*;
use crate::error::{Error, ErrorView};

verus! {

/// The mathematical value of a [`FrameworkFault`].
pub enum FrameworkFaultView {
    ArgumentParse,
    CommandCheckFailed(Option<ErrorView>),
    SubcommandRequired,
    CooldownHit { seconds: u64, nanoseconds: u32 },
    Command(ErrorView),
    NsfwOnly,
    GuildOnly,
    DmOnly,
    NotAnOwner,
    CommandPanic,
    Other,
}

/// A failure that the command framework reports.
#[derive(Debug, PartialEq, Eq)]
pub enum FrameworkFault {
    /// The arguments of a command did not parse.
    ArgumentParse,
    /// A check before a command refused it, with the reason if it gave one.
    CommandCheckFailed(Option<Error>),
    /// A command was called without the subcommand it needs.
    SubcommandRequired,
    /// A command was called before its cooldown ran out; holds the time
    /// that remains, in whole seconds and the nanoseconds beyond them.
    CooldownHit { seconds: u64, nanoseconds: u32 },
    /// A command failed while it ran, with the error it ended in.
    Command(Error),
    NsfwOnly,
    GuildOnly,
    DmOnly,
    NotAnOwner,
    /// A command panicked.
    CommandPanic,
    /// Any other failure.
    Other,
}

impl View for FrameworkFault {
    type V = FrameworkFaultView;

    open spec fn view(&self) -> FrameworkFaultView {
        match *self {
            FrameworkFault::ArgumentParse => FrameworkFaultView::ArgumentParse,
            FrameworkFault::CommandCheckFailed(error) => FrameworkFaultView::CommandCheckFailed(
                match error {
                    Some(e) => Some(e@),
                    None => None,
                },
            ),
            FrameworkFault::SubcommandRequired => FrameworkFaultView::SubcommandRequired,
            FrameworkFault::CooldownHit { seconds, nanoseconds } => FrameworkFaultView::CooldownHit {
                seconds,
                nanoseconds,
            },
            FrameworkFault::Command(error) => FrameworkFaultView::Command(error@),
            FrameworkFault::NsfwOnly => FrameworkFaultView::NsfwOnly,
            FrameworkFault::GuildOnly => FrameworkFaultView::GuildOnly,
            FrameworkFault::DmOnly => FrameworkFaultView::DmOnly,
            FrameworkFault::NotAnOwner => FrameworkFaultView::NotAnOwner,
            FrameworkFault::CommandPanic => FrameworkFaultView::CommandPanic,
            FrameworkFault::Other => FrameworkFaultView::Other,
        }
    }
}

/// The mathematical value of a [`Reaction`].
pub enum ReactionView {
    Reply(Seq<char>),
    Nothing,
    Abort,
    Log,
}

/// What is done about a failure.
#[derive(Debug, PartialEq, Eq)]
pub enum Reaction {
    /// This text is sent to the user as a reply.
    Reply(String),
    /// Nothing is done.
    Nothing,
    /// The failure is logged as fatal and the program ends with status -1.
    Abort,
    /// The failure is logged as unhandled.
    Log,
}

impl View for Reaction {
    type V = ReactionView;

    open spec fn view(&self) -> ReactionView {
        match self {
            Reaction::Reply(text) => ReactionView::Reply(text@),
            Reaction::Nothing => ReactionView::Nothing,
            Reaction::Abort => ReactionView::Abort,
            Reaction::Log => ReactionView::Log,
        }
    }
}

/// The text that `humantime::format_duration` writes for a time span of
/// `seconds` whole seconds and `nanoseconds` nanoseconds beyond them.
pub uninterp spec fn formatted_duration(seconds: u64, nanoseconds: u32) -> Seq<char>;

/// `humantime::format_duration` on the time span of `seconds` whole seconds
/// and `nanoseconds` nanoseconds, written out as text. The text depends on
/// the two numbers alone; what it reads is not stated here, and nothing is
/// proved.
#[verifier::external_body]
fn format_duration(seconds: u64, nanoseconds: u32) -> (text: String)
    requires
        nanoseconds < 1_000_000_000,
    ensures
        text@ == formatted_duration(seconds, nanoseconds),
{
    humantime::format_duration(std::time::Duration::new(seconds, nanoseconds)).to_string()
}

/// The reply to a command that is still cooling down, for a remaining time
/// that is written out as `wait`.
pub open spec fn cooldown_text(wait: Seq<char>) -> Seq<char> {
    ":x: You are on cooldown. Please wait "@ + wait + "."@
}

/// The reply to a command that failed for a reason that is not the user's.
pub open spec fn general_notice() -> Seq<char> {
    ":warning: Encountered an error while running the command. Please report this to @kaylen!"@
}

/// What is done about `fault`, where a remaining cooldown is written out as
/// `wait`.
///
/// The user is told of what the user can mend: arguments that did not
/// parse, a missing subcommand, a cooldown, and a refused check or a failed
/// command whose error is written for users, in that error's own words. A
/// command that failed with any other error is an internal fault and is
/// answered with a general notice that holds nothing of the error. A check
/// refused for a reason that is not the user's, or for none, and a command
/// used in the wrong place are passed over. A panic ends the program;
/// anything else is logged.
pub open spec fn reaction_to(fault: FrameworkFaultView, wait: Seq<char>) -> ReactionView {
    match fault {
        FrameworkFaultView::ArgumentParse => ReactionView::Reply(
            ":x: Error parsing arguments, please try again."@,
        ),
        FrameworkFaultView::CommandCheckFailed(Some(error)) => if error.user_facing() {
            ReactionView::Reply(":x: "@ + error.message())
        } else {
            ReactionView::Nothing
        },
        FrameworkFaultView::CommandCheckFailed(None) => ReactionView::Nothing,
        FrameworkFaultView::SubcommandRequired => ReactionView::Reply(
            ":x: Please specify a subcommand."@,
        ),
        FrameworkFaultView::CooldownHit { .. } => ReactionView::Reply(cooldown_text(wait)),
        FrameworkFaultView::Command(error) => if error.user_facing() {
            ReactionView::Reply(":x: "@ + error.message())
        } else {
            ReactionView::Reply(general_notice())
        },
        FrameworkFaultView::NsfwOnly => ReactionView::Nothing,
        FrameworkFaultView::GuildOnly => ReactionView::Nothing,
        FrameworkFaultView::DmOnly => ReactionView::Nothing,
        FrameworkFaultView::NotAnOwner => ReactionView::Nothing,
        FrameworkFaultView::CommandPanic => ReactionView::Abort,
        FrameworkFaultView::Other => ReactionView::Log,
    }
}

/// The remaining cooldown of `fault` as text, and the empty text for a
/// fault that is no cooldown.
pub open spec fn wait_text(fault: FrameworkFaultView) -> Seq<char> {
    match fault {
        FrameworkFaultView::CooldownHit { seconds, nanoseconds } => formatted_duration(
            seconds,
            nanoseconds,
        ),
        _ => Seq::empty(),
    }
}

/// A cooldown holds less than a second's worth of nanoseconds beyond its
/// whole seconds.
pub open spec fn well_formed(fault: FrameworkFaultView) -> bool {
    fault matches FrameworkFaultView::CooldownHit { nanoseconds, .. } ==> nanoseconds
        < 1_000_000_000
}

/// Decides what is done about `fault` once a remaining cooldown is written
/// out as `wait`.
pub fn react(fault: &FrameworkFault, wait: &str) -> (reaction: Reaction)
    ensures
        reaction@ == reaction_to(fault@, wait@),
{
    match fault {
        FrameworkFault::ArgumentParse => Reaction::Reply(
            ":x: Error parsing arguments, please try again.".to_string(),
        ),
        FrameworkFault::CommandCheckFailed(Some(error)) => {
            if error.is_user_facing() {
                let message = error.message();
                Reaction::Reply(":x: ".to_string().concat(message.as_str()))
            } else {
                Reaction::Nothing
            }
        },
        FrameworkFault::CommandCheckFailed(None) => Reaction::Nothing,
        FrameworkFault::SubcommandRequired => Reaction::Reply(
            ":x: Please specify a subcommand.".to_string(),
        ),
        FrameworkFault::CooldownHit { .. } => Reaction::Reply(
            ":x: You are on cooldown. Please wait ".to_string().concat(wait).concat("."),
        ),
        FrameworkFault::Command(error) => {
            if error.is_user_facing() {
                let message = error.message();
                Reaction::Reply(":x: ".to_string().concat(message.as_str()))
            } else {
                Reaction::Reply(
                    ":warning: Encountered an error while running the command. Please report this to @kaylen!".to_string(),
                )
            }
        },
        FrameworkFault::NsfwOnly => Reaction::Nothing,
        FrameworkFault::GuildOnly => Reaction::Nothing,
        FrameworkFault::DmOnly => Reaction::Nothing,
        FrameworkFault::NotAnOwner => Reaction::Nothing,
        FrameworkFault::CommandPanic => Reaction::Abort,
        FrameworkFault::Other => Reaction::Log,
    }
}

/// Handle errors that occur in the framework: decides what is done about
/// `fault`, with a remaining cooldown written out as a readable time span.
pub fn handle_error(fault: &FrameworkFault) -> (reaction: Reaction)
    requires
        well_formed(fault@),
    ensures
        reaction@ == reaction_to(fault@, wait_text(fault@)),
{
    match fault {
        FrameworkFault::CooldownHit { seconds, nanoseconds } => {
            let wait = format_duration(*seconds, *nanoseconds);
            react(fault, wait.as_str())
        },
        _ => react(fault, ""),
    }
}

} // verus!
