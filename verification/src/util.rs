//! What a channel lookup tells.

use vstd::prelude::*;
use crate::error::{Error, ErrorView};

verus! {

/// A channel as the gateway describes it, reduced to what is read of it.
#[derive(Clone, Copy, Debug, PartialEq, Eq, Structural)]
pub enum Channel {
    /// A channel of a group.
    Guild {
        /// The channel's own identifier.
        id: u64,
        /// The group that the channel belongs to.
        guild_id: u64,
        /// The number by which the gateway names the kind of channel.
        kind: u8,
    },
    /// A conversation between users, outside any group.
    Private,
}

/// The kind of the channel that a lookup found, seen from the group `guild`:
/// none where the channel is no channel of that group.
pub open spec fn kind_in_guild(channel: Channel, guild: u64) -> Option<u8> {
    match channel {
        Channel::Guild { id, guild_id, kind } => if guild_id == guild {
            Some(kind)
        } else {
            None
        },
        Channel::Private => None,
    }
}

/// Returns the kind of channel that a lookup found, or none if the channel
/// is not in the group `guild`, so that a channel of one group is never taken
/// for a channel of another. A failed lookup is handed on as a gateway error
/// with its report.
pub fn kind(lookup: Result<Channel, String>, guild: u64) -> (found: Result<Option<u8>, Box<Error>>)
    ensures
        match lookup {
            Ok(channel) => found == Ok::<Option<u8>, Box<Error>>(kind_in_guild(channel, guild)),
            Err(report) => found is Err && found->Err_0@ == ErrorView::SerenityError(report@),
        },
{
    match lookup {
        Ok(Channel::Guild { id, guild_id, kind }) => {
            if guild_id == guild {
                Ok(Some(kind))
            } else {
                Ok(None)
            }
        },
        Ok(Channel::Private) => Ok(None),
        Err(report) => Err(Box::new(Error::SerenityError(report))),
    }
}

} // verus!
