//! What a voice-state change sets in motion.

use crate::event::{
    classification_of, human_left_voice, interpret, interpretation_of, Classification,
    VoiceStateEvent,
};
use crate::failure::Failure;
use crate::manager::{released_by_leave, ConnectionManager, GuildVoiceConnection};
use vstd::prelude::*;

verus! {

/// What the caller has to do about an event.
#[derive(Clone, Copy, Debug, PartialEq, Eq, Structural)]
pub enum Response {
    /// The event could not be handled: it is dropped and the failure logged.
    Dropped(Failure),
    /// Nothing is to be done.
    Ignored,
    /// The guild's connection is given up. `released` is the record it had:
    /// its playback is stopped and the connection released. The leave is
    /// issued to the backend even where no record was held.
    Leave { guild_id: u64, released: Option<GuildVoiceConnection> },
    /// The user's display name in the guild is looked up, and an announcement
    /// in the channel is opened with it.
    Announce { guild_id: u64, channel_id: u64, user_id: u64 },
}

/// The response to an event, given the registry and the account lookup.
pub open spec fn response_to(
    connections: Map<u64, GuildVoiceConnection>,
    event: VoiceStateEvent,
    user_is_bot: Option<bool>,
) -> Response {
    match interpretation_of(event, user_is_bot) {
        Err(failure) => Response::Dropped(failure),
        Ok(Classification::Ignore) => Response::Ignored,
        Ok(Classification::LeaveChannel { guild_id }) => Response::Leave {
            guild_id,
            released: released_by_leave(connections, guild_id),
        },
        Ok(Classification::Announce { guild_id, channel_id, user_id }) => Response::Announce {
            guild_id,
            channel_id,
            user_id,
        },
    }
}

/// The registry after an event: a participant who left voice takes the
/// guild's record with them, and no other event touches the registry.
pub open spec fn registry_after_event(
    connections: Map<u64, GuildVoiceConnection>,
    event: VoiceStateEvent,
    user_is_bot: Option<bool>,
) -> Map<u64, GuildVoiceConnection> {
    match interpretation_of(event, user_is_bot) {
        Ok(Classification::LeaveChannel { guild_id }) => connections.remove(guild_id),
        _ => connections,
    }
}

/// Handles one voice-state change. `user_is_bot` is the outcome of looking up
/// the acting account: its automation flag, or `None` if the lookup failed.
pub fn handle_voice_state(
    manager: &mut ConnectionManager,
    event: &VoiceStateEvent,
    user_is_bot: Option<bool>,
) -> (response: Response)
    ensures
        response == response_to(old(manager)@, *event, user_is_bot),
        final(manager)@ == registry_after_event(old(manager)@, *event, user_is_bot),
{
    match interpret(event, user_is_bot) {
        Err(failure) => Response::Dropped(failure),
        Ok(Classification::Ignore) => Response::Ignored,
        Ok(Classification::LeaveChannel { guild_id }) => {
            let released = manager.leave(guild_id);
            Response::Leave { guild_id, released }
        },
        Ok(Classification::Announce { guild_id, channel_id, user_id }) => Response::Announce {
            guild_id,
            channel_id,
            user_id,
        },
    }
}

/// Muted participants and automated accounts set nothing in motion: unless a
/// human left voice, the event is ignored, or dropped as malformed where a
/// human's event names no guild, and the registry stays as it is.
pub proof fn lemma_muted_and_bots_have_no_effect(
    connections: Map<u64, GuildVoiceConnection>,
    event: VoiceStateEvent,
    is_bot: bool,
)
    requires
        is_bot || (event.self_mute && !human_left_voice(event, is_bot)),
    ensures
        classification_of(event, is_bot) == Classification::Ignore,
        response_to(connections, event, Some(is_bot)) == (if !is_bot && event.guild_id is None {
            Response::Dropped(Failure::MalformedEvent)
        } else {
            Response::Ignored
        }),
        registry_after_event(connections, event, Some(is_bot)) == connections,
{
}

/// Only a `Leave` response changes the registry, and only by making its guild
/// absent.
pub proof fn lemma_only_leave_changes_registry(
    connections: Map<u64, GuildVoiceConnection>,
    event: VoiceStateEvent,
    user_is_bot: Option<bool>,
)
    ensures
        response_to(connections, event, user_is_bot) matches Response::Leave { guild_id, .. }
            ==> registry_after_event(connections, event, user_is_bot) == connections.remove(
            guild_id,
        ),
        !(response_to(connections, event, user_is_bot) is Leave) ==> registry_after_event(
            connections,
            event,
            user_is_bot,
        ) == connections,
{
}

} // verus!
