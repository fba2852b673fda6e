//! Classification of voice-state changes.

use crate::failure::Failure;
use vstd::prelude::*;

verus! {

/// A point-in-time snapshot of one participant's voice state.
#[derive(Clone, Copy, Debug, PartialEq, Eq, Structural)]
pub struct VoiceStateEvent {
    pub user_id: u64,
    pub guild_id: Option<u64>,
    pub channel_id: Option<u64>,
    pub self_mute: bool,
}

/// What the announcer does about one voice-state change.
#[derive(Clone, Copy, Debug, PartialEq, Eq, Structural)]
pub enum Classification {
    /// Nothing happens.
    Ignore,
    /// The participant left voice entirely: the guild's connection is released.
    LeaveChannel { guild_id: u64 },
    /// The participant is present and unmuted: their name is spoken.
    Announce { guild_id: u64, channel_id: u64, user_id: u64 },
}

/// The classification of an event, given whether the acting account is automated.
pub open spec fn classification_of(event: VoiceStateEvent, is_bot: bool) -> Classification {
    if is_bot {
        Classification::Ignore
    } else {
        match (event.guild_id, event.channel_id) {
            (None, _) => Classification::Ignore,
            (Some(guild_id), None) => Classification::LeaveChannel { guild_id },
            (Some(guild_id), Some(channel_id)) => if event.self_mute {
                Classification::Ignore
            } else {
                Classification::Announce { guild_id, channel_id, user_id: event.user_id }
            },
        }
    }
}

/// Classifies one event. Pure: no state is read or changed.
pub fn classify(event: &VoiceStateEvent, is_bot: bool) -> (result: Classification)
    ensures
        result == classification_of(*event, is_bot),
{
    if is_bot {
        return Classification::Ignore;
    }
    match (event.guild_id, event.channel_id) {
        (None, _) => Classification::Ignore,
        (Some(guild_id), None) => Classification::LeaveChannel { guild_id },
        (Some(guild_id), Some(channel_id)) => {
            if event.self_mute {
                Classification::Ignore
            } else {
                Classification::Announce { guild_id, channel_id, user_id: event.user_id }
            }
        },
    }
}

/// What becomes of an event once the lookup of the acting account has answered
/// (`Some` with its automation flag) or failed (`None`). A failed lookup drops
/// the event; so does a missing guild on a human's event; everything else is
/// classified.
pub open spec fn interpretation_of(event: VoiceStateEvent, user_is_bot: Option<bool>) -> Result<
    Classification,
    Failure,
> {
    match user_is_bot {
        None => Err(Failure::LookupFailure),
        Some(is_bot) => if !is_bot && event.guild_id is None {
            Err(Failure::MalformedEvent)
        } else {
            Ok(classification_of(event, is_bot))
        },
    }
}

/// Interprets one event from the outcome of the account lookup. An error means
/// that the event is dropped and the reason logged.
pub fn interpret(event: &VoiceStateEvent, user_is_bot: Option<bool>) -> (result: Result<
    Classification,
    Failure,
>)
    ensures
        result == interpretation_of(*event, user_is_bot),
{
    match user_is_bot {
        None => Err(Failure::LookupFailure),
        Some(is_bot) => {
            if !is_bot && event.guild_id.is_none() {
                Err(Failure::MalformedEvent)
            } else {
                Ok(classify(event, is_bot))
            }
        },
    }
}

/// Whether the event reports that a human left voice in a known guild.
pub open spec fn human_left_voice(event: VoiceStateEvent, is_bot: bool) -> bool {
    !is_bot && event.guild_id is Some && event.channel_id is None
}

/// A muted participant is never announced: the event is ignored, unless it
/// reports that a human left voice altogether, which releases the guild's
/// connection whether the participant was muted or not.
pub proof fn lemma_muted_is_ignored(event: VoiceStateEvent, is_bot: bool)
    requires
        event.self_mute,
        !human_left_voice(event, is_bot),
    ensures
        classification_of(event, is_bot) == Classification::Ignore,
{
}

/// Events of automated accounts are ignored, muted or not, in a channel or not.
pub proof fn lemma_bot_is_ignored(event: VoiceStateEvent)
    ensures
        classification_of(event, true) == Classification::Ignore,
        interpretation_of(event, Some(true)) == Ok::<Classification, Failure>(
            Classification::Ignore,
        ),
{
}

/// An announcement is made exactly for a human who is unmuted in a channel of
/// a known guild, and it names that guild, channel and user.
pub proof fn lemma_announce_exactly_when_present_and_unmuted(event: VoiceStateEvent, is_bot: bool)
    ensures
        classification_of(event, is_bot) is Announce <==> (!is_bot && !event.self_mute
            && event.guild_id is Some && event.channel_id is Some),
        classification_of(event, is_bot) is LeaveChannel <==> (!is_bot && event.guild_id is Some
            && event.channel_id is None),
{
}

} // verus!
