//! The per-guild voice-connection registry and its transitions.
//!
//! Every guild is in one of three states: absent, connected to a channel, or
//! connected and playing. The registry holds one record per connected guild and
//! decides, for each transition, what the voice backend has to be told.

use std::collections::HashMap;
use vstd::prelude::*;
use vstd::std_specs::hash::*;

verus! {

broadcast use vstd::std_specs::hash::group_hash_axioms;

/// The announcer's occupancy of one voice channel within one guild.
#[derive(Clone, Copy, Debug, PartialEq, Eq, Structural)]
pub struct GuildVoiceConnection {
    pub guild_id: u64,
    /// The channel currently occupied.
    pub channel_id: u64,
    /// Present exactly while an audio source is streaming.
    pub playback_handle: Option<u64>,
}

/// The state of one guild, as the registry sees it.
#[derive(Clone, Copy, Debug, PartialEq, Eq, Structural)]
pub enum GuildState {
    Absent,
    Connected { channel_id: u64 },
    Playing { channel_id: u64 },
}

/// What became of a request to start playback.
#[derive(Clone, Copy, Debug, PartialEq, Eq, Structural)]
pub enum PlaybackStart {
    /// The guild has no connection: nothing plays.
    NotConnected,
    /// The new source streams; `superseded` is the playback it replaced, if any.
    Started { superseded: Option<u64> },
}

/// Every record is filed under its own guild, so no guild has two.
pub open spec fn one_connection_per_guild(connections: Map<u64, GuildVoiceConnection>) -> bool {
    forall|guild_id: u64| #[trigger]
        connections.contains_key(guild_id) ==> connections[guild_id].guild_id == guild_id
}

/// The state of `guild_id` in a registry.
pub open spec fn state_in(connections: Map<u64, GuildVoiceConnection>, guild_id: u64) -> GuildState {
    if !connections.contains_key(guild_id) {
        GuildState::Absent
    } else if connections[guild_id].playback_handle is Some {
        GuildState::Playing { channel_id: connections[guild_id].channel_id }
    } else {
        GuildState::Connected { channel_id: connections[guild_id].channel_id }
    }
}

/// Whether `guild_id` is connected to a channel other than `channel_id`.
pub open spec fn occupies_other_channel(
    connections: Map<u64, GuildVoiceConnection>,
    guild_id: u64,
    channel_id: u64,
) -> bool {
    connections.contains_key(guild_id) && connections[guild_id].channel_id != channel_id
}

/// The playback that has to stop before `guild_id` may move to `channel_id`.
pub open spec fn playback_to_stop(
    connections: Map<u64, GuildVoiceConnection>,
    guild_id: u64,
    channel_id: u64,
) -> Option<u64> {
    if occupies_other_channel(connections, guild_id, channel_id) {
        connections[guild_id].playback_handle
    } else {
        None
    }
}

/// The registry once playback in another channel has been given up.
pub open spec fn after_prepare(
    connections: Map<u64, GuildVoiceConnection>,
    guild_id: u64,
    channel_id: u64,
) -> Map<u64, GuildVoiceConnection> {
    if occupies_other_channel(connections, guild_id, channel_id) {
        connections.insert(
            guild_id,
            GuildVoiceConnection {
                guild_id,
                channel_id: connections[guild_id].channel_id,
                playback_handle: None,
            },
        )
    } else {
        connections
    }
}

/// The registry once the backend has answered a join of `channel_id`.
/// A failed join changes nothing; a successful one files the guild under the
/// channel, and playback carries over only within the same channel.
pub open spec fn after_join(
    connections: Map<u64, GuildVoiceConnection>,
    guild_id: u64,
    channel_id: u64,
    joined: bool,
) -> Map<u64, GuildVoiceConnection> {
    if !joined {
        connections
    } else {
        connections.insert(
            guild_id,
            GuildVoiceConnection {
                guild_id,
                channel_id,
                playback_handle: if occupies_other_channel(connections, guild_id, channel_id)
                    || !connections.contains_key(guild_id) {
                    None
                } else {
                    connections[guild_id].playback_handle
                },
            },
        )
    }
}

/// The registry once `handle` streams into the guild's connection, if it has one.
pub open spec fn after_playback(
    connections: Map<u64, GuildVoiceConnection>,
    guild_id: u64,
    handle: u64,
) -> Map<u64, GuildVoiceConnection> {
    if connections.contains_key(guild_id) {
        connections.insert(
            guild_id,
            GuildVoiceConnection {
                guild_id,
                channel_id: connections[guild_id].channel_id,
                playback_handle: Some(handle),
            },
        )
    } else {
        connections
    }
}

/// What a request to start playback reports.
pub open spec fn playback_start_in(
    connections: Map<u64, GuildVoiceConnection>,
    guild_id: u64,
) -> PlaybackStart {
    if connections.contains_key(guild_id) {
        PlaybackStart::Started { superseded: connections[guild_id].playback_handle }
    } else {
        PlaybackStart::NotConnected
    }
}

/// The record that leaving `guild_id` releases, if the guild has one.
pub open spec fn released_by_leave(
    connections: Map<u64, GuildVoiceConnection>,
    guild_id: u64,
) -> Option<GuildVoiceConnection> {
    if connections.contains_key(guild_id) {
        Some(connections[guild_id])
    } else {
        None
    }
}

/// What the registry keeps for a connected guild.
#[derive(Clone, Copy, Debug, PartialEq, Eq, Structural)]
struct Occupancy {
    channel_id: u64,
    playback_handle: Option<u64>,
}

/// The set of voice connections, at most one per guild.
pub struct ConnectionManager {
    occupied: HashMap<u64, Occupancy>,
}

impl View for ConnectionManager {
    type V = Map<u64, GuildVoiceConnection>;

    /// The records by guild: each guild that is connected, with its own record.
    closed spec fn view(&self) -> Map<u64, GuildVoiceConnection> {
        Map::new(
            |guild_id: u64| self.occupied@.contains_key(guild_id),
            |guild_id: u64|
                GuildVoiceConnection {
                    guild_id,
                    channel_id: self.occupied@[guild_id].channel_id,
                    playback_handle: self.occupied@[guild_id].playback_handle,
                },
        )
    }
}

impl ConnectionManager {
    /// A registry in which every guild is absent.
    pub fn new() -> (manager: Self)
        ensures
            manager@ == Map::<u64, GuildVoiceConnection>::empty(),
    {
        let manager = ConnectionManager { occupied: HashMap::new() };
        assert(manager@ =~= Map::<u64, GuildVoiceConnection>::empty());
        manager
    }

    /// The guild's record, if it is connected.
    pub fn get_connection(&self, guild_id: u64) -> (result: Option<GuildVoiceConnection>)
        ensures
            result == released_by_leave(self@, guild_id),
    {
        match self.occupied.get(&guild_id) {
            Some(slot) => Some(
                GuildVoiceConnection {
                    guild_id,
                    channel_id: slot.channel_id,
                    playback_handle: slot.playback_handle,
                },
            ),
            None => None,
        }
    }

    /// The guild's state.
    pub fn state(&self, guild_id: u64) -> (result: GuildState)
        ensures
            result == state_in(self@, guild_id),
    {
        match self.occupied.get(&guild_id) {
            None => GuildState::Absent,
            Some(slot) => match slot.playback_handle {
                Some(_) => GuildState::Playing { channel_id: slot.channel_id },
                None => GuildState::Connected { channel_id: slot.channel_id },
            },
        }
    }

    /// First half of a join: gives up playback if the guild occupies another
    /// channel, and returns the handle that the backend has to stop.
    pub fn prepare_join(&mut self, guild_id: u64, channel_id: u64) -> (stop: Option<u64>)
        ensures
            stop == playback_to_stop(old(self)@, guild_id, channel_id),
            final(self)@ == after_prepare(old(self)@, guild_id, channel_id),
    {
        let current = self.get_connection(guild_id);
        let stop = match current {
            Some(connection) => {
                if connection.channel_id != channel_id {
                    self.occupied.insert(
                        guild_id,
                        Occupancy { channel_id: connection.channel_id, playback_handle: None },
                    );
                    connection.playback_handle
                } else {
                    None
                }
            },
            None => None,
        };
        assert(self@ =~= after_prepare(old(self)@, guild_id, channel_id));
        stop
    }

    /// Second half of a join: records what the backend answered.
    pub fn complete_join(&mut self, guild_id: u64, channel_id: u64, joined: bool)
        ensures
            final(self)@ == after_join(old(self)@, guild_id, channel_id, joined),
    {
        if joined {
            let playback_handle = match self.get_connection(guild_id) {
                Some(connection) => if connection.channel_id == channel_id {
                    connection.playback_handle
                } else {
                    None
                },
                None => None,
            };
            self.occupied.insert(guild_id, Occupancy { channel_id, playback_handle });
        }
        assert(self@ =~= after_join(old(self)@, guild_id, channel_id, joined));
    }

    /// Records that `handle` now streams into the guild's connection. A playback
    /// that was active is superseded; a guild without a connection plays nothing.
    pub fn start_playback(&mut self, guild_id: u64, handle: u64) -> (result: PlaybackStart)
        ensures
            result == playback_start_in(old(self)@, guild_id),
            final(self)@ == after_playback(old(self)@, guild_id, handle),
    {
        let result = match self.get_connection(guild_id) {
            Some(connection) => {
                self.occupied.insert(
                    guild_id,
                    Occupancy { channel_id: connection.channel_id, playback_handle: Some(handle) },
                );
                PlaybackStart::Started { superseded: connection.playback_handle }
            },
            None => PlaybackStart::NotConnected,
        };
        assert(self@ =~= after_playback(old(self)@, guild_id, handle));
        result
    }

    /// Drops the guild's record and returns it, so that its playback can be
    /// stopped and the connection released. An absent guild stays absent.
    pub fn leave(&mut self, guild_id: u64) -> (released: Option<GuildVoiceConnection>)
        ensures
            released == released_by_leave(old(self)@, guild_id),
            final(self)@ == old(self)@.remove(guild_id),
    {
        let released = self.get_connection(guild_id);
        self.occupied.remove(&guild_id);
        assert(self@ =~= old(self)@.remove(guild_id));
        released
    }
}

/// A registry never holds two connections for one guild: the record found
/// under a guild is that guild's own.
pub proof fn lemma_registry_has_one_connection_per_guild(manager: ConnectionManager)
    ensures
        one_connection_per_guild(manager@),
{
}

/// Records filed by guild are one to a guild: two records that name the same
/// guild are the same entry.
pub proof fn lemma_one_connection_per_guild(
    connections: Map<u64, GuildVoiceConnection>,
    first: u64,
    second: u64,
)
    requires
        one_connection_per_guild(connections),
        connections.contains_key(first),
        connections.contains_key(second),
        connections[first].guild_id == connections[second].guild_id,
    ensures
        first == second,
{
}

/// No transition files a record under a guild other than its own, so a
/// registry that holds at most one connection per guild keeps doing so.
pub proof fn lemma_transitions_keep_one_per_guild(
    connections: Map<u64, GuildVoiceConnection>,
    guild_id: u64,
    channel_id: u64,
    joined: bool,
    handle: u64,
)
    requires
        one_connection_per_guild(connections),
    ensures
        one_connection_per_guild(Map::<u64, GuildVoiceConnection>::empty()),
        one_connection_per_guild(after_prepare(connections, guild_id, channel_id)),
        one_connection_per_guild(after_join(connections, guild_id, channel_id, joined)),
        one_connection_per_guild(after_playback(connections, guild_id, handle)),
        one_connection_per_guild(connections.remove(guild_id)),
{
}

/// Channel switch. A guild that occupies channel `from` and is asked into
/// another channel `to` first gives up its playback: the handle that was
/// streaming is the one reported for stopping, the guild is left connected and
/// silent, and whatever the join then answers, nothing plays until a new
/// playback is started.
pub proof fn lemma_switch_stops_playback_first(
    connections: Map<u64, GuildVoiceConnection>,
    guild_id: u64,
    from: u64,
    to: u64,
    joined: bool,
)
    requires
        connections.contains_key(guild_id),
        connections[guild_id].channel_id == from,
        to != from,
    ensures
        playback_to_stop(connections, guild_id, to) == connections[guild_id].playback_handle,
        state_in(after_prepare(connections, guild_id, to), guild_id) == (GuildState::Connected {
            channel_id: from,
        }),
        state_in(after_join(after_prepare(connections, guild_id, to), guild_id, to, joined), guild_id)
            == (GuildState::Connected { channel_id: if joined { to } else { from } }),
        state_in(after_join(connections, guild_id, to, true), guild_id) == (GuildState::Connected {
            channel_id: to,
        }),
{
}

/// Leave. Whatever the guild's state, leaving makes it absent, releases the
/// record it had, and from then on a request to play finds no connection and
/// changes nothing: only a successful join brings the guild back.
pub proof fn lemma_leave_makes_absent(
    connections: Map<u64, GuildVoiceConnection>,
    guild_id: u64,
    handle: u64,
    channel_id: u64,
)
    ensures
        state_in(connections.remove(guild_id), guild_id) == GuildState::Absent,
        state_in(connections, guild_id) != GuildState::Absent ==> released_by_leave(
            connections,
            guild_id,
        ) == Some(connections[guild_id]),
        playback_start_in(connections.remove(guild_id), guild_id) == PlaybackStart::NotConnected,
        after_playback(connections.remove(guild_id), guild_id, handle) == connections.remove(
            guild_id,
        ),
        after_prepare(connections.remove(guild_id), guild_id, channel_id) == connections.remove(
            guild_id,
        ),
        after_join(connections.remove(guild_id), guild_id, channel_id, false)
            == connections.remove(guild_id),
{
}

/// Join and playback. A successful join from the absent state connects the
/// guild silently, a failed one leaves it absent, and a playback started on a
/// connected guild makes it play in the channel it occupies.
pub proof fn lemma_join_then_play(
    connections: Map<u64, GuildVoiceConnection>,
    guild_id: u64,
    channel_id: u64,
    handle: u64,
)
    ensures
        !connections.contains_key(guild_id) ==> state_in(
            after_join(connections, guild_id, channel_id, true),
            guild_id,
        ) == (GuildState::Connected { channel_id }),
        !connections.contains_key(guild_id) ==> state_in(
            after_join(connections, guild_id, channel_id, false),
            guild_id,
        ) == GuildState::Absent,
        connections.contains_key(guild_id) ==> state_in(
            after_playback(connections, guild_id, handle),
            guild_id,
        ) == (GuildState::Playing { channel_id: connections[guild_id].channel_id }),
{
}

/// Guilds are independent: no transition of one guild changes another's state.
pub proof fn lemma_other_guilds_untouched(
    connections: Map<u64, GuildVoiceConnection>,
    guild_id: u64,
    other: u64,
    channel_id: u64,
    joined: bool,
    handle: u64,
)
    requires
        other != guild_id,
    ensures
        state_in(after_prepare(connections, guild_id, channel_id), other) == state_in(
            connections,
            other,
        ),
        state_in(after_join(connections, guild_id, channel_id, joined), other) == state_in(
            connections,
            other,
        ),
        state_in(after_playback(connections, guild_id, handle), other) == state_in(
            connections,
            other,
        ),
        state_in(connections.remove(guild_id), other) == state_in(connections, other),
{
}

} // verus!
