use announcer::manager::{ConnectionManager, GuildState, GuildVoiceConnection, PlaybackStart};

#[test]
fn new_registry_has_every_guild_absent() {
    let manager = ConnectionManager::new();
    assert_eq!(manager.state(0), GuildState::Absent);
    assert_eq!(manager.state(u64::MAX), GuildState::Absent);
    assert_eq!(manager.get_connection(1), None);
}

#[test]
fn join_from_absent_connects() {
    let mut manager = ConnectionManager::new();
    assert_eq!(manager.prepare_join(1, 10), None);
    assert_eq!(manager.state(1), GuildState::Absent);
    manager.complete_join(1, 10, true);
    assert_eq!(manager.state(1), GuildState::Connected { channel_id: 10 });
    assert_eq!(
        manager.get_connection(1),
        Some(GuildVoiceConnection { guild_id: 1, channel_id: 10, playback_handle: None })
    );
}

#[test]
fn failed_join_leaves_guild_absent() {
    let mut manager = ConnectionManager::new();
    assert_eq!(manager.prepare_join(1, 10), None);
    manager.complete_join(1, 10, false);
    assert_eq!(manager.state(1), GuildState::Absent);
}

#[test]
fn playback_starts_on_connected_guild() {
    let mut manager = ConnectionManager::new();
    manager.complete_join(1, 10, true);
    assert_eq!(manager.start_playback(1, 42), PlaybackStart::Started { superseded: None });
    assert_eq!(manager.state(1), GuildState::Playing { channel_id: 10 });
    assert_eq!(
        manager.get_connection(1),
        Some(GuildVoiceConnection { guild_id: 1, channel_id: 10, playback_handle: Some(42) })
    );
}

#[test]
fn new_playback_supersedes_the_old() {
    let mut manager = ConnectionManager::new();
    manager.complete_join(1, 10, true);
    manager.start_playback(1, 42);
    assert_eq!(manager.start_playback(1, 43), PlaybackStart::Started { superseded: Some(42) });
    assert_eq!(
        manager.get_connection(1),
        Some(GuildVoiceConnection { guild_id: 1, channel_id: 10, playback_handle: Some(43) })
    );
}

#[test]
fn playback_without_connection_plays_nothing() {
    let mut manager = ConnectionManager::new();
    assert_eq!(manager.start_playback(1, 42), PlaybackStart::NotConnected);
    assert_eq!(manager.state(1), GuildState::Absent);
}

#[test]
fn channel_switch_stops_playback_before_join() {
    let mut manager = ConnectionManager::new();
    manager.complete_join(1, 10, true);
    manager.start_playback(1, 42);
    assert_eq!(manager.prepare_join(1, 11), Some(42));
    assert_eq!(manager.state(1), GuildState::Connected { channel_id: 10 });
    manager.complete_join(1, 11, true);
    assert_eq!(manager.state(1), GuildState::Connected { channel_id: 11 });
    assert_eq!(manager.start_playback(1, 43), PlaybackStart::Started { superseded: None });
    assert_eq!(manager.state(1), GuildState::Playing { channel_id: 11 });
}

#[test]
fn channel_switch_with_failed_join_stays_silent_in_old_channel() {
    let mut manager = ConnectionManager::new();
    manager.complete_join(1, 10, true);
    manager.start_playback(1, 42);
    assert_eq!(manager.prepare_join(1, 11), Some(42));
    manager.complete_join(1, 11, false);
    assert_eq!(manager.state(1), GuildState::Connected { channel_id: 10 });
}

#[test]
fn rejoining_same_channel_keeps_playback() {
    let mut manager = ConnectionManager::new();
    manager.complete_join(1, 10, true);
    manager.start_playback(1, 42);
    assert_eq!(manager.prepare_join(1, 10), None);
    assert_eq!(manager.state(1), GuildState::Playing { channel_id: 10 });
    manager.complete_join(1, 10, true);
    assert_eq!(manager.state(1), GuildState::Playing { channel_id: 10 });
}

#[test]
fn switch_of_silent_connection_stops_nothing() {
    let mut manager = ConnectionManager::new();
    manager.complete_join(1, 10, true);
    assert_eq!(manager.prepare_join(1, 11), None);
    manager.complete_join(1, 11, true);
    assert_eq!(manager.state(1), GuildState::Connected { channel_id: 11 });
}

#[test]
fn join_without_prepare_carries_no_playback_to_new_channel() {
    let mut manager = ConnectionManager::new();
    manager.complete_join(1, 10, true);
    manager.start_playback(1, 42);
    manager.complete_join(1, 11, true);
    assert_eq!(manager.state(1), GuildState::Connected { channel_id: 11 });
}

#[test]
fn leave_while_playing_makes_absent() {
    let mut manager = ConnectionManager::new();
    manager.complete_join(1, 10, true);
    manager.start_playback(1, 42);
    assert_eq!(
        manager.leave(1),
        Some(GuildVoiceConnection { guild_id: 1, channel_id: 10, playback_handle: Some(42) })
    );
    assert_eq!(manager.state(1), GuildState::Absent);
    assert_eq!(manager.start_playback(1, 43), PlaybackStart::NotConnected);
    assert_eq!(manager.state(1), GuildState::Absent);
    manager.complete_join(1, 10, true);
    assert_eq!(manager.start_playback(1, 44), PlaybackStart::Started { superseded: None });
    assert_eq!(manager.state(1), GuildState::Playing { channel_id: 10 });
}

#[test]
fn leave_of_absent_guild_releases_nothing() {
    let mut manager = ConnectionManager::new();
    assert_eq!(manager.leave(1), None);
    assert_eq!(manager.state(1), GuildState::Absent);
}

#[test]
fn one_connection_per_guild() {
    let mut manager = ConnectionManager::new();
    manager.complete_join(1, 10, true);
    manager.complete_join(1, 11, true);
    manager.complete_join(1, 12, true);
    assert_eq!(
        manager.get_connection(1),
        Some(GuildVoiceConnection { guild_id: 1, channel_id: 12, playback_handle: None })
    );
    assert_eq!(manager.leave(1).map(|c| c.channel_id), Some(12));
    assert_eq!(manager.get_connection(1), None);
    assert_eq!(manager.leave(1), None);
}

#[test]
fn guilds_are_independent() {
    let mut manager = ConnectionManager::new();
    manager.complete_join(1, 10, true);
    manager.start_playback(1, 42);
    manager.complete_join(2, 20, true);
    assert_eq!(manager.prepare_join(2, 21), None);
    manager.complete_join(2, 21, true);
    manager.start_playback(2, 43);
    assert_eq!(manager.state(1), GuildState::Playing { channel_id: 10 });
    assert_eq!(manager.leave(2).map(|c| c.guild_id), Some(2));
    assert_eq!(manager.state(1), GuildState::Playing { channel_id: 10 });
    assert_eq!(manager.state(2), GuildState::Absent);
}
