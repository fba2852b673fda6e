//! Presence-triggered voice announcer: the decision logic that turns
//! voice-state changes into voice-connection and playback actions.

pub mod announce;
pub mod asset;
pub mod dispatch;
pub mod event;
pub mod failure;
pub mod manager;
pub mod resolver;
