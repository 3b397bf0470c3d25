//! A media-presence bridge: classifies a player's playback state, parses
//! track metadata, maps it to a displayable activity, and models the
//! ordered, draining hand-off between the signal listener and the
//! presence-update actor.

pub mod activity;
pub mod channel;
pub mod event;
pub mod media;
pub mod pipeline;
pub mod playback;
pub mod shutdown;
