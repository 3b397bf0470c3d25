//! Classification of a player's raw playback-status string into the closed
//! vocabulary of playback states.

use vstd::prelude::*;

verus! {

/// The exhaustive set of playback states. `Closed` means the player exposed
/// no status at all (not running, or not answering).
#[derive(Debug, Clone, Copy, PartialEq, Eq, Structural)]
pub enum PlaybackStatus {
    Stopped,
    Playing,
    Paused,
    Closed,
}

/// A raw status string outside the closed vocabulary. The vocabulary is
/// deliberately closed: an unknown value is an assumption violation that the
/// caller must surface, never silently coerce.
#[derive(Debug)]
pub struct StatusError {
    /// The unrecognized raw status string.
    pub raw: String,
}

/// What an optional raw status string classifies to: `None` means the raw
/// value lies outside the closed vocabulary.
pub open spec fn classify_spec(raw: Option<Seq<char>>) -> Option<PlaybackStatus> {
    match raw {
        None => Some(PlaybackStatus::Closed),
        Some(s) => if s == "Paused"@ {
            Some(PlaybackStatus::Paused)
        } else if s == "Playing"@ {
            Some(PlaybackStatus::Playing)
        } else if s == "Stopped"@ {
            Some(PlaybackStatus::Stopped)
        } else {
            None
        },
    }
}

/// Classifies an optional raw status string. Absence means the player is
/// closed; the three known strings map to their states; anything else is a
/// classification error carrying the offending string.
pub fn parse_playback(playback: Option<String>) -> (r: Result<PlaybackStatus, StatusError>)
    ensures
        match r {
            Ok(status) => classify_spec(playback.deep_view()) == Some(status),
            Err(e) => ({
                &&& classify_spec(playback.deep_view()) is None
                &&& playback matches Some(s) && e.raw@ == s@
            }),
        },
{
    match playback {
        None => Ok(PlaybackStatus::Closed),
        Some(s) => {
            if s == String::from_str("Paused") {
                Ok(PlaybackStatus::Paused)
            } else if s == String::from_str("Playing") {
                Ok(PlaybackStatus::Playing)
            } else if s == String::from_str("Stopped") {
                Ok(PlaybackStatus::Stopped)
            } else {
                Err(StatusError { raw: s })
            }
        },
    }
}

impl PlaybackStatus {
    /// Whether the listener should go on to query track metadata for this
    /// state: only an actively playing or paused player has a track to show.
    pub fn wants_metadata(&self) -> (r: bool)
        ensures
            r == (*self == PlaybackStatus::Playing || *self == PlaybackStatus::Paused),
    {
        match self {
            PlaybackStatus::Playing | PlaybackStatus::Paused => true,
            _ => false,
        }
    }
}

} // verus!
