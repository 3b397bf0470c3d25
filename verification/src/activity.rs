//! Mapping of track metadata to the two-line presentable activity.

use vstd::prelude::*;
use crate::media::{MediaInfo, MediaInfoView};

verus! {

/// The presentable form pushed to the presence service: a headline
/// (`details`) and an optional sub-line (`state`).
#[derive(Debug, Clone, PartialEq)]
pub struct Activity {
    /// The optional sub-line, present exactly when the track's album is
    /// known and non-empty.
    pub state: Option<String>,
    /// The headline.
    pub details: String,
}

/// Mathematical model of `Activity`.
pub ghost struct ActivityView {
    pub state: Option<Seq<char>>,
    pub details: Seq<char>,
}

impl View for Activity {
    type V = ActivityView;

    open spec fn view(&self) -> ActivityView {
        ActivityView { state: self.state.deep_view(), details: self.details@ }
    }
}

impl DeepView for Activity {
    type V = ActivityView;

    open spec fn deep_view(&self) -> ActivityView {
        self.view()
    }
}

/// The activity derived from a track: headline
/// `"Playing {artist} - {title}"` always; sub-line `"From {album}"` exactly
/// when the album is non-empty.
pub open spec fn activity_of(m: MediaInfoView) -> ActivityView {
    ActivityView {
        details: "Playing "@ + m.artist + " - "@ + m.title,
        state: if m.album.len() == 0 {
            None
        } else {
            Some("From "@ + m.album)
        },
    }
}

impl Activity {
    /// Maps a track to its presentable activity. Pure and total: every
    /// track yields an activity, with the sub-line present exactly when the
    /// album is non-empty.
    pub fn from_media(mi: MediaInfo) -> (r: Activity)
        ensures
            r@ == activity_of(mi@),
    {
        let mut details = String::from_str("Playing ");
        details.append(mi.artist.as_str());
        details.append(" - ");
        details.append(mi.title.as_str());
        let state: Option<String> = if mi.album.as_str().is_empty() {
            None
        } else {
            Some(String::from_str("From ").concat(mi.album.as_str()))
        };
        Activity { state, details }
    }
}

} // verus!
