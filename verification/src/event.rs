//! The unit passed from the signal listener to the presence actor, and the
//! actor's decision on each unit.

use vstd::prelude::*;
use crate::activity::{Activity, ActivityView, activity_of};
use crate::media::{MediaInfo, MediaInfoView, TrackProperties, TrackPropertiesView, all_absent,
    media_of, parse_metadata};
use crate::playback::PlaybackStatus;

verus! {

/// One unit of the listener-to-actor hand-off. Invariant (established by
/// `make_event`): `metadata` is present only when `status` is `Playing` or
/// `Paused` and the metadata parse succeeded.
#[derive(Debug, Clone, PartialEq)]
pub struct PresenceEvent {
    pub metadata: Option<MediaInfo>,
    pub status: PlaybackStatus,
}

/// Mathematical model of `PresenceEvent`.
pub ghost struct PresenceEventView {
    pub metadata: Option<MediaInfoView>,
    pub status: PlaybackStatus,
}

impl View for PresenceEvent {
    type V = PresenceEventView;

    open spec fn view(&self) -> PresenceEventView {
        PresenceEventView { metadata: self.metadata.deep_view(), status: self.status }
    }
}

impl DeepView for PresenceEvent {
    type V = PresenceEventView;

    open spec fn deep_view(&self) -> PresenceEventView {
        self.view()
    }
}

/// The event invariant: metadata rides along only with an actively playing
/// or paused player.
pub open spec fn wf_event(e: PresenceEventView) -> bool {
    e.metadata is Some ==> (e.status == PlaybackStatus::Playing || e.status
        == PlaybackStatus::Paused)
}

/// The event emitted for a classified status and the (optional) property
/// bag the metadata query yielded: the bag contributes metadata only when
/// the status warrants display and the bag reported at least one property.
pub open spec fn event_of(status: PlaybackStatus, props: Option<TrackPropertiesView>)
    -> PresenceEventView {
    PresenceEventView {
        status,
        metadata: if status == PlaybackStatus::Playing || status == PlaybackStatus::Paused {
            match props {
                Some(p) => if all_absent(p) {
                    None
                } else {
                    Some(media_of(p))
                },
                None => None,
            }
        } else {
            None
        },
    }
}

/// Builds the one event emitted per notification. `props` is `None` when
/// the metadata query failed or was skipped; the result always satisfies
/// the event invariant.
pub fn make_event(status: PlaybackStatus, props: Option<TrackProperties>) -> (r: PresenceEvent)
    ensures
        r@ == event_of(status, props.deep_view()),
        wf_event(r@),
{
    let metadata: Option<MediaInfo> = if status.wants_metadata() {
        match props {
            Some(p) => parse_metadata(p),
            None => None,
        }
    } else {
        None
    };
    PresenceEvent { metadata, status }
}

/// What the actor pushes to the presence service for one event: set the
/// given activity, or clear the shown presence.
#[derive(Debug, Clone, PartialEq)]
pub enum Action {
    SetActivity(Activity),
    Clear,
}

/// Mathematical model of `Action`.
pub ghost enum ActionView {
    SetActivity(ActivityView),
    Clear,
}

impl View for Action {
    type V = ActionView;

    open spec fn view(&self) -> ActionView {
        match self {
            Action::SetActivity(a) => ActionView::SetActivity(a@),
            Action::Clear => ActionView::Clear,
        }
    }
}

impl DeepView for Action {
    type V = ActionView;

    open spec fn deep_view(&self) -> ActionView {
        self.view()
    }
}

/// The action owed for an event: set the mapped activity exactly when
/// metadata is present and the player is playing; clear otherwise.
pub open spec fn action_of(e: PresenceEventView) -> ActionView {
    match e.metadata {
        Some(m) => if e.status == PlaybackStatus::Playing {
            ActionView::SetActivity(activity_of(m))
        } else {
            ActionView::Clear
        },
        None => ActionView::Clear,
    }
}

/// The actor's per-event decision.
pub fn decide_action(event: PresenceEvent) -> (r: Action)
    ensures
        r@ == action_of(event@),
{
    match event.metadata {
        Some(mi) => match event.status {
            PlaybackStatus::Playing => Action::SetActivity(Activity::from_media(mi)),
            _ => Action::Clear,
        },
        None => Action::Clear,
    }
}

} // verus!
