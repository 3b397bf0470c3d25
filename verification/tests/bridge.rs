use presence_bridge::activity::Activity;
use presence_bridge::channel::EventChannel;
use presence_bridge::event::{Action, PresenceEvent, decide_action, make_event};
use presence_bridge::media::{MediaInfo, TrackProperties};
use presence_bridge::pipeline::{PlayerSnapshot, drain_channel, listener_step, run_bridge,
    shutdown_and_drain};
use presence_bridge::playback::PlaybackStatus;
use presence_bridge::shutdown::{ShutdownController, SubscriptionToken};

fn song_props() -> TrackProperties {
    TrackProperties {
        title: Some("Song".to_owned()),
        album: Some("".to_owned()),
        artist: Some(vec!["Alice".to_owned(), "Bob".to_owned()]),
    }
}

fn playing_snapshot() -> PlayerSnapshot {
    PlayerSnapshot {
        status: Some("Playing".to_owned()),
        properties: Some(song_props()),
    }
}

#[test]
fn scenario_playing_track_sets_activity() {
    let event = listener_step(playing_snapshot()).unwrap();
    assert_eq!(
        event,
        PresenceEvent {
            metadata: Some(MediaInfo {
                title: "Song".to_owned(),
                artist: "Alice & Bob".to_owned(),
                album: "".to_owned(),
            }),
            status: PlaybackStatus::Playing,
        }
    );

    let action = decide_action(event);
    assert_eq!(
        action,
        Action::SetActivity(Activity {
            state: None,
            details: "Playing Alice & Bob - Song".to_owned(),
        })
    );
}

#[test]
fn scenario_stopped_clears_whatever_the_metadata() {
    let snapshot = PlayerSnapshot {
        status: Some("Stopped".to_owned()),
        properties: Some(song_props()),
    };
    let event = listener_step(snapshot).unwrap();
    assert!(event.metadata.is_none());
    assert_eq!(decide_action(event), Action::Clear);
}

#[test]
fn scenario_closed_player_clears() {
    let snapshot = PlayerSnapshot { status: None, properties: None };
    let event = listener_step(snapshot).unwrap();
    assert_eq!(event.status, PlaybackStatus::Closed);
    assert!(event.metadata.is_none());
    assert_eq!(decide_action(event), Action::Clear);
}

#[test]
fn paused_event_keeps_metadata_but_clears() {
    let snapshot = PlayerSnapshot {
        status: Some("Paused".to_owned()),
        properties: Some(song_props()),
    };
    let event = listener_step(snapshot).unwrap();
    assert!(event.metadata.is_some());
    assert_eq!(decide_action(event), Action::Clear);
}

#[test]
fn metadata_query_failure_yields_bare_event() {
    let snapshot = PlayerSnapshot { status: Some("Playing".to_owned()), properties: None };
    let event = listener_step(snapshot).unwrap();
    assert_eq!(event.status, PlaybackStatus::Playing);
    assert!(event.metadata.is_none());
    assert_eq!(decide_action(event), Action::Clear);
}

#[test]
fn channel_is_first_in_first_out() {
    let mut ch = EventChannel::new(4);
    let first = make_event(PlaybackStatus::Playing, Some(song_props()));
    let second = make_event(PlaybackStatus::Stopped, None);
    ch.send(first.clone());
    ch.send(second.clone());
    assert_eq!(ch.recv(), Some(first));
    assert_eq!(ch.recv(), Some(second));
    ch.close();
    assert_eq!(ch.recv(), None);
}

#[test]
fn channel_reports_backpressure_when_full() {
    let mut ch = EventChannel::new(1);
    assert!(ch.has_room());
    ch.send(make_event(PlaybackStatus::Closed, None));
    assert!(!ch.has_room());
}

#[test]
fn shutdown_hands_the_token_out_exactly_once() {
    let mut ctrl = ShutdownController::new(SubscriptionToken { id: 7 });
    assert!(ctrl.is_active());
    assert_eq!(ctrl.trigger(), Some(SubscriptionToken { id: 7 }));
    assert!(!ctrl.is_active());
    assert_eq!(ctrl.trigger(), None);
}

#[test]
fn shutdown_drains_every_queued_event_in_order() {
    let mut ch = EventChannel::new(8);
    ch.send(make_event(PlaybackStatus::Playing, Some(song_props())));
    ch.send(make_event(PlaybackStatus::Stopped, None));
    ch.send(make_event(PlaybackStatus::Closed, None));

    let mut ctrl = ShutdownController::new(SubscriptionToken { id: 3 });
    let (token, actions) = shutdown_and_drain(&mut ctrl, &mut ch);

    assert_eq!(token, Some(SubscriptionToken { id: 3 }));
    assert_eq!(ch.queued(), 0);
    assert_eq!(actions.len(), 3);
    assert!(matches!(actions[0], Action::SetActivity(_)));
    assert_eq!(actions[1], Action::Clear);
    assert_eq!(actions[2], Action::Clear);
}

#[test]
fn drain_of_empty_closed_channel_is_empty() {
    let mut ch = EventChannel::new(2);
    ch.close();
    let actions = drain_channel(&mut ch);
    assert!(actions.is_empty());
}

#[test]
fn bridge_pushes_actions_in_notification_order() {
    let snapshots = vec![
        playing_snapshot(),
        PlayerSnapshot { status: Some("Stopped".to_owned()), properties: None },
        PlayerSnapshot { status: None, properties: None },
    ];
    let actions = run_bridge(snapshots, 25).unwrap();
    assert_eq!(actions.len(), 3);
    assert_eq!(
        actions[0],
        Action::SetActivity(Activity {
            state: None,
            details: "Playing Alice & Bob - Song".to_owned(),
        })
    );
    assert_eq!(actions[1], Action::Clear);
    assert_eq!(actions[2], Action::Clear);
}

#[test]
fn repeated_identical_notifications_repeat_the_action() {
    let actions = run_bridge(vec![playing_snapshot(), playing_snapshot()], 25).unwrap();
    assert_eq!(actions.len(), 2);
    assert_eq!(actions[0], actions[1]);
}

#[test]
fn bridge_stops_on_unknown_status() {
    let snapshots = vec![
        playing_snapshot(),
        PlayerSnapshot { status: Some("Fish".to_owned()), properties: None },
    ];
    let err = run_bridge(snapshots, 25).unwrap_err();
    assert_eq!(err.raw, "Fish");
}

#[test]
fn album_reaches_the_activity_state_line() {
    let snapshot = PlayerSnapshot {
        status: Some("Playing".to_owned()),
        properties: Some(TrackProperties {
            title: Some("Song".to_owned()),
            album: Some("Album".to_owned()),
            artist: Some(vec!["Alice".to_owned()]),
        }),
    };
    let event = listener_step(snapshot).unwrap();
    match decide_action(event) {
        Action::SetActivity(activity) => {
            assert_eq!(activity.state, Some("From Album".to_owned()));
            assert_eq!(activity.details, "Playing Alice - Song");
        }
        Action::Clear => panic!("expected an activity"),
    }
}

#[test]
fn all_absent_metadata_while_playing_clears() {
    let snapshot = PlayerSnapshot {
        status: Some("Playing".to_owned()),
        properties: Some(TrackProperties { title: None, album: None, artist: None }),
    };
    let event = listener_step(snapshot).unwrap();
    assert!(event.metadata.is_none());
    assert_eq!(decide_action(event), Action::Clear);
}
