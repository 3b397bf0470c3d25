//! The signal-driven pipeline: the listener's per-notification step, the
//! shutdown protocol, the actor's drain, and the ordering laws that tie
//! them together.

use vstd::prelude::*;
use crate::channel::EventChannel;
use crate::event::{Action, ActionView, PresenceEvent, PresenceEventView, action_of, decide_action,
    event_of, make_event, wf_event};
use crate::media::{TrackProperties, TrackPropertiesView};
use crate::playback::{StatusError, classify_spec, parse_playback};
use crate::shutdown::{Phase, ShutdownController, SubscriptionToken};

verus! {

/// What one notification's two sequential queries yielded: the raw playback
/// status (`None` when the query failed or the property was absent) and the
/// reduced property bag (`None` when the metadata query failed, was
/// skipped, or returned nothing usable).
pub struct PlayerSnapshot {
    pub status: Option<String>,
    pub properties: Option<TrackProperties>,
}

/// Mathematical model of `PlayerSnapshot`.
pub ghost struct PlayerSnapshotView {
    pub status: Option<Seq<char>>,
    pub properties: Option<TrackPropertiesView>,
}

impl View for PlayerSnapshot {
    type V = PlayerSnapshotView;

    open spec fn view(&self) -> PlayerSnapshotView {
        PlayerSnapshotView {
            status: self.status.deep_view(),
            properties: self.properties.deep_view(),
        }
    }
}

impl DeepView for PlayerSnapshot {
    type V = PlayerSnapshotView;

    open spec fn deep_view(&self) -> PlayerSnapshotView {
        self.view()
    }
}

/// The event owed for one snapshot, or `None` when the raw status lies
/// outside the closed vocabulary (the fatal classification error).
pub open spec fn step_spec(s: PlayerSnapshotView) -> Option<PresenceEventView> {
    match classify_spec(s.status) {
        Some(status) => Some(event_of(status, s.properties)),
        None => None,
    }
}

/// The listener's work for one notification, after the two queries: turn
/// the snapshot into the one event to emit, or surface the fatal
/// classification error.
pub fn listener_step(snapshot: PlayerSnapshot) -> (r: Result<PresenceEvent, StatusError>)
    ensures
        r matches Ok(e) ==> step_spec(snapshot@) == Some(e@) && wf_event(e@),
        r matches Err(err) ==> ({
            &&& step_spec(snapshot@) is None
            &&& snapshot@.status == Some(err.raw@)
        }),
{
    let PlayerSnapshot { status, properties } = snapshot;
    match parse_playback(status) {
        Ok(st) => Ok(make_event(st, properties)),
        Err(err) => Err(err),
    }
}

/// Whether every snapshot in the run classifies (no fatal error).
pub open spec fn all_classify(snaps: Seq<PlayerSnapshotView>) -> bool {
    forall|i: int| 0 <= i < snaps.len() ==> step_spec(snaps[i]) is Some
}

/// The events a run of snapshots emits, in notification order.
pub open spec fn events_of(snaps: Seq<PlayerSnapshotView>) -> Seq<PresenceEventView> {
    snaps.map_values(|s: PlayerSnapshotView| step_spec(s)->Some_0)
}

/// The actions a run of events owes, in arrival order.
pub open spec fn actions_of(events: Seq<PresenceEventView>) -> Seq<ActionView> {
    events.map_values(|e: PresenceEventView| action_of(e))
}

/// Ordering law: the pipeline neither drops, duplicates nor reorders — the
/// i-th action pushed to the presence service is exactly the action owed
/// for the i-th notification received.
pub proof fn lemma_pipeline_preserves_order(snaps: Seq<PlayerSnapshotView>)
    requires
        all_classify(snaps),
    ensures
        events_of(snaps).len() == snaps.len(),
        actions_of(events_of(snaps)).len() == snaps.len(),
        forall|i: int| 0 <= i < snaps.len() ==> events_of(snaps)[i] == step_spec(snaps[i])->Some_0,
        forall|i: int| 0 <= i < snaps.len() ==> actions_of(events_of(snaps))[i] == action_of(
            step_spec(snaps[i])->Some_0),
{
}

/// Idempotence law: the event for a notification depends on the queried
/// player state alone, so two notifications that find the player unchanged
/// yield identical events, wherever they stand in the run.
pub proof fn lemma_repeated_snapshot_same_event(snaps: Seq<PlayerSnapshotView>, i: int, j: int)
    requires
        0 <= i < snaps.len(),
        0 <= j < snaps.len(),
        snaps[i] == snaps[j],
    ensures
        events_of(snaps)[i] == events_of(snaps)[j],
{
}

/// The actor's drain: consumes a closed channel to the end, deciding each
/// queued event in arrival order. Nothing queued at close time is dropped:
/// every event yields exactly its owed action, oldest first, and the
/// channel ends empty.
pub fn drain_channel(ch: &mut EventChannel) -> (r: Vec<Action>)
    requires
        old(ch).wf(),
        old(ch).closed,
    ensures
        final(ch).wf(),
        final(ch).closed,
        final(ch).pending().len() == 0,
        r.deep_view() =~= actions_of(old(ch).pending()),
{
    let mut actions: Vec<Action> = Vec::new();
    while ch.queued() > 0
        invariant
            ch.wf(),
            ch.closed,
            actions@.len() <= old(ch).pending().len(),
            ch.pending() =~= old(ch).pending().skip(actions@.len() as int),
            actions.deep_view() =~= actions_of(old(ch).pending().take(actions@.len() as int)),
        decreases ch.pending().len(),
    {
        let ghost done = actions@.len() as int;
        let ghost queued = old(ch).pending();
        let event = match ch.recv() {
            Some(event) => event,
            None => unreached(),
        };
        proof {
            assert(event@ == queued[done]);
            assert(queued.skip(done).drop_first() =~= queued.skip(done + 1));
        }
        let action = decide_action(event);
        actions.push(action);
        proof {
            assert(queued.take(done + 1) =~= queued.take(done).push(queued[done]));
            assert(actions_of(queued.take(done + 1)) =~= actions_of(queued.take(done)).push(
                action_of(queued[done])));
            assert(actions.deep_view() =~= actions_of(queued.take(done + 1)));
        }
    }
    proof {
        assert(old(ch).pending().take(actions@.len() as int) =~= old(ch).pending());
    }
    actions
}

/// Shutdown law: triggering a shutdown stops the intake (the subscription
/// token comes back for the unsubscribe, the channel closes), yet every
/// event already queued is still delivered to the presence service, in
/// order — nothing is silently dropped.
pub fn shutdown_and_drain(ctrl: &mut ShutdownController, ch: &mut EventChannel) -> (r: (
    Option<SubscriptionToken>,
    Vec<Action>,
))
    requires
        old(ctrl).wf(),
        old(ch).wf(),
    ensures
        final(ctrl).wf(),
        final(ctrl).phase == Phase::Draining,
        r.0 == old(ctrl).subscription,
        r.0 is Some <==> old(ctrl).phase == Phase::Active,
        final(ch).wf(),
        final(ch).closed,
        final(ch).pending().len() == 0,
        r.1.deep_view() =~= actions_of(old(ch).pending()),
{
    let token = ctrl.trigger();
    ch.close();
    let actions = drain_channel(ch);
    (token, actions)
}

/// One complete run of the bridge over the snapshots that a series of
/// notifications yielded, through the bounded channel: each snapshot is
/// classified, turned into its one event, sent, received, and decided, in
/// notification order. Returns the pushed actions, or the first fatal
/// classification error.
pub fn run_bridge(snapshots: Vec<PlayerSnapshot>, capacity: usize) -> (r: Result<
    Vec<Action>,
    StatusError,
>)
    requires
        capacity >= 1,
    ensures
        r matches Ok(actions) ==> ({
            &&& all_classify(snapshots.deep_view())
            &&& actions.deep_view() =~= actions_of(events_of(snapshots.deep_view()))
            &&& actions@.len() == snapshots@.len()
        }),
        r is Err <==> !all_classify(snapshots.deep_view()),
        r matches Err(err) ==> exists|i: int|
            0 <= i < snapshots.deep_view().len() && step_spec(
                #[trigger] snapshots.deep_view()[i],
            ) is None && snapshots.deep_view()[i].status == Some(err.raw@),
{
    let ghost snaps = snapshots.deep_view();
    let mut rest = snapshots;
    let mut ch = EventChannel::new(capacity);
    let mut actions: Vec<Action> = Vec::new();
    while rest.len() > 0
        invariant
            snaps == snapshots.deep_view(),
            ch.wf(),
            !ch.closed,
            ch.pending().len() == 0,
            actions@.len() + rest@.len() == snaps.len(),
            rest.deep_view() =~= snaps.skip(actions@.len() as int),
            all_classify(snaps.take(actions@.len() as int)),
            actions.deep_view() =~= actions_of(events_of(snaps.take(actions@.len() as int))),
        decreases rest@.len(),
    {
        let ghost done = actions@.len() as int;
        let ghost rest_pre = rest@;
        let ghost restdv_pre = rest.deep_view();
        let snap = rest.remove(0);
        proof {
            assert(snap@ == restdv_pre[0]);
            assert(snap@ == snaps[done]);
            assert forall|k: int| 0 <= k < rest@.len() implies #[trigger] rest.deep_view()[k]
                == snaps.skip(done + 1)[k] by {
                assert(rest@[k] == rest_pre[k + 1]);
                assert(rest.deep_view()[k] == rest@[k].deep_view());
                assert(restdv_pre[k + 1] == rest_pre[k + 1].deep_view());
                assert(restdv_pre[k + 1] == snaps.skip(done)[k + 1]);
            }
            assert(rest.deep_view() =~= snaps.skip(done + 1));
        }
        match listener_step(snap) {
            Ok(event) => {
                ch.send(event);
                let got = match ch.recv() {
                    Some(e) => e,
                    None => unreached(),
                };
                let action = decide_action(got);
                actions.push(action);
                proof {
                    assert(snaps.take(done + 1) =~= snaps.take(done).push(snaps[done]));
                    assert forall|k: int| 0 <= k < done + 1 implies step_spec(
                        #[trigger] snaps.take(done + 1)[k],
                    ) is Some by {
                        if k < done {
                            assert(snaps.take(done + 1)[k] == snaps.take(done)[k]);
                            assert(step_spec(snaps.take(done)[k]) is Some);
                        } else {
                            assert(snaps.take(done + 1)[k] == snaps[done]);
                        }
                    }
                    assert(events_of(snaps.take(done + 1)) =~= events_of(snaps.take(done)).push(
                        event@));
                    assert(actions_of(events_of(snaps.take(done + 1))) =~= actions_of(events_of(
                        snaps.take(done))).push(action_of(event@)));
                    assert(actions.deep_view() =~= actions_of(events_of(snaps.take(done + 1))));
                }
            },
            Err(err) => {
                proof {
                    assert(step_spec(snaps[done]) is None);
                    assert(snaps[done].status == Some(err.raw@));
                    assert(!all_classify(snaps));
                }
                return Err(err);
            },
        }
    }
    proof {
        assert(snaps.take(actions@.len() as int) =~= snaps);
    }
    Ok(actions)
}

} // verus!
