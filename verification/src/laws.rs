//! What holds of every simulation, whatever events reach it.

use vstd::prelude::*;
use crate::body::{Body, Motion, Vector2};
use crate::model::{all_have_mass, lemma_first_hit_missing, settle_all, EventView, StateView};

verus! {

/// The event samples the run/pause control.
pub open spec fn is_toggle_sample(event: EventView) -> bool {
    event is ToggleRun
}

/// The event is one that a tick without interaction delivers: the run/pause
/// control sampled inactive, the pointer up, or the outcome of a physics
/// step.
pub open spec fn is_idle(event: EventView) -> bool {
    match event {
        EventView::ToggleRun { active } => !active,
        EventView::PointerUp => true,
        EventView::Advance { .. } => true,
        _ => false,
    }
}

/// The bodies that a reset restores after `events`: those of the last load
/// that was accepted, settled, or `start` if there was none.
pub open spec fn last_loaded(start: Seq<Body>, events: Seq<EventView>) -> Seq<Body>
    decreases events.len(),
{
    if events.len() == 0 {
        start
    } else {
        match events.last() {
            EventView::Load { document: Some(bodies) } if all_have_mass(bodies) => settle_all(
                bodies,
            ),
            _ => last_loaded(start, events.drop_last()),
        }
    }
}

/// No event breaks the invariant: the bodies stay at rest, and a selection
/// always names a live body.
pub proof fn law_event_keeps_wf(s: StateView, event: EventView)
    requires
        s.wf(),
    ensures
        s.after(event).wf(),
{
}

/// No sequence of events breaks the invariant.
pub proof fn law_events_keep_wf(s: StateView, events: Seq<EventView>)
    requires
        s.wf(),
    ensures
        s.after_all(events).wf(),
    decreases events.len(),
{
    if events.len() > 0 {
        law_events_keep_wf(s, events.drop_last());
        law_event_keeps_wf(s.after_all(events.drop_last()), events.last());
    }
}

/// An event that does not take effect leaves the simulation as it was.
pub proof fn law_refused_event_changes_nothing(s: StateView, event: EventView)
    requires
        !s.admits(event),
    ensures
        s.after(event) == s,
{
}

/// Running and paused simulations take every interaction signal alike: only
/// a physics step looks at the running flag.
pub proof fn law_signals_ignore_running(s: StateView, event: EventView)
    requires
        !(event is Advance),
    ensures
        (StateView { running: !s.running, ..s }).after(event) == (StateView {
            running: !s.after(event).running,
            ..s.after(event)
        }),
{
}

/// A pointer that comes down on no body, with nothing selected, changes
/// nothing.
pub proof fn law_missed_pointer_changes_nothing(s: StateView, point: Vector2, hits: Seq<bool>)
    requires
        s.selected is None,
        forall|i: int| 0 <= i < s.bodies.len() && i < hits.len() ==> !hits[i],
    ensures
        s.pointer_down(point, hits) == s,
{
    lemma_first_hit_missing(hits, s.bodies.len());
}

/// An accepted load leaves the live bodies and the snapshot equal: what a
/// reset restores is what was present right after the load.
pub proof fn law_load_sets_snapshot(s: StateView, bodies: Seq<Body>)
    requires
        all_have_mass(bodies),
    ensures
        s.loaded(Some(bodies)).bodies == settle_all(bodies),
        s.loaded(Some(bodies)).initial_bodies == s.loaded(Some(bodies)).bodies,
{
}

/// After any events, a reset yields the bodies that were present right
/// after the last accepted load, or at the start if nothing was loaded
/// since.
pub proof fn law_reset_restores_last_load(s: StateView, events: Seq<EventView>)
    ensures
        s.after_all(events).initial_bodies == last_loaded(s.initial_bodies, events),
        s.after_all(events).reset().bodies == last_loaded(s.initial_bodies, events),
    decreases events.len(),
{
    if events.len() > 0 {
        law_reset_restores_last_load(s, events.drop_last());
    }
}

/// A reset right after a reset changes nothing.
pub proof fn law_reset_is_idempotent(s: StateView)
    ensures
        s.reset().reset() == s.reset(),
{
}

/// While the simulation is paused and no interaction signal arrives, the
/// live bodies stay exactly as they are, however many ticks pass and
/// whatever the physics steps propose.
pub proof fn law_pause_freezes_bodies(s: StateView, events: Seq<EventView>)
    requires
        !s.running,
        forall|i: int| 0 <= i < events.len() ==> is_idle(#[trigger] events[i]),
    ensures
        s.after_all(events).bodies == s.bodies,
        s.after_all(events).initial_bodies == s.initial_bodies,
        !s.after_all(events).running,
    decreases events.len(),
{
    if events.len() > 0 {
        let earlier = events.drop_last();
        assert forall|i: int| 0 <= i < earlier.len() implies is_idle(#[trigger] earlier[i]) by {
            assert(earlier[i] == events[i]);
        }
        law_pause_freezes_bodies(s, earlier);
        assert(is_idle(events[events.len() - 1]));
    }
}

/// A drag puts the selected body at the pointer and stops it, and touches
/// no other body.
pub proof fn law_drag_overrides_motion(s: StateView, point: Vector2, hits: Seq<bool>, k: int)
    requires
        s.wf(),
        s.selected == Some(k),
    ensures
        s.pointer_down(point, hits) == s.pointer_held(point),
        s.pointer_held(point).bodies.len() == s.bodies.len(),
        s.pointer_held(point).bodies[k].pos == point,
        s.pointer_held(point).bodies[k].vel == Vector2::zero(),
        s.pointer_held(point).selected == Some(k),
        forall|i: int|
            0 <= i < s.bodies.len() && i != k ==> s.pointer_held(point).bodies[i] == s.bodies[i],
{
}

/// A tick that delivers the pointer at `point` while body `k` is selected
/// ends with that body exactly at `point`, at rest and still selected,
/// whether or not the physics step of the tick is taken and whatever it
/// proposes.
pub proof fn law_drag_holds_through_tick(
    s: StateView,
    point: Vector2,
    hits: Seq<bool>,
    moved: Seq<Motion>,
    k: int,
)
    requires
        s.wf(),
        s.selected == Some(k),
    ensures
        s.pointer_down(point, hits).advanced(moved).bodies[k].pos == point,
        s.pointer_down(point, hits).advanced(moved).bodies[k].vel == Vector2::zero(),
        s.pointer_down(point, hits).advanced(moved).selected == Some(k),
        s.pointer_held(point).advanced(moved).bodies[k].pos == point,
        s.pointer_held(point).advanced(moved).bodies[k].vel == Vector2::zero(),
        s.pointer_held(point).advanced(moved).selected == Some(k),
{
}

/// A step that is taken moves every body but the selected one as the step
/// proposes, and leaves the selected one where it is, stopped.
pub proof fn law_step_spares_held_body(s: StateView, moved: Seq<Motion>, i: int)
    requires
        s.accepts(moved),
        0 <= i < s.bodies.len(),
    ensures
        s.selected == Some(i) ==> s.advanced(moved).bodies[i] == s.bodies[i].held_at(
            s.bodies[i].pos,
        ),
        s.selected != Some(i) ==> s.advanced(moved).bodies[i] == s.bodies[i].moved(moved[i]),
{
}

/// While the run/pause control stays active, running flips at most once:
/// on the first sample if the control was not active before, and never if
/// it was. Events that do not sample the control change neither running nor
/// the latch.
pub proof fn law_toggle_fires_once(s: StateView, events: Seq<EventView>)
    requires
        forall|i: int|
            0 <= i < events.len() ==> ((#[trigger] events[i]) matches EventView::ToggleRun {
                active,
            } ==> active),
    ensures
        ({
            let t = s.after_all(events);
            let sampled = exists|i: int| 0 <= i < events.len() && is_toggle_sample(events[i]);
            if sampled {
                t.toggle_held && t.running == (if s.toggle_held {
                    s.running
                } else {
                    !s.running
                })
            } else {
                t.toggle_held == s.toggle_held && t.running == s.running
            }
        }),
    decreases events.len(),
{
    if events.len() > 0 {
        let earlier = events.drop_last();
        let last = events.last();
        assert forall|i: int| 0 <= i < earlier.len() implies ((#[trigger] earlier[i])
            matches EventView::ToggleRun { active } ==> active) by {
            assert(earlier[i] == events[i]);
        }
        law_toggle_fires_once(s, earlier);
        let sampled_earlier = exists|i: int|
            0 <= i < earlier.len() && is_toggle_sample(earlier[i]);
        let sampled = exists|i: int| 0 <= i < events.len() && is_toggle_sample(events[i]);
        if sampled_earlier {
            let i = choose|i: int| 0 <= i < earlier.len() && is_toggle_sample(earlier[i]);
            assert(is_toggle_sample(events[i]));
        }
        if is_toggle_sample(last) {
            assert(is_toggle_sample(events[events.len() - 1]));
        }
        if sampled && !sampled_earlier {
            let i = choose|i: int| 0 <= i < events.len() && is_toggle_sample(events[i]);
            if i < earlier.len() {
                assert(is_toggle_sample(earlier[i]));
            }
        }
    }
}

/// A control held active over `n` consecutive samples, `n` at least one,
/// flips running exactly once if it was not active before.
pub proof fn law_held_toggle_flips_once(s: StateView, n: nat)
    requires
        !s.toggle_held,
        n >= 1,
    ensures
        s.after_all(Seq::new(n, |i: int| EventView::ToggleRun { active: true })).running
            == !s.running,
{
    let events = Seq::new(n, |i: int| EventView::ToggleRun { active: true });
    law_toggle_fires_once(s, events);
    assert(is_toggle_sample(events[0]));
}

} // verus!
