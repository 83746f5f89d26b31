//! The simulation as a mathematical state, and what each event makes of it.

use vstd::prelude::*;
use crate::body::{Body, Motion, Vector2};

verus! {

/// Every body has a mass that compares greater than zero.
pub open spec fn all_have_mass(bodies: Seq<Body>) -> bool {
    forall|i: int| 0 <= i < bodies.len() ==> (#[trigger] bodies[i]).has_mass()
}

/// Every body has mass and no accumulated acceleration.
pub open spec fn all_at_rest(bodies: Seq<Body>) -> bool {
    forall|i: int| 0 <= i < bodies.len() ==> (#[trigger] bodies[i]).at_rest()
}

/// `k` is the index of the first body without a positive mass.
pub open spec fn is_first_massless(bodies: Seq<Body>, k: int) -> bool {
    &&& 0 <= k < bodies.len()
    &&& !bodies[k].has_mass()
    &&& forall|i: int| 0 <= i < k ==> (#[trigger] bodies[i]).has_mass()
}

/// The same bodies in the same order, each with its accumulated
/// acceleration cleared.
pub open spec fn settle_all(bodies: Seq<Body>) -> Seq<Body> {
    Seq::new(bodies.len(), |i: int| bodies[i].settled())
}

/// The bodies after a physics step that proposes `moved[i]` for body `i`.
/// The body that is held stays where it is, stopped, whatever the step
/// proposes for it; every other body takes its motion.
pub open spec fn move_all(bodies: Seq<Body>, moved: Seq<Motion>, held: Option<int>) -> Seq<Body> {
    Seq::new(
        bodies.len(),
        |i: int|
            if held == Some(i) {
                bodies[i].held_at(bodies[i].pos)
            } else {
                bodies[i].moved(moved[i])
            },
    )
}

/// `k` is the first index below `limit` at which `hits` holds `true`.
pub open spec fn is_first_hit(hits: Seq<bool>, limit: nat, k: int) -> bool {
    &&& 0 <= k < limit
    &&& k < hits.len()
    &&& hits[k]
    &&& forall|i: int| 0 <= i < k ==> !hits[i]
}

/// The first index below `limit` at which `hits` holds `true`, if there is
/// one.
pub open spec fn first_hit(hits: Seq<bool>, limit: nat) -> Option<int> {
    if exists|k: int| is_first_hit(hits, limit, k) {
        Some(choose|k: int| is_first_hit(hits, limit, k))
    } else {
        None
    }
}

/// What can happen to a simulation: an interaction signal, or the outcome
/// of one physics step.
pub enum EventView {
    /// The level of the run/pause control during this tick.
    ToggleRun { active: bool },
    /// Go back to the snapshot.
    Reset,
    /// The pointer is down at `point`; `hits[i]` says whether `point` lies
    /// on body `i`.
    PointerDown { point: Vector2, hits: Seq<bool> },
    /// The pointer is held down and has moved to `point`.
    PointerHeld { point: Vector2 },
    /// The pointer is up.
    PointerUp,
    /// A load request ended: with the bodies that were read, or with
    /// nothing when it was cancelled or failed.
    Load { document: Option<Seq<Body>> },
    /// A physics step proposes `moved[i]` as the new motion of body `i`.
    Advance { moved: Seq<Motion> },
}

/// The state of a simulation.
#[verifier::ext_equal]
pub struct StateView {
    /// The live bodies, in drag-selection and force-pairing order.
    pub bodies: Seq<Body>,
    /// The bodies that a reset restores.
    pub initial_bodies: Seq<Body>,
    /// Whether physics steps are taken.
    pub running: bool,
    /// Whether the run/pause control was active during the last tick.
    pub toggle_held: bool,
    /// The body being dragged, if any.
    pub selected: Option<int>,
}

impl StateView {
    /// The invariant of every simulation: all bodies, live and snapshot,
    /// are at rest, and the selection names a live body.
    pub open spec fn wf(self) -> bool {
        &&& all_at_rest(self.bodies)
        &&& all_at_rest(self.initial_bodies)
        &&& self.selected matches Some(k) ==> 0 <= k < self.bodies.len()
    }

    /// The state at startup: running, nothing selected, `bodies` both live
    /// and as the snapshot.
    pub open spec fn started(bodies: Seq<Body>) -> StateView {
        StateView {
            bodies,
            initial_bodies: bodies,
            running: true,
            toggle_held: false,
            selected: None,
        }
    }

    /// The run/pause control is sampled. Running flips on the tick at which
    /// the control becomes active, and on no other.
    pub open spec fn toggled(self, active: bool) -> StateView {
        if active && !self.toggle_held {
            StateView { running: !self.running, toggle_held: true, ..self }
        } else if !active {
            StateView { toggle_held: false, ..self }
        } else {
            self
        }
    }

    /// The live bodies are replaced by the snapshot and the selection is
    /// dropped.
    pub open spec fn reset(self) -> StateView {
        StateView { bodies: self.initial_bodies, selected: None, ..self }
    }

    /// The selected body, if there is one, is put at `point` and stopped.
    pub open spec fn pointer_held(self, point: Vector2) -> StateView {
        match self.selected {
            Some(k) => StateView {
                bodies: self.bodies.update(k, self.bodies[k].held_at(point)),
                ..self
            },
            None => self,
        }
    }

    /// With a body selected the drag goes on. Otherwise the first body that
    /// the pointer hits becomes the selection; it goes to the pointer when
    /// the pointer is next sampled.
    pub open spec fn pointer_down(self, point: Vector2, hits: Seq<bool>) -> StateView {
        match self.selected {
            Some(_) => self.pointer_held(point),
            None => StateView { selected: first_hit(hits, self.bodies.len()), ..self },
        }
    }

    /// The selection is dropped.
    pub open spec fn pointer_up(self) -> StateView {
        StateView { selected: None, ..self }
    }

    /// A document in which every body has mass replaces both the live
    /// bodies and the snapshot, settled, and drops the selection. Any other
    /// outcome of a load request changes nothing.
    pub open spec fn loaded(self, document: Option<Seq<Body>>) -> StateView {
        match document {
            Some(bodies) if all_have_mass(bodies) => StateView {
                bodies: settle_all(bodies),
                initial_bodies: settle_all(bodies),
                selected: None,
                ..self
            },
            _ => self,
        }
    }

    /// A physics step is taken if the simulation is running and the step
    /// proposes one motion for each body.
    pub open spec fn accepts(self, moved: Seq<Motion>) -> bool {
        self.running && moved.len() == self.bodies.len()
    }

    /// A step that is taken gives every body its proposed motion, but the
    /// selected one: a drag overrides the step, so that body stays where
    /// the pointer put it, at rest. A step that is not taken changes
    /// nothing.
    pub open spec fn advanced(self, moved: Seq<Motion>) -> StateView {
        if self.accepts(moved) {
            StateView { bodies: move_all(self.bodies, moved, self.selected), ..self }
        } else {
            self
        }
    }

    /// The event takes effect: every event does, but a load request that
    /// ends without a document in which every body has mass, and a physics
    /// step that is not taken.
    pub open spec fn admits(self, event: EventView) -> bool {
        match event {
            EventView::Load { document } => document matches Some(bodies) && all_have_mass(bodies),
            EventView::Advance { moved } => self.accepts(moved),
            _ => true,
        }
    }

    /// The state after one event.
    pub open spec fn after(self, event: EventView) -> StateView {
        match event {
            EventView::ToggleRun { active } => self.toggled(active),
            EventView::Reset => self.reset(),
            EventView::PointerDown { point, hits } => self.pointer_down(point, hits),
            EventView::PointerHeld { point } => self.pointer_held(point),
            EventView::PointerUp => self.pointer_up(),
            EventView::Load { document } => self.loaded(document),
            EventView::Advance { moved } => self.advanced(moved),
        }
    }

    /// The state after a sequence of events, taken in order.
    pub open spec fn after_all(self, events: Seq<EventView>) -> StateView
        decreases events.len(),
    {
        if events.len() == 0 {
            self
        } else {
            self.after_all(events.drop_last()).after(events.last())
        }
    }
}

/// An index at which `hits` holds `true` below `limit`, with `false` at
/// every index before it, is the first hit.
pub proof fn lemma_first_hit_found(hits: Seq<bool>, limit: nat, k: int)
    requires
        is_first_hit(hits, limit, k),
    ensures
        first_hit(hits, limit) == Some(k),
{
    let c = choose|c: int| is_first_hit(hits, limit, c);
    assert(is_first_hit(hits, limit, c));
    if c < k {
        assert(!hits[c]);
    } else if k < c {
        assert(!hits[k]);
    }
}

/// Where `hits` holds `false` at every index that counts, nothing is hit.
pub proof fn lemma_first_hit_missing(hits: Seq<bool>, limit: nat)
    requires
        forall|i: int| 0 <= i < limit && i < hits.len() ==> !hits[i],
    ensures
        first_hit(hits, limit) is None,
{
}

} // verus!
