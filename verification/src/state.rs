//! The simulation state and the operations that change it.

use vstd::prelude::*;
use crate::body::{Body, Motion, Vector2};
use crate::model::{
    all_at_rest, all_have_mass, first_hit, is_first_hit, is_first_massless,
    lemma_first_hit_found, lemma_first_hit_missing, move_all, settle_all, EventView, StateView,
};

verus! {

/// A body whose mass does not compare greater than zero, by its index in
/// the sequence that was handed in.
#[derive(Clone, Copy, PartialEq, Eq, Structural, Debug)]
pub struct InvalidMass {
    pub index: usize,
}

/// Why a load request left the simulation as it was.
#[derive(Clone, Copy, PartialEq, Eq, Structural, Debug)]
pub enum LoadError {
    /// The request was cancelled, or the document could not be read.
    NoDocument,
    /// The document holds a body without a positive mass.
    InvalidMass(InvalidMass),
}

/// What can happen to a simulation: an interaction signal, or the outcome
/// of one physics step.
#[derive(Debug)]
pub enum Event {
    /// The level of the run/pause control during this tick.
    ToggleRun { active: bool },
    /// Go back to the snapshot.
    Reset,
    /// The pointer is down at `point`; `hits[i]` says whether `point` lies
    /// on body `i`.
    PointerDown { point: Vector2, hits: Vec<bool> },
    /// The pointer is held down and has moved to `point`.
    PointerHeld { point: Vector2 },
    /// The pointer is up.
    PointerUp,
    /// A load request ended: with the bodies that were read, or with
    /// nothing when it was cancelled or failed.
    Load { document: Option<Vec<Body>> },
    /// A physics step proposes `moved[i]` as the new motion of body `i`.
    Advance { moved: Vec<Motion> },
}

impl View for Event {
    type V = EventView;

    open spec fn view(&self) -> EventView {
        match *self {
            Event::ToggleRun { active } => EventView::ToggleRun { active },
            Event::Reset => EventView::Reset,
            Event::PointerDown { point, hits } => EventView::PointerDown { point, hits: hits@ },
            Event::PointerHeld { point } => EventView::PointerHeld { point },
            Event::PointerUp => EventView::PointerUp,
            Event::Load { document } => EventView::Load {
                document: match document {
                    Some(bodies) => Some(bodies@),
                    None => None,
                },
            },
            Event::Advance { moved } => EventView::Advance { moved: moved@ },
        }
    }
}

/// The index of the first body without a positive mass, if there is one.
pub fn find_massless(bodies: &Vec<Body>) -> (found: Option<usize>)
    ensures
        match found {
            Some(k) => is_first_massless(bodies@, k as int),
            None => all_have_mass(bodies@),
        },
{
    let mut i: usize = 0;
    while i < bodies.len()
        invariant
            i <= bodies.len(),
            forall|j: int| 0 <= j < i ==> (#[trigger] bodies@[j]).has_mass(),
        decreases bodies.len() - i,
    {
        if !bodies[i].check_mass() {
            return Some(i);
        }
        i += 1;
    }
    None
}

/// A copy of `bodies` in which every accumulated acceleration is cleared.
pub fn settle_bodies(bodies: &Vec<Body>) -> (settled: Vec<Body>)
    ensures
        settled@ == settle_all(bodies@),
{
    let mut settled: Vec<Body> = Vec::new();
    let mut i: usize = 0;
    while i < bodies.len()
        invariant
            i <= bodies.len(),
            settled.len() == i,
            forall|j: int| 0 <= j < i ==> settled@[j] == (#[trigger] bodies@[j]).settled(),
        decreases bodies.len() - i,
    {
        settled.push(bodies[i].settle());
        i += 1;
    }
    assert(settled@ =~= settle_all(bodies@));
    settled
}

/// The first index below `limit` at which `hits` holds `true`, if there is
/// one.
pub fn find_first_hit(hits: &Vec<bool>, limit: usize) -> (found: Option<usize>)
    ensures
        match found {
            Some(k) => is_first_hit(hits@, limit as nat, k as int),
            None => forall|i: int| 0 <= i < limit && i < hits@.len() ==> !hits@[i],
        },
        first_hit(hits@, limit as nat) == match found {
            Some(k) => Some(k as int),
            None => None,
        },
{
    let mut i: usize = 0;
    while i < limit && i < hits.len()
        invariant
            forall|j: int| 0 <= j < i ==> !hits@[j],
        decreases hits.len() - i,
    {
        if hits[i] {
            proof {
                lemma_first_hit_found(hits@, limit as nat, i as int);
            }
            return Some(i);
        }
        i += 1;
    }
    proof {
        lemma_first_hit_missing(hits@, limit as nat);
    }
    None
}

fn copy_bodies(bodies: &Vec<Body>) -> (copy: Vec<Body>)
    ensures
        copy@ == bodies@,
{
    let mut copy: Vec<Body> = Vec::new();
    let mut i: usize = 0;
    while i < bodies.len()
        invariant
            i <= bodies.len(),
            copy.len() == i,
            forall|j: int| 0 <= j < i ==> copy@[j] == bodies@[j],
        decreases bodies.len() - i,
    {
        copy.push(bodies[i]);
        i += 1;
    }
    assert(copy@ =~= bodies@);
    copy
}

/// The simulation: the live bodies, the snapshot that a reset restores, the
/// running flag, the latch of the run/pause control, and the drag
/// selection.
pub struct SimulationState {
    bodies: Vec<Body>,
    initial_bodies: Vec<Body>,
    running: bool,
    toggle_held: bool,
    selected: Option<usize>,
}

impl View for SimulationState {
    type V = StateView;

    closed spec fn view(&self) -> StateView {
        StateView {
            bodies: self.bodies@,
            initial_bodies: self.initial_bodies@,
            running: self.running,
            toggle_held: self.toggle_held,
            selected: match self.selected {
                Some(k) => Some(k as int),
                None => None,
            },
        }
    }
}

impl SimulationState {
    #[verifier::type_invariant]
    spec fn inv(self) -> bool {
        self@.wf()
    }

    /// A running simulation of `bodies`, settled, with the same bodies as
    /// its snapshot. It is refused when a body has no positive mass: the
    /// error names the first such body.
    pub fn new(bodies: Vec<Body>) -> (made: Result<SimulationState, InvalidMass>)
        ensures
            match made {
                Ok(state) => all_have_mass(bodies@) && state@.wf() && state@
                    == StateView::started(settle_all(bodies@)),
                Err(e) => is_first_massless(bodies@, e.index as int),
            },
    {
        match find_massless(&bodies) {
            Some(index) => Err(InvalidMass { index }),
            None => {
                let live = settle_bodies(&bodies);
                let snapshot = copy_bodies(&live);
                Ok(
                    SimulationState {
                        bodies: live,
                        initial_bodies: snapshot,
                        running: true,
                        toggle_held: false,
                        selected: None,
                    },
                )
            },
        }
    }

    /// The live bodies.
    pub fn bodies(&self) -> (bodies: &Vec<Body>)
        ensures
            bodies@ == self@.bodies,
            self@.wf(),
    {
        proof {
            use_type_invariant(self);
        }
        &self.bodies
    }

    /// The bodies that a reset restores.
    pub fn initial_bodies(&self) -> (bodies: &Vec<Body>)
        ensures
            bodies@ == self@.initial_bodies,
            self@.wf(),
    {
        proof {
            use_type_invariant(self);
        }
        &self.initial_bodies
    }

    /// Whether physics steps are taken.
    pub fn is_running(&self) -> (running: bool)
        ensures
            running == self@.running,
            self@.wf(),
    {
        proof {
            use_type_invariant(self);
        }
        self.running
    }

    /// Whether the run/pause control was active during the last tick.
    pub fn is_toggle_held(&self) -> (held: bool)
        ensures
            held == self@.toggle_held,
            self@.wf(),
    {
        proof {
            use_type_invariant(self);
        }
        self.toggle_held
    }

    /// The index of the body being dragged, if any. It always names a live
    /// body.
    pub fn selected(&self) -> (selected: Option<usize>)
        ensures
            match selected {
                Some(k) => self@.selected == Some(k as int) && k < self@.bodies.len(),
                None => self@.selected is None,
            },
            self@.wf(),
    {
        proof {
            use_type_invariant(self);
        }
        self.selected
    }

    /// Samples the run/pause control. Running flips when the control
    /// becomes active, and not again while it stays active.
    pub fn toggle_run(&mut self, active: bool)
        ensures
            final(self)@ == old(self)@.toggled(active),
            final(self)@.wf(),
    {
        proof {
            use_type_invariant(&*self);
        }
        if active && !self.toggle_held {
            self.running = !self.running;
            self.toggle_held = true;
        } else if !active {
            self.toggle_held = false;
        }
    }

    /// Replaces the live bodies by a copy of the snapshot and drops the
    /// selection.
    pub fn reset(&mut self)
        ensures
            final(self)@ == old(self)@.reset(),
            final(self)@.wf(),
    {
        proof {
            use_type_invariant(&*self);
        }
        let restored = copy_bodies(&self.initial_bodies);
        self.selected = None;
        self.bodies = restored;
    }

    /// Moves the dragged body to `point` and stops it. Without a selection
    /// nothing changes.
    pub fn pointer_held(&mut self, point: Vector2)
        ensures
            final(self)@ == old(self)@.pointer_held(point),
            final(self)@.wf(),
    {
        proof {
            use_type_invariant(&*self);
        }
        if let Some(k) = self.selected {
            let held = self.bodies[k].hold_at(point);
            let mut bodies: Vec<Body> = Vec::new();
            self.selected = None;
            std::mem::swap(&mut self.bodies, &mut bodies);
            bodies.set(k, held);
            self.bodies = bodies;
            self.selected = Some(k);
        }
    }

    /// Handles a pointer that is down at `point`. A drag under way goes on
    /// as in `pointer_held`. Otherwise the bodies are scanned in index
    /// order and the first one hit is selected; `hits[i]` says whether
    /// `point` lies on body `i`, and a body without an entry counts as
    /// missed.
    pub fn pointer_down(&mut self, point: Vector2, hits: &Vec<bool>)
        ensures
            final(self)@ == old(self)@.pointer_down(point, hits@),
            final(self)@.wf(),
    {
        proof {
            use_type_invariant(&*self);
        }
        if self.selected.is_some() {
            self.pointer_held(point);
        } else {
            self.selected = find_first_hit(hits, self.bodies.len());
        }
    }

    /// Drops the selection.
    pub fn pointer_up(&mut self)
        ensures
            final(self)@ == old(self)@.pointer_up(),
            final(self)@.wf(),
    {
        proof {
            use_type_invariant(&*self);
        }
        self.selected = None;
    }

    /// Ends a load request. A document in which every body has a positive
    /// mass replaces the live bodies and the snapshot, settled, and drops
    /// the selection. Without a document, or with a body that has no
    /// positive mass, the simulation stays as it was and the error says
    /// which of the two it was.
    pub fn load(&mut self, document: Option<Vec<Body>>) -> (loaded: Result<(), LoadError>)
        ensures
            final(self)@.wf(),
            final(self)@ == old(self)@.loaded(
                match document {
                    Some(bodies) => Some(bodies@),
                    None => None,
                },
            ),
            match loaded {
                Ok(_) => document matches Some(bodies) && all_have_mass(bodies@),
                Err(LoadError::NoDocument) => document is None,
                Err(LoadError::InvalidMass(e)) => document matches Some(bodies)
                    && is_first_massless(bodies@, e.index as int),
            },
    {
        proof {
            use_type_invariant(&*self);
        }
        match document {
            None => Err(LoadError::NoDocument),
            Some(bodies) => match find_massless(&bodies) {
                Some(index) => Err(LoadError::InvalidMass(InvalidMass { index })),
                None => {
                    let live = settle_bodies(&bodies);
                    let snapshot = copy_bodies(&live);
                    self.selected = None;
                    self.initial_bodies = snapshot;
                    self.bodies = live;
                    Ok(())
                },
            },
        }
    }

    /// Ends a physics step. A running simulation that is handed one motion
    /// for each body reports `true` and gives every body its motion, but the
    /// body being dragged: that one stays where the pointer put it, at
    /// rest, whatever the step proposes for it. A paused simulation, or one
    /// handed another number of motions, stays as it was and reports
    /// `false`.
    pub fn advance(&mut self, moved: &Vec<Motion>) -> (taken: bool)
        ensures
            taken == old(self)@.accepts(moved@),
            final(self)@ == old(self)@.advanced(moved@),
            final(self)@.wf(),
    {
        proof {
            use_type_invariant(&*self);
        }
        if !self.running || moved.len() != self.bodies.len() {
            return false;
        }
        let mut next: Vec<Body> = Vec::new();
        let mut i: usize = 0;
        while i < self.bodies.len()
            invariant
                i <= self.bodies.len(),
                moved.len() == self.bodies.len(),
                next.len() == i,
                all_at_rest(self.bodies@),
                forall|j: int|
                    0 <= j < i ==> next@[j] == move_all(self.bodies@, moved@, self@.selected)[j],
            decreases self.bodies.len() - i,
        {
            let body = self.bodies[i];
            let stepped = if self.selected == Some(i) {
                body.hold_at(body.pos)
            } else {
                body.advance(moved[i])
            };
            next.push(stepped);
            i += 1;
        }
        assert(next@ =~= move_all(self.bodies@, moved@, self@.selected));
        self.bodies = next;
        true
    }

    /// Applies one event, and reports whether it took effect: a load
    /// request that is refused and a physics step that is not taken leave
    /// the simulation as it was.
    pub fn apply(&mut self, event: Event) -> (admitted: bool)
        ensures
            admitted == old(self)@.admits(event@),
            final(self)@ == old(self)@.after(event@),
            final(self)@.wf(),
    {
        match event {
            Event::ToggleRun { active } => {
                self.toggle_run(active);
                true
            },
            Event::Reset => {
                self.reset();
                true
            },
            Event::PointerDown { point, hits } => {
                self.pointer_down(point, &hits);
                true
            },
            Event::PointerHeld { point } => {
                self.pointer_held(point);
                true
            },
            Event::PointerUp => {
                self.pointer_up();
                true
            },
            Event::Load { document } => self.load(document).is_ok(),
            Event::Advance { moved } => self.advance(&moved),
        }
    }
}

} // verus!
