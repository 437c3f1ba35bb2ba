//! The simulation state and the fixed-rate step: input mapping, motion
//! integration and collision resolution, gated by the simulation clock.

use vstd::prelude::*;
use crate::body::{Body, overlaps};
use crate::clock::SimulationClock;
use crate::input::{InputState, SPEED, mapped_body};

verus! {

/// Why construction of a simulation state was rejected.
#[derive(Clone, Copy, Debug, PartialEq, Eq, Structural)]
pub enum InitError {
    /// The body roster was empty.
    EmptyBodies,
    /// The controlled-body index pointed past the end of the roster.
    ControlledIndexOutOfRange,
}

/// The whole simulation: the ordered roster of bodies, fixed in size for the
/// run; the index of the one body driven by input (a role assigned to one
/// slot, not a separate entity); and the clock that gates the ticks.
pub struct SimulationState {
    pub bodies: Vec<Body>,
    pub controlled_index: usize,
    pub clock: SimulationClock,
}

/// Some body other than the one at `ci` overlaps the body at `ci`.
pub open spec fn any_overlap(bodies: Seq<Body>, ci: int) -> bool {
    exists|j: int| 0 <= j < bodies.len() && j != ci && overlaps(bodies[ci], bodies[j])
}

/// The roster with the controlled body's velocity replaced by the mapped
/// input; every other body is untouched.
pub open spec fn mapped_bodies(bodies: Seq<Body>, ci: int, input: InputState) -> Seq<Body> {
    bodies.update(ci, mapped_body(bodies[ci], input))
}

/// The roster with every body's position advanced by its velocity.
pub open spec fn integrated_bodies(bodies: Seq<Body>) -> Seq<Body> {
    Seq::new(bodies.len(), |i: int| bodies[i].integrated())
}

/// The body with its last displacement undone and its velocity zeroed: the
/// collision resolver's correction.
pub open spec fn reverted_body(b: Body) -> Body {
    Body { x: (b.x - b.vx) as i64, y: (b.y - b.vy) as i64, vx: 0, vy: 0, ..b }
}

/// The roster after collision resolution: if the body at `ci` overlaps any
/// other body, its last displacement is undone and its velocity zeroed;
/// otherwise nothing changes. Only the controlled body is protected; other
/// bodies may freely overlap.
pub open spec fn resolved_bodies(bodies: Seq<Body>, ci: int) -> Seq<Body> {
    if any_overlap(bodies, ci) {
        bodies.update(ci, reverted_body(bodies[ci]))
    } else {
        bodies
    }
}

/// What one full tick does to the roster: map the input onto the controlled
/// body's velocity, integrate every body, then resolve collisions for the
/// controlled body.
pub open spec fn tick_result(bodies: Seq<Body>, ci: int, input: InputState) -> Seq<Body> {
    resolved_bodies(integrated_bodies(mapped_bodies(bodies, ci, input)), ci)
}

impl SimulationState {
    /// Well-formedness: a non-empty roster of well-formed bodies, a
    /// controlled index inside it, and a well-formed clock.
    pub open spec fn wf(self) -> bool {
        &&& self.bodies@.len() > 0
        &&& self.controlled_index < self.bodies@.len()
        &&& forall|i: int| 0 <= i < self.bodies@.len() ==> self.bodies@[i].wf()
        &&& self.clock.wf()
    }

    /// Build the simulation state, rejecting an empty roster or an
    /// out-of-range controlled index rather than risking bad indexing later.
    pub fn initialize(
        bodies: Vec<Body>,
        controlled_index: usize,
        tick_interval: u64,
        start_time: u64,
    ) -> (result: Result<SimulationState, InitError>)
        requires
            forall|i: int| 0 <= i < bodies@.len() ==> bodies@[i].wf(),
            tick_interval > 0,
        ensures
            match result {
                Ok(state) => {
                    &&& bodies@.len() > 0
                    &&& controlled_index < bodies@.len()
                    &&& state.bodies@ == bodies@
                    &&& state.controlled_index == controlled_index
                    &&& state.clock == (SimulationClock {
                        tick_interval,
                        last_tick_time: start_time,
                    })
                    &&& state.wf()
                },
                Err(InitError::EmptyBodies) => bodies@.len() == 0,
                Err(InitError::ControlledIndexOutOfRange) => {
                    &&& bodies@.len() > 0
                    &&& controlled_index >= bodies@.len()
                },
            },
    {
        if bodies.len() == 0 {
            return Err(InitError::EmptyBodies);
        }
        if controlled_index >= bodies.len() {
            return Err(InitError::ControlledIndexOutOfRange);
        }
        Ok(SimulationState {
            bodies,
            controlled_index,
            clock: SimulationClock::new(tick_interval, start_time),
        })
    }

    /// The current roster, for rendering: a read-only view, no mutation.
    pub fn read_bodies(&self) -> (bodies: &Vec<Body>)
        ensures
            bodies@ == self.bodies@,
    {
        &self.bodies
    }

    /// Replace the controlled body's velocity with what the directional keys
    /// map to. Every other body, the index and the clock are untouched.
    pub fn apply_input(&mut self, input: InputState)
        requires
            old(self).wf(),
        ensures
            final(self).bodies@ == mapped_bodies(
                old(self).bodies@,
                old(self).controlled_index as int,
                input,
            ),
            final(self).controlled_index == old(self).controlled_index,
            final(self).clock == old(self).clock,
            final(self).wf(),
    {
        let ci = self.controlled_index;
        let mut b = self.bodies[ci];
        crate::input::apply_input(&mut b, input);
        self.bodies.set(ci, b);
    }

    /// Integration may run only while every body's next position stays in the
    /// coordinate range.
    pub open spec fn can_integrate_all(self) -> bool {
        forall|i: int| 0 <= i < self.bodies@.len() ==> self.bodies@[i].can_integrate()
    }

    /// Advance every body's position by its velocity, exactly, once.
    /// Iteration order does not matter: no body's update reads another body.
    pub fn integrate_all(&mut self)
        requires
            old(self).wf(),
            old(self).can_integrate_all(),
        ensures
            final(self).bodies@ == integrated_bodies(old(self).bodies@),
            forall|i: int| 0 <= i < old(self).bodies@.len() ==> {
                let before = old(self).bodies@[i];
                &&& #[trigger] final(self).bodies@[i].x == before.x + before.vx
                &&& final(self).bodies@[i].y == before.y + before.vy
            },
            final(self).controlled_index == old(self).controlled_index,
            final(self).clock == old(self).clock,
            final(self).wf(),
    {
        let n = self.bodies.len();
        let mut i: usize = 0;
        while i < n
            invariant
                i <= n,
                n == self.bodies@.len(),
                n == old(self).bodies@.len(),
                forall|j: int| 0 <= j < i ==> self.bodies@[j] == old(self).bodies@[j].integrated(),
                forall|j: int| i <= j < n ==> self.bodies@[j] == old(self).bodies@[j],
                old(self).can_integrate_all(),
                self.controlled_index == old(self).controlled_index,
                self.clock == old(self).clock,
            decreases n - i,
        {
            let mut b = self.bodies[i];
            b.integrate();
            self.bodies.set(i, b);
            i = i + 1;
        }
        proof {
            assert(self.bodies@ =~= integrated_bodies(old(self).bodies@));
        }
    }

    /// Undoing the controlled body's displacement must stay in the coordinate
    /// range. (When the displacement was just applied by integration, it
    /// does: the reverted position is the one the body came from.)
    pub open spec fn can_revert(self) -> bool {
        let b = self.bodies@[self.controlled_index as int];
        &&& i64::MIN <= b.x - b.vx <= i64::MAX
        &&& i64::MIN <= b.y - b.vy <= i64::MAX
    }

    /// Resolve collisions for the controlled body only: if it overlaps any
    /// other body, undo its last displacement and zero its velocity;
    /// otherwise change nothing. Other bodies are never corrected, and the
    /// reverted resting position is itself not re-checked: that asymmetry is
    /// the intended policy.
    pub fn resolve(&mut self)
        requires
            old(self).wf(),
            old(self).can_revert(),
        ensures
            final(self).bodies@ == resolved_bodies(
                old(self).bodies@,
                old(self).controlled_index as int,
            ),
            final(self).controlled_index == old(self).controlled_index,
            final(self).clock == old(self).clock,
            final(self).wf(),
    {
        let ci = self.controlled_index;
        let n = self.bodies.len();
        let mut collided = false;
        let mut i: usize = 0;
        while i < n
            invariant
                i <= n,
                n == self.bodies@.len(),
                ci == self.controlled_index,
                ci < n,
                *self == *old(self),
                collided == exists|j: int|
                    0 <= j < i && j != ci && overlaps(self.bodies@[ci as int], self.bodies@[j]),
            decreases n - i,
        {
            if i != ci {
                if self.bodies[ci].overlaps_with(&self.bodies[i]) {
                    proof {
                        assert(overlaps(self.bodies@[ci as int], self.bodies@[i as int]));
                    }
                    collided = true;
                }
            }
            i = i + 1;
        }
        if collided {
            let mut b = self.bodies[ci];
            b.x = b.x - b.vx;
            b.y = b.y - b.vy;
            b.vx = 0;
            b.vy = 0;
            self.bodies.set(ci, b);
        }
    }

    /// A step may run only while every body's next position stays in the
    /// coordinate range. The controlled body's velocity is about to be
    /// replaced by the mapped input, so only its position needs headroom of
    /// one key speed; every other body keeps its velocity.
    pub open spec fn can_step(self) -> bool {
        let cb = self.bodies@[self.controlled_index as int];
        &&& forall|i: int|
            0 <= i < self.bodies@.len() && i != self.controlled_index as int
                ==> self.bodies@[i].can_integrate()
        &&& i64::MIN + SPEED <= cb.x <= i64::MAX - SPEED
        &&& i64::MIN + SPEED <= cb.y <= i64::MAX - SPEED
    }

    /// One presentation frame's worth of simulation: if the clock says a tick
    /// is due at `now`, map the input, integrate every body, resolve
    /// collisions for the controlled body, and record the tick; otherwise
    /// change nothing. Whether a tick ran or not, the caller may then read
    /// the bodies and render them.
    pub fn step(&mut self, now: u64, input: InputState)
        requires
            old(self).wf(),
            old(self).can_step(),
        ensures
            old(self).clock.tick_due(now) ==> {
                &&& final(self).bodies@ == tick_result(
                    old(self).bodies@,
                    old(self).controlled_index as int,
                    input,
                )
                &&& final(self).clock.last_tick_time == now
                &&& final(self).clock.tick_interval == old(self).clock.tick_interval
            },
            !old(self).clock.tick_due(now) ==> *final(self) == *old(self),
            final(self).controlled_index == old(self).controlled_index,
            final(self).wf(),
    {
        if self.clock.should_tick(now) {
            let ghost ci = self.controlled_index as int;
            self.apply_input(input);
            proof {
                assert forall|i: int|
                    0 <= i < self.bodies@.len() implies self.bodies@[i].can_integrate() by {
                    if i != ci {
                        assert(self.bodies@[i] == old(self).bodies@[i]);
                    }
                }
            }
            self.integrate_all();
            self.resolve();
            self.clock.record_tick(now);
        }
    }
}

/// Resolver reversion exactness: if integration leaves the controlled body
/// overlapping any other body, resolution puts it back exactly where it stood
/// before integration in that same tick, and its velocity is exactly zero.
pub proof fn lemma_resolver_reverts_exactly(bodies: Seq<Body>, ci: int)
    requires
        0 <= ci < bodies.len(),
        bodies[ci].can_integrate(),
        any_overlap(integrated_bodies(bodies), ci),
    ensures
        resolved_bodies(integrated_bodies(bodies), ci)[ci].x == bodies[ci].x,
        resolved_bodies(integrated_bodies(bodies), ci)[ci].y == bodies[ci].y,
        resolved_bodies(integrated_bodies(bodies), ci)[ci].vx == 0,
        resolved_bodies(integrated_bodies(bodies), ci)[ci].vy == 0,
{
}

/// Resolver no-op: if the controlled body overlaps no other body, resolution
/// leaves every body's position and velocity unchanged.
pub proof fn lemma_resolver_noop(bodies: Seq<Body>, ci: int)
    requires
        !any_overlap(bodies, ci),
    ensures
        resolved_bodies(bodies, ci) == bodies,
{
}

} // verus!
