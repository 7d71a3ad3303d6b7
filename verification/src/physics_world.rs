//! The physics world: a table of rigid bodies advanced by one fixed time step
//! at a time. Bodies carry position and velocity in fixed-point coordinates;
//! each step applies the world's constant gravity to every velocity and then
//! integrates every position by the new velocity (one fixed tick per step).
//! The model tracks translation only; rotation and contact resolution belong
//! to the excluded presentation layer.

use vstd::prelude::*;

verus! {

/// An opaque, non-owning reference into the world's body table. The world
/// owns the body's state; holders of a handle may only look it up. A handle
/// that does not resolve to a body is a non-fatal miss, never an error.
#[derive(Clone, Copy, Debug, PartialEq, Eq)]
pub struct BodyHandle {
    pub index: usize,
}

/// The state of one rigid body: position and velocity, in fixed-point
/// coordinate units (velocity is in units per tick).
#[derive(Clone, Copy, Debug, PartialEq, Eq)]
pub struct Body {
    pub x: i64,
    pub y: i64,
    pub vx: i64,
    pub vy: i64,
}

/// Clamps a mathematical integer into the representable coordinate range.
/// Integration saturates at the ends of that range instead of wrapping.
pub open spec fn saturated(v: int) -> int {
    if v < i64::MIN as int {
        i64::MIN as int
    } else if v > i64::MAX as int {
        i64::MAX as int
    } else {
        v
    }
}

/// One fixed step of a single body under gravity `(gx, gy)`: the velocity
/// gains the gravity, then the position advances by the new velocity.
pub open spec fn stepped_body(b: Body, gx: i64, gy: i64) -> Body {
    let vx = saturated(b.vx + gx);
    let vy = saturated(b.vy + gy);
    Body {
        x: saturated(b.x + vx) as i64,
        y: saturated(b.y + vy) as i64,
        vx: vx as i64,
        vy: vy as i64,
    }
}

/// One fixed step of a whole body table under gravity `(gx, gy)`.
pub open spec fn step_bodies(bodies: Seq<Body>, gx: i64, gy: i64) -> Seq<Body> {
    Seq::new(bodies.len(), |i: int| stepped_body(bodies[i], gx, gy))
}

/// `n` fixed steps of a body table under gravity `(gx, gy)`.
pub open spec fn step_bodies_n(bodies: Seq<Body>, gx: i64, gy: i64, n: nat) -> Seq<Body>
    decreases n,
{
    if n == 0 {
        bodies
    } else {
        step_bodies(step_bodies_n(bodies, gx, gy, (n - 1) as nat), gx, gy)
    }
}

/// What a handle resolves to in a body table: the body at its index, or
/// nothing when the handle lies outside the table.
pub open spec fn body_at(bodies: Seq<Body>, handle: BodyHandle) -> Option<Body> {
    if handle.index < bodies.len() {
        Some(bodies[handle.index as int])
    } else {
        None
    }
}

/// Saturating addition on coordinates, exact against `saturated`.
fn add_saturating(a: i64, b: i64) -> (r: i64)
    ensures
        r as int == saturated(a as int + b as int),
{
    let wide: i128 = a as i128 + b as i128;
    if wide < i64::MIN as i128 {
        i64::MIN
    } else if wide > i64::MAX as i128 {
        i64::MAX
    } else {
        wide as i64
    }
}

/// Owns all rigid-body state and advances it by fixed steps. Created once at
/// startup; mutated only by `set_gravity`, `add_body` and `step`; read by the
/// synchronization systems through `lookup`.
pub struct PhysicsWorld {
    pub gravity_x: i64,
    pub gravity_y: i64,
    pub bodies: Vec<Body>,
}

impl PhysicsWorld {
    /// An empty world: no bodies, zero gravity.
    pub fn new() -> (w: PhysicsWorld)
        ensures
            w.gravity_x == 0,
            w.gravity_y == 0,
            w.bodies@.len() == 0,
    {
        PhysicsWorld { gravity_x: 0, gravity_y: 0, bodies: Vec::new() }
    }

    /// Sets the constant acceleration applied to every body on every step.
    pub fn set_gravity(&mut self, gx: i64, gy: i64)
        ensures
            final(self).gravity_x == gx,
            final(self).gravity_y == gy,
            final(self).bodies@ == old(self).bodies@,
    {
        self.gravity_x = gx;
        self.gravity_y = gy;
    }

    /// Registers a new body at rest at `(x, y)` and returns its handle. The
    /// handle stays valid for the world's lifetime (bodies are never removed).
    pub fn add_body(&mut self, x: i64, y: i64) -> (handle: BodyHandle)
        ensures
            handle.index == old(self).bodies@.len(),
            final(self).bodies@ == old(self).bodies@.push(Body { x, y, vx: 0, vy: 0 }),
            final(self).gravity_x == old(self).gravity_x,
            final(self).gravity_y == old(self).gravity_y,
    {
        let index = self.bodies.len();
        self.bodies.push(Body { x, y, vx: 0, vy: 0 });
        BodyHandle { index }
    }

    /// The current state of the body behind `handle`, or `None` when the
    /// handle does not resolve to a body. Never fails otherwise.
    pub fn lookup(&self, handle: BodyHandle) -> (r: Option<Body>)
        ensures
            r == body_at(self.bodies@, handle),
    {
        if handle.index < self.bodies.len() {
            Some(self.bodies[handle.index])
        } else {
            None
        }
    }

    /// Advances every body by one fixed time step under the current gravity.
    /// Deterministic: the new table is a function of the old table and the
    /// gravity alone.
    pub fn step(&mut self)
        ensures
            final(self).gravity_x == old(self).gravity_x,
            final(self).gravity_y == old(self).gravity_y,
            final(self).bodies@ == step_bodies(
                old(self).bodies@,
                old(self).gravity_x,
                old(self).gravity_y,
            ),
    {
        let gx = self.gravity_x;
        let gy = self.gravity_y;
        let n = self.bodies.len();
        let mut i: usize = 0;
        while i < n
            invariant
                i <= n,
                n == self.bodies@.len(),
                self.bodies@.len() == old(self).bodies@.len(),
                gx == old(self).gravity_x,
                gy == old(self).gravity_y,
                self.gravity_x == gx,
                self.gravity_y == gy,
                forall|j: int|
                    0 <= j < i ==> self.bodies@[j] == stepped_body(old(self).bodies@[j], gx, gy),
                forall|j: int| i <= j < n ==> self.bodies@[j] == old(self).bodies@[j],
            decreases n - i,
        {
            let b = self.bodies[i];
            let vx = add_saturating(b.vx, gx);
            let vy = add_saturating(b.vy, gy);
            let x = add_saturating(b.x, vx);
            let y = add_saturating(b.y, vy);
            self.bodies.set(i, Body { x, y, vx, vy });
            i += 1;
        }
        proof {
            assert(self.bodies@ =~= step_bodies(
                old(self).bodies@,
                old(self).gravity_x,
                old(self).gravity_y,
            ));
        }
    }
}

/// Determinism of stepping: two worlds holding identical body tables and
/// identical gravity, advanced by the same number of fixed steps, hold
/// identical body tables.
pub proof fn lemma_step_deterministic(
    bodies1: Seq<Body>,
    bodies2: Seq<Body>,
    gx1: i64,
    gy1: i64,
    gx2: i64,
    gy2: i64,
    n: nat,
)
    requires
        bodies1 == bodies2,
        gx1 == gx2,
        gy1 == gy2,
    ensures
        step_bodies_n(bodies1, gx1, gy1, n) == step_bodies_n(bodies2, gx2, gy2, n),
{
}

} // verus!
