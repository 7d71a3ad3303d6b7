//! The body-synchronization system: once per tick, after the physics world
//! has stepped, it projects physics truth into the presentation layer. For
//! every entity owning both a transform and a rigid-body reference it looks
//! the handle up and copies the body's position into the transform's `x`
//! and `y`, leaving `z` untouched. A handle that does not resolve leaves
//! the transform exactly as it was: the entity freezes instead of erroring.
//! The system never writes to the physics world.

use vstd::prelude::*;
use crate::physics_world::{Body, PhysicsWorld, body_at};
use crate::pong::{RigidBody2D, Transform, component_at};

verus! {

/// An entity's transform after the synchronization system has visited it:
/// untouched unless the entity has a transform and a rigid-body reference
/// that resolves, in which case the body's position overwrites `x` and `y`.
pub open spec fn synced_transform(
    transform: Option<Transform>,
    rigid_body: Option<RigidBody2D>,
    bodies: Seq<Body>,
) -> Option<Transform> {
    match (transform, rigid_body) {
        (Some(t), Some(r)) => match body_at(bodies, r.handle) {
            Some(b) => Some(Transform { x: b.x, y: b.y, z: t.z }),
            None => transform,
        },
        _ => transform,
    }
}

/// Projects physics state into transforms. Read-only with respect to the
/// physics world.
pub struct PhysicsSystem;

impl PhysicsSystem {
    /// Visits every entity: where it owns both a transform and a rigid-body
    /// reference whose handle resolves, copies the body's position into the
    /// transform; everywhere else the transform is left untouched.
    pub fn run(
        &self,
        transforms: &mut Vec<Option<Transform>>,
        rigid_bodies: &Vec<Option<RigidBody2D>>,
        world: &PhysicsWorld,
    )
        ensures
            final(transforms)@.len() == old(transforms)@.len(),
            forall|i: int|
                0 <= i < old(transforms)@.len() ==> final(transforms)@[i] == synced_transform(
                    old(transforms)@[i],
                    component_at(rigid_bodies@, i),
                    world.bodies@,
                ),
    {
        let n = transforms.len();
        let mut i: usize = 0;
        while i < n
            invariant
                i <= n,
                n == transforms@.len(),
                transforms@.len() == old(transforms)@.len(),
                forall|j: int|
                    0 <= j < i ==> transforms@[j] == synced_transform(
                        old(transforms)@[j],
                        component_at(rigid_bodies@, j),
                        world.bodies@,
                    ),
                forall|j: int| i <= j < n ==> transforms@[j] == old(transforms)@[j],
            decreases n - i,
        {
            let reference: Option<RigidBody2D> = if i < rigid_bodies.len() {
                rigid_bodies[i]
            } else {
                None
            };
            if let Some(rigid_body) = reference {
                if let Some(current) = transforms[i] {
                    if let Some(body) = world.lookup(rigid_body.handle) {
                        transforms.set(i, Some(Transform {
                            x: body.x,
                            y: body.y,
                            z: current.z,
                        }));
                    }
                }
            }
            i += 1;
        }
    }
}

/// Missing-handle resilience: where an entity's rigid-body reference does
/// not resolve to a body (or the entity has no reference at all), the
/// synchronization system leaves its transform exactly unchanged.
pub proof fn lemma_missing_handle_resilience(
    transform: Option<Transform>,
    rigid_body: Option<RigidBody2D>,
    bodies: Seq<Body>,
)
    requires
        match rigid_body {
            Some(r) => body_at(bodies, r.handle) is None,
            None => true,
        },
    ensures
        synced_transform(transform, rigid_body, bodies) == transform,
{
}

} // verus!
