use pong_core::physics_world::{Body, BodyHandle, PhysicsWorld};
use pong_core::pong::{RigidBody2D, Transform, UNIT};
use pong_core::systems::physics::PhysicsSystem;

#[test]
fn sync_copies_body_position() {
    let mut world = PhysicsWorld::new();
    let handle = world.add_body(3 * UNIT, 7 * UNIT);
    let mut transforms = vec![Some(Transform { x: 50 * UNIT, y: 50 * UNIT, z: 4 * UNIT })];
    let bodies = vec![Some(RigidBody2D { handle })];
    PhysicsSystem.run(&mut transforms, &bodies, &world);
    assert_eq!(
        transforms[0],
        Some(Transform { x: 3 * UNIT, y: 7 * UNIT, z: 4 * UNIT })
    );
}

#[test]
fn missing_handle_freezes_entity() {
    let mut world = PhysicsWorld::new();
    world.add_body(3 * UNIT, 7 * UNIT);
    let mut transforms = vec![Some(Transform { x: 11 * UNIT, y: 12 * UNIT, z: 0 })];
    let bodies = vec![Some(RigidBody2D { handle: BodyHandle { index: 99 } })];
    PhysicsSystem.run(&mut transforms, &bodies, &world);
    assert_eq!(
        transforms[0],
        Some(Transform { x: 11 * UNIT, y: 12 * UNIT, z: 0 })
    );
}

#[test]
fn entity_without_reference_is_untouched() {
    let mut world = PhysicsWorld::new();
    world.add_body(3 * UNIT, 7 * UNIT);
    let mut transforms = vec![Some(Transform { x: 11 * UNIT, y: 12 * UNIT, z: 0 })];
    let bodies: Vec<Option<RigidBody2D>> = vec![None];
    PhysicsSystem.run(&mut transforms, &bodies, &world);
    assert_eq!(transforms[0].unwrap().x, 11 * UNIT);
    assert_eq!(transforms[0].unwrap().y, 12 * UNIT);
}

#[test]
fn add_body_returns_consecutive_handles() {
    let mut world = PhysicsWorld::new();
    let first = world.add_body(UNIT, 2 * UNIT);
    let second = world.add_body(3 * UNIT, 4 * UNIT);
    assert_eq!(first.index, 0);
    assert_eq!(second.index, 1);
    assert_eq!(
        world.lookup(first),
        Some(Body { x: UNIT, y: 2 * UNIT, vx: 0, vy: 0 })
    );
    assert_eq!(
        world.lookup(second),
        Some(Body { x: 3 * UNIT, y: 4 * UNIT, vx: 0, vy: 0 })
    );
}

#[test]
fn lookup_of_invalid_handle_is_none() {
    let mut world = PhysicsWorld::new();
    world.add_body(UNIT, UNIT);
    assert_eq!(world.lookup(BodyHandle { index: 1 }), None);
    assert_eq!(world.lookup(BodyHandle { index: usize::MAX }), None);
}

#[test]
fn step_applies_gravity_then_integrates() {
    let mut world = PhysicsWorld::new();
    world.set_gravity(0, -UNIT);
    let handle = world.add_body(50 * UNIT, 50 * UNIT);
    world.step();
    assert_eq!(
        world.lookup(handle),
        Some(Body { x: 50 * UNIT, y: 49 * UNIT, vx: 0, vy: -UNIT })
    );
    world.step();
    assert_eq!(
        world.lookup(handle),
        Some(Body { x: 50 * UNIT, y: 47 * UNIT, vx: 0, vy: -2 * UNIT })
    );
}

#[test]
fn step_preserves_sideways_velocity() {
    let mut world = PhysicsWorld::new();
    let handle = world.add_body(10 * UNIT, 20 * UNIT);
    world.set_gravity(2 * UNIT, 0);
    world.step();
    world.step();
    world.step();
    // velocity after three steps: 6 units; positions: 2 + 4 + 6 = 12 units on.
    assert_eq!(
        world.lookup(handle),
        Some(Body { x: 22 * UNIT, y: 20 * UNIT, vx: 6 * UNIT, vy: 0 })
    );
}

#[test]
fn stepping_is_deterministic() {
    let mut first = PhysicsWorld::new();
    let mut second = PhysicsWorld::new();
    for world in [&mut first, &mut second] {
        world.set_gravity(3, -UNIT);
        world.add_body(50 * UNIT, 50 * UNIT);
        world.add_body(7 * UNIT, 93 * UNIT);
    }
    for _ in 0..5 {
        first.step();
        second.step();
    }
    for index in 0..2 {
        let handle = BodyHandle { index };
        assert_eq!(first.lookup(handle), second.lookup(handle));
        assert!(first.lookup(handle).is_some());
    }
}

#[test]
fn step_saturates_at_the_coordinate_limit() {
    let mut world = PhysicsWorld::new();
    let handle = world.add_body(i64::MAX - 500, 0);
    world.set_gravity(1000, 0);
    world.step();
    let body = world.lookup(handle).unwrap();
    assert_eq!(body.vx, 1000);
    assert_eq!(body.x, i64::MAX);
    world.step();
    let body = world.lookup(handle).unwrap();
    assert_eq!(body.vx, 2000);
    assert_eq!(body.x, i64::MAX);
}
