//! Data model and match setup: the arena constants, the entity components
//! (paddles, ball, rigid-body references, spatial transforms), the
//! entity-component store, and the game state advanced once per fixed tick.

use vstd::prelude::*;
use crate::physics_world::{Body, BodyHandle, PhysicsWorld, step_bodies};
use crate::systems::paddle::{InputState, PaddleSystem, paddled_transform};
use crate::systems::physics::{PhysicsSystem, synced_transform};

verus! {

/// Fixed-point coordinate units per world unit. All positions, velocities
/// and axis values in this crate are measured in these sub-units.
pub const UNIT: i64 = 1000;

/// Height of the rectangular play field, in coordinate units.
pub const ARENA_HEIGHT: i64 = 100 * UNIT;

/// Width of the rectangular play field, in coordinate units.
pub const ARENA_WIDTH: i64 = 100 * UNIT;

/// Height of a paddle's sprite, in coordinate units.
pub const PADDLE_HEIGHT: i64 = 16 * UNIT;

/// Width of a paddle's sprite, in coordinate units.
pub const PADDLE_WIDTH: i64 = 4 * UNIT;

/// Advisory radius of the ball's sprite, in coordinate units.
pub const BALL_RADIUS: i64 = 2 * UNIT;

/// Horizontal centre of the left paddle (half a paddle width from the
/// edge), fixed at initialization.
pub const LEFT_PADDLE_X: i64 = 2 * UNIT;

/// Horizontal centre of the right paddle (half a paddle width from the
/// edge), fixed at initialization.
pub const RIGHT_PADDLE_X: i64 = ARENA_WIDTH - 2 * UNIT;

/// Horizontal centre of the arena.
pub const ARENA_CENTRE_X: i64 = 50 * UNIT;

/// Vertical centre of the arena.
pub const ARENA_CENTRE_Y: i64 = 50 * UNIT;

/// Which half of the arena a paddle belongs to, and therefore which input
/// axis drives it. Immutable once assigned.
#[derive(Clone, Copy, Debug, PartialEq, Eq)]
pub enum Side {
    Left,
    Right,
}

/// An entity's spatial state, consumed by the renderer outside this crate.
/// Written by `PhysicsSystem` for physics-backed entities and directly by
/// `PaddleSystem` for paddles.
#[derive(Clone, Copy, Debug, PartialEq, Eq)]
pub struct Transform {
    pub x: i64,
    pub y: i64,
    pub z: i64,
}

/// A paddle component: its side and its sprite extents. The extents are
/// fixed configuration; the clamp in `systems::paddle` goes by the arena
/// constants.
#[derive(Clone, Copy, Debug, PartialEq, Eq)]
pub struct Paddle {
    pub side: Side,
    pub width: i64,
    pub height: i64,
}

impl Paddle {
    /// A paddle of the standard extents on the given side.
    pub fn new(side: Side) -> (p: Paddle)
        ensures
            p.side == side,
            p.width == PADDLE_WIDTH,
            p.height == PADDLE_HEIGHT,
    {
        Paddle { side, width: PADDLE_WIDTH, height: PADDLE_HEIGHT }
    }
}

/// A ball component. Its `velocity` fields are advisory metadata for
/// gameplay extensions: the simulation core never reads them, and the
/// physics body behind the entity's `RigidBody2D` is the sole authority on
/// the ball's motion.
#[derive(Clone, Copy, Debug, PartialEq, Eq)]
pub struct Ball {
    pub velocity_x: i64,
    pub velocity_y: i64,
    pub radius: i64,
}

/// A component tying an entity to a rigid body of the physics world. The
/// entity does not own the body; a handle that no longer resolves is a
/// silent miss for the synchronization system.
#[derive(Clone, Copy, Debug, PartialEq, Eq)]
pub struct RigidBody2D {
    pub handle: BodyHandle,
}

impl RigidBody2D {
    /// Registers a body at rest at `(x, y)` and wraps its handle.
    pub fn new(world: &mut PhysicsWorld, x: i64, y: i64) -> (rb: RigidBody2D)
        ensures
            rb.handle.index == old(world).bodies@.len(),
            final(world).bodies@ == old(world).bodies@.push(Body { x, y, vx: 0, vy: 0 }),
            final(world).gravity_x == old(world).gravity_x,
            final(world).gravity_y == old(world).gravity_y,
    {
        RigidBody2D { handle: world.add_body(x, y) }
    }
}

/// The component of entity `i` in a component column, or `None` when the
/// column does not reach that entity.
pub open spec fn component_at<T>(column: Seq<Option<T>>, i: int) -> Option<T> {
    if 0 <= i < column.len() {
        column[i]
    } else {
        None
    }
}

/// The entity-component store: one column per component type, indexed by
/// entity identifier. An entity owns the components at its index; `None`
/// marks a component the entity does not have.
pub struct EntityStore {
    pub transforms: Vec<Option<Transform>>,
    pub paddles: Vec<Option<Paddle>>,
    pub balls: Vec<Option<Ball>>,
    pub bodies: Vec<Option<RigidBody2D>>,
}

impl EntityStore {
    /// All columns cover the same entities.
    pub open spec fn wf(&self) -> bool {
        &&& self.paddles@.len() == self.transforms@.len()
        &&& self.balls@.len() == self.transforms@.len()
        &&& self.bodies@.len() == self.transforms@.len()
    }

    /// An empty store.
    pub fn new() -> (s: EntityStore)
        ensures
            s.wf(),
            s.transforms@.len() == 0,
    {
        EntityStore {
            transforms: Vec::new(),
            paddles: Vec::new(),
            balls: Vec::new(),
            bodies: Vec::new(),
        }
    }

    /// Creates one entity with the given components and returns its
    /// identifier.
    pub fn spawn(
        &mut self,
        transform: Option<Transform>,
        paddle: Option<Paddle>,
        ball: Option<Ball>,
        body: Option<RigidBody2D>,
    ) -> (id: usize)
        ensures
            id == old(self).transforms@.len(),
            final(self).transforms@ == old(self).transforms@.push(transform),
            final(self).paddles@ == old(self).paddles@.push(paddle),
            final(self).balls@ == old(self).balls@.push(ball),
            final(self).bodies@ == old(self).bodies@.push(body),
            old(self).wf() ==> final(self).wf(),
    {
        let id = self.transforms.len();
        self.transforms.push(transform);
        self.paddles.push(paddle);
        self.balls.push(ball);
        self.bodies.push(body);
        id
    }
}

/// Everything the simulation advances: the entity store and the physics
/// world. Created once at startup, mutated every tick, torn down at process
/// exit.
pub struct GameState {
    pub entities: EntityStore,
    pub physics: PhysicsWorld,
}

/// Creates the two paddle entities, centred vertically and flush with the
/// arena's left and right edges.
fn initialise_paddles(entities: &mut EntityStore)
    ensures
        final(entities).transforms@ == old(entities).transforms@
            .push(Some(Transform { x: LEFT_PADDLE_X, y: ARENA_CENTRE_Y, z: 0 }))
            .push(Some(Transform { x: RIGHT_PADDLE_X, y: ARENA_CENTRE_Y, z: 0 })),
        final(entities).paddles@ == old(entities).paddles@
            .push(Some(Paddle { side: Side::Left, width: PADDLE_WIDTH, height: PADDLE_HEIGHT }))
            .push(Some(Paddle { side: Side::Right, width: PADDLE_WIDTH, height: PADDLE_HEIGHT })),
        final(entities).balls@ == old(entities).balls@.push(None).push(None),
        final(entities).bodies@ == old(entities).bodies@.push(None).push(None),
{
    let left_transform = Transform { x: LEFT_PADDLE_X, y: ARENA_CENTRE_Y, z: 0 };
    let right_transform = Transform { x: RIGHT_PADDLE_X, y: ARENA_CENTRE_Y, z: 0 };
    entities.spawn(Some(left_transform), Some(Paddle::new(Side::Left)), None, None);
    entities.spawn(Some(right_transform), Some(Paddle::new(Side::Right)), None, None);
}

/// Creates the ball entity at the arena's centre, backed by a rigid body of
/// the physics world.
fn initialise_ball(entities: &mut EntityStore, physics: &mut PhysicsWorld)
    ensures
        final(entities).transforms@ == old(entities).transforms@
            .push(Some(Transform { x: ARENA_CENTRE_X, y: ARENA_CENTRE_Y, z: 0 })),
        final(entities).paddles@ == old(entities).paddles@.push(None),
        final(entities).balls@ == old(entities).balls@
            .push(Some(Ball { velocity_x: 0, velocity_y: 0, radius: BALL_RADIUS })),
        final(entities).bodies@ == old(entities).bodies@.push(Some(RigidBody2D {
            handle: BodyHandle { index: old(physics).bodies@.len() as usize },
        })),
        final(physics).bodies@ == old(physics).bodies@.push(Body {
            x: ARENA_CENTRE_X,
            y: ARENA_CENTRE_Y,
            vx: 0,
            vy: 0,
        }),
        final(physics).gravity_x == old(physics).gravity_x,
        final(physics).gravity_y == old(physics).gravity_y,
{
    let transform = Transform { x: ARENA_CENTRE_X, y: ARENA_CENTRE_Y, z: 0 };
    let rigid_body = RigidBody2D::new(physics, ARENA_CENTRE_X, ARENA_CENTRE_Y);
    let ball = Ball { velocity_x: 0, velocity_y: 0, radius: BALL_RADIUS };
    entities.spawn(Some(transform), None, Some(ball), Some(rigid_body));
}

/// Creates the camera entity: a bare transform raised one unit above the
/// play plane. Projection setup belongs to the renderer outside this crate.
fn initialise_camera(entities: &mut EntityStore)
    ensures
        final(entities).transforms@ == old(entities).transforms@
            .push(Some(Transform { x: 0, y: 0, z: UNIT })),
        final(entities).paddles@ == old(entities).paddles@.push(None),
        final(entities).balls@ == old(entities).balls@.push(None),
        final(entities).bodies@ == old(entities).bodies@.push(None),
{
    let transform = Transform { x: 0, y: 0, z: UNIT };
    entities.spawn(Some(transform), None, None, None);
}

/// The match itself: its entry point builds the initial state, and its
/// fixed-step hook advances the physics world.
pub struct Pong;

impl Pong {
    /// Builds the initial match state: gravity of one unit per tick squared
    /// pulling down, the two paddles, the physics-backed ball at the centre,
    /// and the camera. Entity identifiers are `0` (left paddle), `1` (right
    /// paddle), `2` (ball), `3` (camera).
    pub fn on_start(&mut self) -> (state: GameState)
        ensures
            state.entities.wf(),
            state.entities.transforms@.len() == 4,
            state.entities.transforms@[0] == Some(Transform {
                x: LEFT_PADDLE_X,
                y: ARENA_CENTRE_Y,
                z: 0,
            }),
            state.entities.transforms@[1] == Some(Transform {
                x: RIGHT_PADDLE_X,
                y: ARENA_CENTRE_Y,
                z: 0,
            }),
            state.entities.transforms@[2] == Some(Transform {
                x: ARENA_CENTRE_X,
                y: ARENA_CENTRE_Y,
                z: 0,
            }),
            state.entities.transforms@[3] == Some(Transform { x: 0, y: 0, z: UNIT }),
            state.entities.paddles@[0] == Some(Paddle {
                side: Side::Left,
                width: PADDLE_WIDTH,
                height: PADDLE_HEIGHT,
            }),
            state.entities.paddles@[1] == Some(Paddle {
                side: Side::Right,
                width: PADDLE_WIDTH,
                height: PADDLE_HEIGHT,
            }),
            (state.entities.paddles@[2] is None),
            (state.entities.paddles@[3] is None),
            (state.entities.balls@[0] is None),
            (state.entities.balls@[1] is None),
            state.entities.balls@[2] == Some(Ball {
                velocity_x: 0,
                velocity_y: 0,
                radius: BALL_RADIUS,
            }),
            (state.entities.balls@[3] is None),
            (state.entities.bodies@[0] is None),
            (state.entities.bodies@[1] is None),
            state.entities.bodies@[2] == Some(RigidBody2D { handle: BodyHandle { index: 0 } }),
            (state.entities.bodies@[3] is None),
            state.physics.gravity_x == 0,
            state.physics.gravity_y == -UNIT,
            state.physics.bodies@.len() == 1,
            state.physics.bodies@[0] == (Body {
                x: ARENA_CENTRE_X,
                y: ARENA_CENTRE_Y,
                vx: 0,
                vy: 0,
            }),
    {
        let mut physics = PhysicsWorld::new();
        physics.set_gravity(0, -UNIT);
        let mut entities = EntityStore::new();
        initialise_paddles(&mut entities);
        initialise_ball(&mut entities, &mut physics);
        initialise_camera(&mut entities);
        GameState { entities, physics }
    }

    /// The fixed-step hook: advances the physics world by one step and
    /// leaves the entities untouched.
    pub fn fixed_update(&mut self, state: &mut GameState)
        ensures
            final(state).entities == old(state).entities,
            final(state).physics.gravity_x == old(state).physics.gravity_x,
            final(state).physics.gravity_y == old(state).physics.gravity_y,
            final(state).physics.bodies@ == step_bodies(
                old(state).physics.bodies@,
                old(state).physics.gravity_x,
                old(state).physics.gravity_y,
            ),
    {
        state.physics.step();
    }
}

/// One full simulation tick: the physics world advances by one fixed step,
/// then body positions are projected into transforms, then paddle input is
/// applied under arena clamping. Only transforms and physics bodies change.
pub fn tick(state: &mut GameState, input: &InputState)
    ensures
        final(state).physics.gravity_x == old(state).physics.gravity_x,
        final(state).physics.gravity_y == old(state).physics.gravity_y,
        final(state).physics.bodies@ == step_bodies(
            old(state).physics.bodies@,
            old(state).physics.gravity_x,
            old(state).physics.gravity_y,
        ),
        final(state).entities.paddles@ == old(state).entities.paddles@,
        final(state).entities.balls@ == old(state).entities.balls@,
        final(state).entities.bodies@ == old(state).entities.bodies@,
        final(state).entities.transforms@.len() == old(state).entities.transforms@.len(),
        old(state).entities.wf() ==> final(state).entities.wf(),
        forall|i: int|
            0 <= i < old(state).entities.transforms@.len()
                ==> final(state).entities.transforms@[i] == paddled_transform(
                synced_transform(
                    old(state).entities.transforms@[i],
                    component_at(old(state).entities.bodies@, i),
                    step_bodies(
                        old(state).physics.bodies@,
                        old(state).physics.gravity_x,
                        old(state).physics.gravity_y,
                    ),
                ),
                component_at(old(state).entities.paddles@, i),
                *input,
            ),
{
    state.physics.step();
    PhysicsSystem.run(&mut state.entities.transforms, &state.entities.bodies, &state.physics);
    PaddleSystem.run(&mut state.entities.transforms, &state.entities.paddles, input);
}

} // verus!
