//! The paddle-input system: once per tick it reads the axis value for each
//! paddle's side, treats it as a vertical displacement for this tick, clamps
//! the candidate position to the arena's playable band, and writes the
//! result into the paddle's transform. A zero or absent axis value is an
//! explicit no-op: the transform is not written at all.

use vstd::prelude::*;
use crate::pong::{ARENA_HEIGHT, UNIT, Paddle, Side, Transform, component_at};

verus! {

/// Lowest admissible centre of a paddle (half a paddle height above the
/// floor): the sprite touches the floor.
pub const PADDLE_Y_MIN: i64 = 8 * UNIT;

/// Highest admissible centre of a paddle (half a paddle height below the
/// ceiling): the sprite touches the ceiling.
pub const PADDLE_Y_MAX: i64 = ARENA_HEIGHT - 8 * UNIT;

/// The input-device state for one tick, as handed in by the embedding
/// shell: one axis value per paddle side, in fixed-point coordinate units.
/// An absent value means the device reported nothing and is treated as
/// neutral, never as an error.
#[derive(Clone, Copy, Debug, PartialEq, Eq)]
pub struct InputState {
    pub left_paddle: Option<i64>,
    pub right_paddle: Option<i64>,
}

/// The axis value that drives a paddle of the given side.
pub open spec fn axis_for(side: Side, input: InputState) -> Option<i64> {
    match side {
        Side::Left => input.left_paddle,
        Side::Right => input.right_paddle,
    }
}

/// A candidate paddle centre clamped into the playable band.
pub open spec fn clamped(candidate: int) -> int {
    if candidate < PADDLE_Y_MIN as int {
        PADDLE_Y_MIN as int
    } else if candidate > PADDLE_Y_MAX as int {
        PADDLE_Y_MAX as int
    } else {
        candidate
    }
}

/// A paddle's vertical centre after one tick of the given axis value: zero
/// or absent input leaves it exactly where it was; anything else displaces
/// it by the axis value and clamps.
pub open spec fn paddle_new_y(y: i64, axis: Option<i64>) -> int {
    match axis {
        None => y as int,
        Some(amount) => if amount == 0 {
            y as int
        } else {
            clamped(y + amount)
        },
    }
}

/// An entity's transform after the paddle-input system has visited it:
/// untouched unless the entity has both a paddle and a transform, in which
/// case only the vertical position moves.
pub open spec fn paddled_transform(
    transform: Option<Transform>,
    paddle: Option<Paddle>,
    input: InputState,
) -> Option<Transform> {
    match (transform, paddle) {
        (Some(t), Some(p)) => Some(Transform {
            x: t.x,
            y: paddle_new_y(t.y, axis_for(p.side, input)) as i64,
            z: t.z,
        }),
        _ => transform,
    }
}

/// Displaces a paddle centre by `amount` and clamps it into the playable
/// band, exactly as `clamped` says, for every pair of inputs.
fn clamp_move(y: i64, amount: i64) -> (r: i64)
    ensures
        r as int == clamped(y as int + amount as int),
{
    let candidate: i128 = y as i128 + amount as i128;
    if candidate < PADDLE_Y_MIN as i128 {
        PADDLE_Y_MIN
    } else if candidate > PADDLE_Y_MAX as i128 {
        PADDLE_Y_MAX
    } else {
        candidate as i64
    }
}

/// The axis value for the given side, read from this tick's input state.
fn movement(side: Side, input: &InputState) -> (r: Option<i64>)
    ensures
        r == axis_for(side, *input),
{
    match side {
        Side::Left => input.left_paddle,
        Side::Right => input.right_paddle,
    }
}

/// Translates per-tick input into paddle positions, respecting the arena
/// bounds. Writes transforms directly, bypassing the physics world.
pub struct PaddleSystem;

impl PaddleSystem {
    /// Visits every entity: where it owns both a paddle and a transform,
    /// applies this tick's axis value for the paddle's side under clamping;
    /// everywhere else the transform is left untouched.
    pub fn run(
        &self,
        transforms: &mut Vec<Option<Transform>>,
        paddles: &Vec<Option<Paddle>>,
        input: &InputState,
    )
        ensures
            final(transforms)@.len() == old(transforms)@.len(),
            forall|i: int|
                0 <= i < old(transforms)@.len() ==> final(transforms)@[i] == paddled_transform(
                    old(transforms)@[i],
                    component_at(paddles@, i),
                    *input,
                ),
    {
        let n = transforms.len();
        let mut i: usize = 0;
        while i < n
            invariant
                i <= n,
                n == transforms@.len(),
                transforms@.len() == old(transforms)@.len(),
                forall|j: int|
                    0 <= j < i ==> transforms@[j] == paddled_transform(
                        old(transforms)@[j],
                        component_at(paddles@, j),
                        *input,
                    ),
                forall|j: int| i <= j < n ==> transforms@[j] == old(transforms)@[j],
            decreases n - i,
        {
            let paddle_side: Option<Side> = if i < paddles.len() {
                match paddles[i] {
                    Some(p) => Some(p.side),
                    None => None,
                }
            } else {
                None
            };
            if let Some(side) = paddle_side {
                if let Some(current) = transforms[i] {
                    let moved = movement(side, input);
                    if let Some(amount) = moved {
                        if amount != 0 {
                            let new_y = clamp_move(current.y, amount);
                            transforms.set(i, Some(Transform {
                                x: current.x,
                                y: new_y,
                                z: current.z,
                            }));
                        }
                    }
                }
            }
            i += 1;
        }
    }
}

/// Clamping invariant: a paddle whose centre lies inside the playable band
/// still lies inside it after any tick of input, whatever the axis value.
pub proof fn lemma_clamping_invariant(y: i64, axis: Option<i64>)
    requires
        PADDLE_Y_MIN <= y <= PADDLE_Y_MAX,
    ensures
        PADDLE_Y_MIN as int <= paddle_new_y(y, axis) <= PADDLE_Y_MAX as int,
{
}

/// `transform_in_band` holds where an entity is not a placed paddle, and
/// otherwise demands that the paddle's centre lies inside the playable band.
pub open spec fn transform_in_band(transform: Option<Transform>, paddle: Option<Paddle>) -> bool {
    match (transform, paddle) {
        (Some(t), Some(_)) => PADDLE_Y_MIN <= t.y <= PADDLE_Y_MAX,
        _ => true,
    }
}

/// Clamping invariant over the whole store: if every placed paddle lies
/// inside the playable band before the paddle-input system runs, every
/// placed paddle lies inside it afterwards, for any input.
pub proof fn lemma_run_keeps_band(
    before: Seq<Option<Transform>>,
    paddles: Seq<Option<Paddle>>,
    input: InputState,
    after: Seq<Option<Transform>>,
)
    requires
        after.len() == before.len(),
        forall|i: int|
            0 <= i < before.len() ==> after[i] == paddled_transform(
                before[i],
                component_at(paddles, i),
                input,
            ),
        forall|i: int| 0 <= i < before.len() ==> transform_in_band(before[i], component_at(paddles, i)),
    ensures
        forall|i: int| 0 <= i < after.len() ==> transform_in_band(after[i], component_at(paddles, i)),
{
    assert forall|i: int| 0 <= i < after.len() implies transform_in_band(
        after[i],
        component_at(paddles, i),
    ) by {
        match (before[i], component_at(paddles, i)) {
            (Some(t), Some(_)) => {
                lemma_clamping_invariant(t.y, axis_for(component_at(paddles, i)->Some_0.side, input));
            },
            _ => {},
        }
    }
}

/// Zero-input no-op: where a paddle's axis reports zero or nothing, the
/// paddle-input system leaves the entity's transform exactly unchanged.
pub proof fn lemma_zero_input_noop(
    transform: Option<Transform>,
    paddle: Option<Paddle>,
    input: InputState,
)
    requires
        match paddle {
            Some(p) => axis_for(p.side, input) == Some(0i64) || axis_for(p.side, input) is None,
            None => true,
        },
    ensures
        paddled_transform(transform, paddle, input) == transform,
{
}

} // verus!
