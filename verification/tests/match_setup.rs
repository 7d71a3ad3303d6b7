use pong_core::physics_world::Body;
use pong_core::pong::{
    tick, Ball, BALL_RADIUS, LEFT_PADDLE_X, PADDLE_HEIGHT, PADDLE_WIDTH, Paddle, Pong,
    RIGHT_PADDLE_X, Side, Transform, UNIT,
};
use pong_core::systems::paddle::{InputState, PADDLE_Y_MAX, PADDLE_Y_MIN};

#[test]
fn initial_layout_matches_configuration() {
    let state = Pong.on_start();
    let entities = &state.entities;
    assert_eq!(entities.transforms.len(), 4);
    assert_eq!(
        entities.transforms[0],
        Some(Transform { x: LEFT_PADDLE_X, y: 50 * UNIT, z: 0 })
    );
    assert_eq!(
        entities.transforms[1],
        Some(Transform { x: RIGHT_PADDLE_X, y: 50 * UNIT, z: 0 })
    );
    assert_eq!(
        entities.transforms[2],
        Some(Transform { x: 50 * UNIT, y: 50 * UNIT, z: 0 })
    );
    assert_eq!(entities.transforms[3], Some(Transform { x: 0, y: 0, z: UNIT }));
    assert_eq!(
        entities.paddles[0],
        Some(Paddle { side: Side::Left, width: PADDLE_WIDTH, height: PADDLE_HEIGHT })
    );
    assert_eq!(
        entities.paddles[1],
        Some(Paddle { side: Side::Right, width: PADDLE_WIDTH, height: PADDLE_HEIGHT })
    );
    assert_eq!(entities.paddles[2], None);
    assert_eq!(
        entities.balls[2],
        Some(Ball { velocity_x: 0, velocity_y: 0, radius: BALL_RADIUS })
    );
    let reference = entities.bodies[2].unwrap();
    assert_eq!(reference.handle.index, 0);
    assert_eq!(state.physics.gravity_x, 0);
    assert_eq!(state.physics.gravity_y, -UNIT);
    assert_eq!(
        state.physics.lookup(reference.handle),
        Some(Body { x: 50 * UNIT, y: 50 * UNIT, vx: 0, vy: 0 })
    );
}

#[test]
fn fixed_update_steps_only_physics() {
    let mut state = Pong.on_start();
    let transforms_before = state.entities.transforms.clone();
    let paddles_before = state.entities.paddles.clone();
    Pong.fixed_update(&mut state);
    assert_eq!(state.entities.transforms, transforms_before);
    assert_eq!(state.entities.paddles, paddles_before);
    let ball_body = state.physics.lookup(state.entities.bodies[2].unwrap().handle);
    assert_eq!(
        ball_body,
        Some(Body { x: 50 * UNIT, y: 49 * UNIT, vx: 0, vy: -UNIT })
    );
}

#[test]
fn full_tick_moves_ball_and_paddle() {
    let mut state = Pong.on_start();
    let input = InputState { left_paddle: Some(100 * UNIT), right_paddle: Some(0) };
    tick(&mut state, &input);
    // The ball's body fell one unit and the sync copied it into the transform.
    assert_eq!(
        state.entities.transforms[2],
        Some(Transform { x: 50 * UNIT, y: 49 * UNIT, z: 0 })
    );
    // The left paddle's huge displacement was clamped; the right axis was
    // zero, an explicit no-op; the camera was never touched.
    assert_eq!(state.entities.transforms[0].unwrap().y, 92 * UNIT);
    assert_eq!(state.entities.transforms[1].unwrap().y, 50 * UNIT);
    assert_eq!(state.entities.transforms[3], Some(Transform { x: 0, y: 0, z: UNIT }));
}

#[test]
fn many_ticks_keep_paddles_in_band() {
    let mut state = Pong.on_start();
    for round in 0..100i64 {
        let swing = if round % 2 == 0 { 90 * UNIT } else { -90 * UNIT };
        let input = InputState { left_paddle: Some(swing), right_paddle: Some(-swing) };
        tick(&mut state, &input);
        for id in [0usize, 1usize] {
            let y = state.entities.transforms[id].unwrap().y;
            assert!(PADDLE_Y_MIN <= y && y <= PADDLE_Y_MAX);
        }
    }
}
