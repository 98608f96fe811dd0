use limbo_pass::body::Body;
use limbo_pass::form::{
    apply_movement, get_movement, local_force_torque, wrap_movement, ExternalForce, Form, KeyState,
    Movement, Movements, Transform, Velocity, LIFT_FACTOR, PUSH_FACTOR, TURN_FACTOR,
};
use limbo_pass::vector::{Basis, Vec3, Wide3};

fn ghost_form() -> Form {
    Form::new(Vec3::new(300_000, 100_000, 300_000), Vec3::new(250_000, 500_000, 250_000))
}

fn at_rest() -> Velocity {
    Velocity { linvel: Vec3::zero(), angvel: Vec3::zero() }
}

fn placed(x: i32, y: i32, z: i32) -> Transform {
    Transform { translation: Vec3::new(x, y, z), basis: Basis::identity() }
}

fn no_force() -> ExternalForce {
    ExternalForce { force: Wide3::zero(), torque: Wide3::zero() }
}

fn intents(list: &[Movement]) -> Movements {
    let mut ms = Movements::new();
    for m in list {
        ms.push(*m);
    }
    ms
}

fn stored(ms: &Movements) -> Vec<Movement> {
    (0..ms.len()).map(|i| ms.get(i)).collect()
}

/// A quarter turn about +Y: body forward (+X) points along world -Z.
fn quarter_turn() -> Basis {
    Basis {
        x_axis: Vec3::new(0, 0, -1000),
        y_axis: Vec3::new(0, 1000, 0),
        z_axis: Vec3::new(1000, 0, 0),
    }
}

#[test]
fn forward_and_turn_local_force_and_torque() {
    let ms = intents(&[Movement::PushForward(30_000), Movement::TurnLeft(20_000)]);
    let (force, torque) = local_force_torque(&ms, &ghost_form());
    // (9000, 0, 0) and (0, 2000, 0) world units, in millionths
    assert_eq!(force, Wide3::new(9_000_000_000, 0, 0));
    assert_eq!(torque, Wide3::new(0, 2_000_000_000, 0));
}

#[test]
fn forward_and_turn_at_rest_unrotated() {
    let ms = intents(&[Movement::PushForward(30_000), Movement::TurnLeft(20_000)]);
    let mut out = no_force();
    apply_movement(&ms, &ghost_form(), &placed(0, 0, 0), &at_rest(), &mut out);
    // the unrotated basis scales by a thousand, drag adds nothing at rest
    assert_eq!(out.force, Wide3::new(9_000_000_000_000, 0, 0));
    assert_eq!(out.torque, Wide3::new(0, 2_000_000_000_000, 0));
}

#[test]
fn forward_push_follows_rotated_forward_axis() {
    let ms = intents(&[Movement::PushForward(30_000)]);
    let form = ghost_form();
    let t = Transform { translation: Vec3::zero(), basis: quarter_turn() };
    let mut out = no_force();
    apply_movement(&ms, &form, &t, &at_rest(), &mut out);
    // thrust.x * p along the forward axis (0, 0, -1)
    let k: i128 = 300_000 * 30_000;
    assert_eq!(out.force, Wide3::new(0, 0, -1000 * k));
    assert_eq!(out.torque, Wide3::zero());
}

#[test]
fn several_forward_pushes_add_up() {
    let ms = intents(&[Movement::PushForward(10_000), Movement::PushForward(5_000)]);
    let t = Transform { translation: Vec3::zero(), basis: quarter_turn() };
    let mut out = no_force();
    apply_movement(&ms, &ghost_form(), &t, &at_rest(), &mut out);
    let k: i128 = 300_000 * 15_000;
    assert_eq!(out.force, Wide3::new(0, 0, -1000 * k));
}

#[test]
fn drag_cancels_thrust_at_steady_velocity() {
    let gains = Vec3::new(250_000, 500_000, 250_000);
    let form = Form::new(gains, gains);
    let ms = intents(&[Movement::PushRight(4_000)]);
    let steady = Velocity { linvel: Vec3::new(0, 0, 4_000), angvel: Vec3::zero() };
    let mut out = no_force();
    apply_movement(&ms, &form, &placed(0, 0, 0), &steady, &mut out);
    assert_eq!(out.force, Wide3::zero());
    assert_eq!(out.torque, Wide3::zero());
}

#[test]
fn drag_pulls_velocity_toward_steady_state() {
    let gains = Vec3::new(250_000, 500_000, 250_000);
    let form = Form::new(gains, gains);
    let ms = intents(&[Movement::PushForward(4_000)]);
    let slow = Velocity { linvel: Vec3::new(1_000, 0, 0), angvel: Vec3::zero() };
    let fast = Velocity { linvel: Vec3::new(7_000, 0, 0), angvel: Vec3::zero() };
    let mut out = no_force();
    apply_movement(&ms, &form, &placed(0, 0, 0), &slow, &mut out);
    // 1000 * drag * (push - velocity)
    assert_eq!(out.force, Wide3::new(1000 * 250_000 * 3_000, 0, 0));
    apply_movement(&ms, &form, &placed(0, 0, 0), &fast, &mut out);
    assert_eq!(out.force, Wide3::new(-1000 * 250_000 * 3_000, 0, 0));
}

#[test]
fn drag_on_angular_velocity() {
    let ms = Movements::new();
    let spin = Velocity { linvel: Vec3::new(2, -3, 4), angvel: Vec3::new(0, 1_000, 0) };
    let mut out = no_force();
    apply_movement(&ms, &ghost_form(), &placed(0, 0, 0), &spin, &mut out);
    assert_eq!(out.force, Wide3::new(-1000 * 2 * 250_000, 1000 * 3 * 500_000, -1000 * 4 * 250_000));
    assert_eq!(out.torque, Wide3::new(0, -1000 * 1_000 * 500_000, 0));
}

#[test]
fn output_is_replaced_not_accumulated() {
    let ms = intents(&[Movement::Lift(90_000)]);
    let mut out = ExternalForce { force: Wide3::new(5, 5, 5), torque: Wide3::new(7, 7, 7) };
    apply_movement(&ms, &ghost_form(), &placed(0, 0, 0), &at_rest(), &mut out);
    assert_eq!(out.force, Wide3::new(0, 1000 * 90_000 * 100_000, 0));
    assert_eq!(out.torque, Wide3::zero());
}

#[test]
fn linear_and_angular_axis_mapping() {
    assert_eq!(Movement::PushForward(7).as_lin_vec(), Wide3::new(7, 0, 0));
    assert_eq!(Movement::PushBackward(7).as_lin_vec(), Wide3::new(-7, 0, 0));
    assert_eq!(Movement::PushLeft(7).as_lin_vec(), Wide3::new(0, 0, -7));
    assert_eq!(Movement::PushRight(7).as_lin_vec(), Wide3::new(0, 0, 7));
    assert_eq!(Movement::Lift(7).as_lin_vec(), Wide3::new(0, 7, 0));
    assert_eq!(Movement::TurnLeft(7).as_lin_vec(), Wide3::zero());
    assert_eq!(Movement::TurnRight(7).as_lin_vec(), Wide3::zero());
    assert_eq!(Movement::TurnLeft(7).as_ang_vec(), Wide3::new(0, 7, 0));
    assert_eq!(Movement::TurnRight(7).as_ang_vec(), Wide3::new(0, -7, 0));
    assert_eq!(Movement::PushForward(7).as_ang_vec(), Wide3::zero());
    assert_eq!(Movement::Lift(7).as_ang_vec(), Wide3::zero());
    assert_eq!(Movement::PushBackward(i32::MIN).as_lin_vec(), Wide3::new(2_147_483_648, 0, 0));
}

#[test]
fn keys_raise_intents_in_fixed_order() {
    let mut ms = Movements::new();
    let keys = KeyState {
        w: false,
        up: true,
        s: true,
        down: false,
        a: true,
        d: true,
        left: true,
        right: true,
        space: true,
    };
    get_movement(&mut ms, &keys);
    assert_eq!(
        stored(&ms),
        vec![
            Movement::PushForward(PUSH_FACTOR),
            Movement::PushBackward(PUSH_FACTOR),
            Movement::PushLeft(PUSH_FACTOR),
            Movement::PushRight(PUSH_FACTOR),
            Movement::TurnLeft(TURN_FACTOR),
            Movement::TurnRight(TURN_FACTOR),
            Movement::Lift(LIFT_FACTOR),
        ]
    );
    assert_eq!(PUSH_FACTOR, 30_000);
    assert_eq!(TURN_FACTOR, 20_000);
    assert_eq!(LIFT_FACTOR, 90_000);
}

#[test]
fn forward_and_turn_together() {
    let mut ms = Movements::new();
    let mut keys = KeyState::none();
    keys.w = true;
    keys.left = true;
    get_movement(&mut ms, &keys);
    assert_eq!(stored(&ms), vec![Movement::PushForward(30_000), Movement::TurnLeft(20_000)]);
}

#[test]
fn idle_collection_twice_is_empty() {
    let mut ms = intents(&[Movement::PushLeft(1), Movement::Lift(2)]);
    get_movement(&mut ms, &KeyState::none());
    assert_eq!(ms.len(), 0);
    get_movement(&mut ms, &KeyState::none());
    assert_eq!(ms.len(), 0);
}

#[test]
fn collection_replaces_previous_tick() {
    let mut ms = intents(&[Movement::PushLeft(1), Movement::Lift(2)]);
    let mut keys = KeyState::none();
    keys.space = true;
    get_movement(&mut ms, &keys);
    assert_eq!(stored(&ms), vec![Movement::Lift(90_000)]);
}

#[test]
fn wrap_resets_past_bound() {
    let mut t = placed(50_010, 3_000, 0);
    wrap_movement(&mut t);
    assert_eq!(t.translation, Vec3::new(0, 20_000, 0));
}

#[test]
fn wrap_keeps_inside_bound() {
    let mut t = placed(49_990, 3_000, 0);
    wrap_movement(&mut t);
    assert_eq!(t.translation, Vec3::new(49_990, 3_000, 0));
    let mut edge = placed(50_000, 0, -50_000);
    wrap_movement(&mut edge);
    assert_eq!(edge.translation, Vec3::new(50_000, 0, -50_000));
}

#[test]
fn wrap_checks_both_sides_of_x_and_z_not_y() {
    for (x, z) in [(-50_001, 0), (0, 50_001), (0, -50_001)] {
        let mut t = Transform { translation: Vec3::new(x, 1, z), basis: quarter_turn() };
        wrap_movement(&mut t);
        assert_eq!(t.translation, Vec3::new(0, 20_000, 0));
        assert_eq!(t.basis, quarter_turn());
    }
    let mut high = placed(0, 900_000, 0);
    wrap_movement(&mut high);
    assert_eq!(high.translation, Vec3::new(0, 900_000, 0));
}

fn ghost_body(previous: &[Movement]) -> Body {
    Body {
        movements: intents(previous),
        form: ghost_form(),
        transform: placed(0, 1_500, 0),
        velocity: at_rest(),
        external_force: no_force(),
    }
}

#[test]
fn resolution_before_collection_sees_previous_intents() {
    let mut b = ghost_body(&[Movement::PushBackward(30_000)]);
    let mut keys = KeyState::none();
    keys.w = true;
    // misordered: resolve first, then collect
    apply_movement(&b.movements, &b.form, &b.transform, &b.velocity, &mut b.external_force);
    get_movement(&mut b.movements, &keys);
    assert_eq!(b.external_force.force, Wide3::new(-9_000_000_000_000, 0, 0));
    assert_eq!(stored(&b.movements), vec![Movement::PushForward(30_000)]);
}

#[test]
fn tick_resolves_this_ticks_intents() {
    let mut b = ghost_body(&[Movement::PushBackward(30_000)]);
    let mut keys = KeyState::none();
    keys.w = true;
    b.tick(&keys);
    assert_eq!(b.external_force.force, Wide3::new(9_000_000_000_000, 0, 0));
    assert_eq!(b.transform.translation, Vec3::new(0, 1_500, 0));
}

#[test]
fn tick_wraps_after_resolving() {
    let mut b = ghost_body(&[]);
    b.transform.translation = Vec3::new(-60_000, 4_000, 0);
    b.tick(&KeyState::none());
    assert_eq!(b.transform.translation, Vec3::new(0, 20_000, 0));
    assert_eq!(b.external_force.force, Wide3::zero());
}
