use vstd::prelude::*;
use crate::vector::{
    bounded, ivec, lemma_mul_bound, local_bound, small_bound, vadd, vmul, vscale, vsub, zero,
    Basis, IVec3, Vec3, Wide3, ONE,
};

verus! {

/// Push that a held movement key asks for, in thousandths.
pub const PUSH_FACTOR: i32 = 30_000;

/// Turn that a held turn key asks for, in thousandths.
pub const TURN_FACTOR: i32 = 20_000;

/// Lift that the lift key asks for, in thousandths.
pub const LIFT_FACTOR: i32 = 90_000;

/// Longest intent set that force resolution takes; a tick of key input
/// yields at most seven.
pub const MAX_INTENTS: usize = 0x1_0000;

/// How far from the origin, on X and on Z, a body may stray (fifty units).
pub const BOUND: i32 = 50_000;

/// Height of the point a straying body is put back to (twenty units).
pub const SPAWN_HEIGHT: i32 = 20_000;

/// Per-body gains: `thrust` scales intents into force and torque, `drag`
/// scales velocity into damping. Both in thousandths.
#[derive(Clone, Copy, Debug, PartialEq, Eq, Structural)]
pub struct Form {
    pub thrust: Vec3,
    pub drag: Vec3,
}

impl Form {
    pub fn new(thrust: Vec3, drag: Vec3) -> (r: Form)
        ensures
            r == (Form { thrust, drag }),
    {
        Form { thrust, drag }
    }
}

/// One movement intent for a tick, with its magnitude in thousandths.
#[derive(Clone, Copy, Debug, PartialEq, Eq, Structural)]
pub enum Movement {
    PushForward(i32),
    PushBackward(i32),
    PushLeft(i32),
    PushRight(i32),
    TurnLeft(i32),
    TurnRight(i32),
    Lift(i32),
}

/// Body-space linear contribution: forward is +X, left is -Z, right is +Z,
/// lift is +Y; turns push nowhere.
pub open spec fn lin_of(m: Movement) -> IVec3 {
    match m {
        Movement::PushForward(p) => ivec(p as int, 0, 0),
        Movement::PushBackward(p) => ivec(-p, 0, 0),
        Movement::PushLeft(p) => ivec(0, 0, -p),
        Movement::PushRight(p) => ivec(0, 0, p as int),
        Movement::Lift(p) => ivec(0, p as int, 0),
        _ => zero(),
    }
}

/// Body-space angular contribution: a left turn is +Y, a right turn -Y;
/// pushes and lift turn nothing.
pub open spec fn ang_of(m: Movement) -> IVec3 {
    match m {
        Movement::TurnLeft(p) => ivec(0, p as int, 0),
        Movement::TurnRight(p) => ivec(0, -p, 0),
        _ => zero(),
    }
}

pub open spec fn sum_lin(s: Seq<Movement>) -> IVec3
    decreases s.len(),
{
    if s.len() == 0 {
        zero()
    } else {
        vadd(sum_lin(s.drop_last()), lin_of(s.last()))
    }
}

pub open spec fn sum_ang(s: Seq<Movement>) -> IVec3
    decreases s.len(),
{
    if s.len() == 0 {
        zero()
    } else {
        vadd(sum_ang(s.drop_last()), ang_of(s.last()))
    }
}

/// Summed linear contributions times thrust, in millionths.
pub open spec fn local_force(s: Seq<Movement>, form: Form) -> IVec3 {
    vmul(sum_lin(s), form.thrust@)
}

/// Summed angular contributions times thrust, in millionths.
pub open spec fn local_torque(s: Seq<Movement>, form: Form) -> IVec3 {
    vmul(sum_ang(s), form.thrust@)
}

/// World force in billionths: the local force carried through the basis,
/// less linear velocity times drag.
pub open spec fn resolved_force(
    s: Seq<Movement>,
    form: Form,
    transform: Transform,
    velocity: Velocity,
) -> IVec3 {
    vsub(
        transform.basis.apply(local_force(s, form)),
        vscale(ONE as int, vmul(velocity.linvel@, form.drag@)),
    )
}

/// World torque in billionths: the local torque carried through the basis,
/// less angular velocity times drag.
pub open spec fn resolved_torque(
    s: Seq<Movement>,
    form: Form,
    transform: Transform,
    velocity: Velocity,
) -> IVec3 {
    vsub(
        transform.basis.apply(local_torque(s, form)),
        vscale(ONE as int, vmul(velocity.angvel@, form.drag@)),
    )
}

impl Movement {
    pub fn as_lin_vec(&self) -> (r: Wide3)
        ensures
            r@ == lin_of(*self),
    {
        match *self {
            Movement::PushForward(p) => Wide3 { x: p as i128, y: 0, z: 0 },
            Movement::PushBackward(p) => Wide3 { x: -(p as i128), y: 0, z: 0 },
            Movement::PushLeft(p) => Wide3 { x: 0, y: 0, z: -(p as i128) },
            Movement::PushRight(p) => Wide3 { x: 0, y: 0, z: p as i128 },
            Movement::Lift(p) => Wide3 { x: 0, y: p as i128, z: 0 },
            _ => Wide3 { x: 0, y: 0, z: 0 },
        }
    }

    pub fn as_ang_vec(&self) -> (r: Wide3)
        ensures
            r@ == ang_of(*self),
    {
        match *self {
            Movement::TurnLeft(p) => Wide3 { x: 0, y: p as i128, z: 0 },
            Movement::TurnRight(p) => Wide3 { x: 0, y: -(p as i128), z: 0 },
            _ => Wide3 { x: 0, y: 0, z: 0 },
        }
    }
}

/// The intent set of one tick, in the order the intents were raised.
pub struct Movements {
    items: Vec<Movement>,
}

impl View for Movements {
    type V = Seq<Movement>;

    closed spec fn view(&self) -> Seq<Movement> {
        self.items@
    }
}

impl Movements {
    pub fn new() -> (r: Movements)
        ensures
            r@ == Seq::<Movement>::empty(),
    {
        Movements { items: Vec::new() }
    }

    pub fn push(&mut self, m: Movement)
        ensures
            final(self)@ == old(self)@.push(m),
    {
        self.items.push(m);
    }

    pub fn clear(&mut self)
        ensures
            final(self)@ == Seq::<Movement>::empty(),
    {
        self.items.clear();
    }

    pub fn len(&self) -> (r: usize)
        ensures
            r == self@.len(),
    {
        self.items.len()
    }

    pub fn get(&self, i: usize) -> (r: Movement)
        requires
            i < self@.len(),
        ensures
            r == self@[i as int],
    {
        self.items[i]
    }
}

/// Which keys are held this tick.
#[derive(Clone, Copy, Debug, PartialEq, Eq, Structural)]
pub struct KeyState {
    pub w: bool,
    pub up: bool,
    pub s: bool,
    pub down: bool,
    pub a: bool,
    pub d: bool,
    pub left: bool,
    pub right: bool,
    pub space: bool,
}

impl KeyState {
    pub open spec fn none_spec() -> KeyState {
        KeyState {
            w: false,
            up: false,
            s: false,
            down: false,
            a: false,
            d: false,
            left: false,
            right: false,
            space: false,
        }
    }

    /// No key held.
    pub fn none() -> (r: KeyState)
        ensures
            r == KeyState::none_spec(),
    {
        KeyState {
            w: false,
            up: false,
            s: false,
            down: false,
            a: false,
            d: false,
            left: false,
            right: false,
            space: false,
        }
    }
}

pub open spec fn raised(held: bool, m: Movement) -> Seq<Movement> {
    if held {
        seq![m]
    } else {
        Seq::empty()
    }
}

/// The intents that the held keys raise, in a fixed order: forward (W or
/// Up), backward (S or Down), left (A), right (D), turn left (Left), turn
/// right (Right), lift (Space).
pub open spec fn intents_for(k: KeyState) -> Seq<Movement> {
    raised(k.w || k.up, Movement::PushForward(PUSH_FACTOR))
        + raised(k.s || k.down, Movement::PushBackward(PUSH_FACTOR))
        + raised(k.a, Movement::PushLeft(PUSH_FACTOR))
        + raised(k.d, Movement::PushRight(PUSH_FACTOR))
        + raised(k.left, Movement::TurnLeft(TURN_FACTOR))
        + raised(k.right, Movement::TurnRight(TURN_FACTOR))
        + raised(k.space, Movement::Lift(LIFT_FACTOR))
}

/// Replaces the stored intent set with the one that the held keys raise;
/// nothing of the previous tick's set survives.
pub fn get_movement(movements: &mut Movements, keys: &KeyState)
    ensures
        final(movements)@ == intents_for(*keys),
{
    movements.clear();
    let ghost mut raised_so_far = Seq::<Movement>::empty();
    if keys.w || keys.up {
        movements.push(Movement::PushForward(PUSH_FACTOR));
    }
    proof {
        raised_so_far = raised_so_far + raised(keys.w || keys.up, Movement::PushForward(PUSH_FACTOR));
    }
    assert(movements@ =~= raised_so_far);
    if keys.s || keys.down {
        movements.push(Movement::PushBackward(PUSH_FACTOR));
    }
    proof {
        raised_so_far = raised_so_far + raised(keys.s || keys.down, Movement::PushBackward(PUSH_FACTOR));
    }
    assert(movements@ =~= raised_so_far);
    if keys.a {
        movements.push(Movement::PushLeft(PUSH_FACTOR));
    }
    proof {
        raised_so_far = raised_so_far + raised(keys.a, Movement::PushLeft(PUSH_FACTOR));
    }
    assert(movements@ =~= raised_so_far);
    if keys.d {
        movements.push(Movement::PushRight(PUSH_FACTOR));
    }
    proof {
        raised_so_far = raised_so_far + raised(keys.d, Movement::PushRight(PUSH_FACTOR));
    }
    assert(movements@ =~= raised_so_far);
    if keys.left {
        movements.push(Movement::TurnLeft(TURN_FACTOR));
    }
    proof {
        raised_so_far = raised_so_far + raised(keys.left, Movement::TurnLeft(TURN_FACTOR));
    }
    assert(movements@ =~= raised_so_far);
    if keys.right {
        movements.push(Movement::TurnRight(TURN_FACTOR));
    }
    proof {
        raised_so_far = raised_so_far + raised(keys.right, Movement::TurnRight(TURN_FACTOR));
    }
    assert(movements@ =~= raised_so_far);
    if keys.space {
        movements.push(Movement::Lift(LIFT_FACTOR));
    }
    proof {
        raised_so_far = raised_so_far + raised(keys.space, Movement::Lift(LIFT_FACTOR));
    }
    assert(movements@ =~= raised_so_far);
    assert(raised_so_far =~= intents_for(*keys));
}

/// Placement of a body: where it is and how its axes lie in the world.
#[derive(Clone, Copy, Debug, PartialEq, Eq, Structural)]
pub struct Transform {
    pub translation: Vec3,
    pub basis: Basis,
}

/// Linear and angular velocity, in thousandths.
#[derive(Clone, Copy, Debug, PartialEq, Eq, Structural)]
pub struct Velocity {
    pub linvel: Vec3,
    pub angvel: Vec3,
}

/// What the physics side integrates for the tick, in billionths.
#[derive(Clone, Copy, Debug, PartialEq, Eq, Structural)]
pub struct ExternalForce {
    pub force: Wide3,
    pub torque: Wide3,
}

proof fn lemma_sums_bounded(s: Seq<Movement>)
    ensures
        bounded(sum_lin(s), s.len() * small_bound()),
        bounded(sum_ang(s), s.len() * small_bound()),
    decreases s.len(),
{
    if s.len() > 0 {
        lemma_sums_bounded(s.drop_last());
    }
}

/// Summed local intents times thrust, before the world transform and drag:
/// force and torque in millionths.
pub fn local_force_torque(movements: &Movements, form: &Form) -> (r: (Wide3, Wide3))
    requires
        movements@.len() <= MAX_INTENTS,
    ensures
        r.0@ == local_force(movements@, *form),
        r.1@ == local_torque(movements@, *form),
        bounded(r.0@, local_bound()),
        bounded(r.1@, local_bound()),
{
    let n = movements.len();
    let mut lin = Wide3::zero();
    let mut ang = Wide3::zero();
    let mut i: usize = 0;
    while i < n
        invariant
            n == movements@.len(),
            n <= MAX_INTENTS,
            i <= n,
            lin@ == sum_lin(movements@.subrange(0, i as int)),
            ang@ == sum_ang(movements@.subrange(0, i as int)),
        decreases n - i,
    {
        let m = movements.get(i);
        proof {
            let pre = movements@.subrange(0, i as int);
            let next = movements@.subrange(0, i + 1);
            assert(next.drop_last() =~= pre);
            assert(next.last() == m);
            lemma_sums_bounded(pre);
        }
        let l = m.as_lin_vec();
        let a = m.as_ang_vec();
        lin = Wide3 { x: lin.x + l.x, y: lin.y + l.y, z: lin.z + l.z };
        ang = Wide3 { x: ang.x + a.x, y: ang.y + a.y, z: ang.z + a.z };
        i = i + 1;
    }
    proof {
        assert(movements@.subrange(0, n as int) =~= movements@);
        lemma_sums_bounded(movements@);
        let b = MAX_INTENTS * small_bound();
        assert(b * small_bound() == local_bound());
        lemma_mul_bound(lin.x as int, form.thrust.x as int, b, small_bound());
        lemma_mul_bound(lin.y as int, form.thrust.y as int, b, small_bound());
        lemma_mul_bound(lin.z as int, form.thrust.z as int, b, small_bound());
        lemma_mul_bound(ang.x as int, form.thrust.x as int, b, small_bound());
        lemma_mul_bound(ang.y as int, form.thrust.y as int, b, small_bound());
        lemma_mul_bound(ang.z as int, form.thrust.z as int, b, small_bound());
    }
    let t = form.thrust;
    let force = Wide3 { x: lin.x * (t.x as i128), y: lin.y * (t.y as i128), z: lin.z * (t.z as i128) };
    let torque = Wide3 { x: ang.x * (t.x as i128), y: ang.y * (t.y as i128), z: ang.z * (t.z as i128) };
    (force, torque)
}

/// A thousand times velocity times drag, in billionths.
fn drag_term(velocity: Vec3, drag: Vec3) -> (r: Wide3)
    ensures
        r@ == vscale(ONE as int, vmul(velocity@, drag@)),
        bounded(r@, small_bound() * small_bound() * 1000),
{
    proof {
        lemma_mul_bound(velocity.x as int, drag.x as int, small_bound(), small_bound());
        lemma_mul_bound(velocity.y as int, drag.y as int, small_bound(), small_bound());
        lemma_mul_bound(velocity.z as int, drag.z as int, small_bound(), small_bound());
    }
    let k = ONE as i128;
    Wide3 {
        x: k * ((velocity.x as i128) * (drag.x as i128)),
        y: k * ((velocity.y as i128) * (drag.y as i128)),
        z: k * ((velocity.z as i128) * (drag.z as i128)),
    }
}

/// Writes this tick's force and torque, replacing what was there: the
/// summed intents times thrust, carried into world space, less velocity
/// times drag.
pub fn apply_movement(
    movements: &Movements,
    form: &Form,
    transform: &Transform,
    velocity: &Velocity,
    external_force: &mut ExternalForce,
)
    requires
        movements@.len() <= MAX_INTENTS,
    ensures
        final(external_force).force@ == resolved_force(movements@, *form, *transform, *velocity),
        final(external_force).torque@ == resolved_torque(
            movements@,
            *form,
            *transform,
            *velocity,
        ),
{
    let (lf, lt) = local_force_torque(movements, form);
    let wf = transform.basis.transform_vector(lf);
    let wt = transform.basis.transform_vector(lt);
    let df = drag_term(velocity.linvel, form.drag);
    let dt = drag_term(velocity.angvel, form.drag);
    external_force.force = Wide3 { x: wf.x - df.x, y: wf.y - df.y, z: wf.z - df.z };
    external_force.torque = Wide3 { x: wt.x - dt.x, y: wt.y - dt.y, z: wt.z - dt.z };
}

pub open spec fn spawn_point() -> Vec3 {
    Vec3 { x: 0, y: SPAWN_HEIGHT, z: 0 }
}

/// Beyond the bound on X or on Z, in either direction; height is free.
pub open spec fn out_of_bounds(p: Vec3) -> bool {
    p.x > BOUND || p.z > BOUND || p.x < -BOUND || p.z < -BOUND
}

pub open spec fn wrapped(t: Transform) -> Transform {
    if out_of_bounds(t.translation) {
        Transform { translation: spawn_point(), basis: t.basis }
    } else {
        t
    }
}

/// Puts a body that has strayed past the bound back at the spawn point,
/// keeping its orientation; leaves any other body where it is.
pub fn wrap_movement(transform: &mut Transform)
    ensures
        *final(transform) == wrapped(*old(transform)),
{
    let p = transform.translation;
    if p.x > BOUND || p.z > BOUND || p.x < -BOUND || p.z < -BOUND {
        transform.translation = Vec3 { x: 0, y: SPAWN_HEIGHT, z: 0 };
    }
}


/// Total of the forward pushes in an intent set.
pub open spec fn forward_push(s: Seq<Movement>) -> int
    decreases s.len(),
{
    if s.len() == 0 {
        0
    } else {
        forward_push(s.drop_last()) + match s.last() {
            Movement::PushForward(p) => p as int,
            _ => 0,
        }
    }
}

proof fn lemma_forward_only_sum(s: Seq<Movement>)
    requires
        forall|i: int| 0 <= i < s.len() ==> s[i] is PushForward,
    ensures
        sum_lin(s) == ivec(forward_push(s), 0, 0),
    decreases s.len(),
{
    if s.len() > 0 {
        let t = s.drop_last();
        assert forall|i: int| 0 <= i < t.len() implies t[i] is PushForward by {
            assert(t[i] == s[i]);
        }
        lemma_forward_only_sum(t);
        assert(s.last() == s[s.len() - 1]);
    }
}

/// Forward pushes alone, on a body at rest: the world force lies along the
/// body's forward axis (the image of body +X), scaled by forward thrust
/// times the total push.
pub proof fn lemma_forward_push_follows_forward_axis(
    s: Seq<Movement>,
    form: Form,
    transform: Transform,
    velocity: Velocity,
)
    requires
        forall|i: int| 0 <= i < s.len() ==> s[i] is PushForward,
        velocity.linvel@ == zero(),
    ensures
        resolved_force(s, form, transform, velocity) == vscale(
            form.thrust.x * forward_push(s),
            transform.basis.x_axis@,
        ),
{
    lemma_forward_only_sum(s);
    let k = forward_push(s) * form.thrust.x;
    let a = transform.basis.x_axis@;
    let b = transform.basis.y_axis@;
    let c = transform.basis.z_axis@;
    assert(local_force(s, form) == ivec(k, 0, 0)) by (nonlinear_arith)
        requires
            sum_lin(s) == ivec(forward_push(s), 0, 0),
            k == forward_push(s) * form.thrust.x,
            local_force(s, form) == vmul(sum_lin(s), form.thrust@),
    ;
    assert(vmul(velocity.linvel@, form.drag@) == zero()) by (nonlinear_arith)
        requires
            velocity.linvel@ == zero(),
    ;
    assert(k * a.x + 0 * b.x + 0 * c.x == form.thrust.x * forward_push(s) * a.x) by (
    nonlinear_arith)
        requires
            k == forward_push(s) * form.thrust.x,
    ;
    assert(k * a.y + 0 * b.y + 0 * c.y == form.thrust.x * forward_push(s) * a.y) by (
    nonlinear_arith)
        requires
            k == forward_push(s) * form.thrust.x,
    ;
    assert(k * a.z + 0 * b.z + 0 * c.z == form.thrust.x * forward_push(s) * a.z) by (
    nonlinear_arith)
        requires
            k == forward_push(s) * form.thrust.x,
    ;
}

proof fn lemma_identity_apply(v: IVec3)
    ensures
        Basis::identity_spec().apply(v) == vscale(ONE as int, v),
{
    assert(v.x * 1000 + v.y * 0 + v.z * 0 == 1000 * v.x) by (nonlinear_arith);
    assert(v.x * 0 + v.y * 1000 + v.z * 0 == 1000 * v.y) by (nonlinear_arith);
    assert(v.x * 0 + v.y * 0 + v.z * 1000 == 1000 * v.z) by (nonlinear_arith);
}

proof fn lemma_balance(held: int, v: int, d: int)
    ensures
        1000 * (held * d) - 1000 * (v * d) == 1000 * (d * (held - v)),
        d > 0 ==> (1000 * (d * (held - v)) > 0 <==> v < held),
        d > 0 ==> (1000 * (d * (held - v)) == 0 <==> v == held),
{
    assert(1000 * (held * d) - 1000 * (v * d) == 1000 * (d * (held - v))) by (nonlinear_arith);
    assert(d > 0 ==> (1000 * (d * (held - v)) > 0 <==> v < held)) by (nonlinear_arith);
    assert(d > 0 ==> (1000 * (d * (held - v)) == 0 <==> v == held)) by (nonlinear_arith);
}

/// With thrust equal to drag on an unrotated body, the force on each axis
/// is a thousand times drag times the gap between the push held and the
/// velocity, so the velocity at which it vanishes is the push held (thrust
/// over drag times it). Where drag is positive the force is zero exactly
/// there and otherwise drives the velocity toward it. Torque behaves the
/// same way with the turns held and the angular velocity.
pub proof fn lemma_drag_balances_thrust(
    s: Seq<Movement>,
    form: Form,
    transform: Transform,
    velocity: Velocity,
)
    requires
        form.thrust == form.drag,
        transform.basis == Basis::identity_spec(),
    ensures
        resolved_force(s, form, transform, velocity) == vscale(
            ONE as int,
            vmul(form.drag@, vsub(sum_lin(s), velocity.linvel@)),
        ),
        resolved_torque(s, form, transform, velocity) == vscale(
            ONE as int,
            vmul(form.drag@, vsub(sum_ang(s), velocity.angvel@)),
        ),
        velocity.linvel@ == sum_lin(s) ==> resolved_force(s, form, transform, velocity) == zero(),
        velocity.angvel@ == sum_ang(s) ==> resolved_torque(s, form, transform, velocity) == zero(),
        form.drag.x > 0 ==> (resolved_force(s, form, transform, velocity).x > 0 <==> velocity.linvel.x
            < sum_lin(s).x),
        form.drag.y > 0 ==> (resolved_force(s, form, transform, velocity).y > 0 <==> velocity.linvel.y
            < sum_lin(s).y),
        form.drag.z > 0 ==> (resolved_force(s, form, transform, velocity).z > 0 <==> velocity.linvel.z
            < sum_lin(s).z),
{
    let f = sum_lin(s);
    let g = sum_ang(s);
    let v = velocity.linvel@;
    let w = velocity.angvel@;
    let d = form.drag@;
    lemma_identity_apply(local_force(s, form));
    lemma_identity_apply(local_torque(s, form));
    lemma_balance(f.x, v.x, d.x);
    lemma_balance(f.y, v.y, d.y);
    lemma_balance(f.z, v.z, d.z);
    lemma_balance(g.x, w.x, d.x);
    lemma_balance(g.y, w.y, d.y);
    lemma_balance(g.z, w.z, d.z);
    assert(d.x * 0 == 0 && d.y * 0 == 0 && d.z * 0 == 0);
}

} // verus!
