use vstd::prelude::*;

verus! {

/// Fixed-point steps in one world unit. Positions, velocities, gains, intent
/// magnitudes and basis entries all count thousandths of a unit.
pub const ONE: i32 = 1000;

/// The exact value of a vector: three unbounded integers.
pub struct IVec3 {
    pub x: int,
    pub y: int,
    pub z: int,
}

pub open spec fn ivec(x: int, y: int, z: int) -> IVec3 {
    IVec3 { x, y, z }
}

pub open spec fn zero() -> IVec3 {
    ivec(0, 0, 0)
}

pub open spec fn vadd(a: IVec3, b: IVec3) -> IVec3 {
    ivec(a.x + b.x, a.y + b.y, a.z + b.z)
}

pub open spec fn vsub(a: IVec3, b: IVec3) -> IVec3 {
    ivec(a.x - b.x, a.y - b.y, a.z - b.z)
}

/// Elementwise product.
pub open spec fn vmul(a: IVec3, b: IVec3) -> IVec3 {
    ivec(a.x * b.x, a.y * b.y, a.z * b.z)
}

pub open spec fn vscale(k: int, a: IVec3) -> IVec3 {
    ivec(k * a.x, k * a.y, k * a.z)
}

/// Every component lies in `[-b, b]`.
pub open spec fn bounded(a: IVec3, b: int) -> bool {
    &&& -b <= a.x <= b
    &&& -b <= a.y <= b
    &&& -b <= a.z <= b
}

/// 2^31: no `i32` is larger in absolute value.
pub open spec fn small_bound() -> int {
    0x8000_0000
}

/// 2^78: the bound on a local force or torque.
pub open spec fn local_bound() -> int {
    0x4000_0000_0000_0000_0000
}

/// 2^111: the bound on a local vector carried into world space.
pub open spec fn world_bound() -> int {
    0x8000_0000_0000_0000_0000_0000_0000
}

pub proof fn lemma_mul_bound(a: int, b: int, ba: int, bb: int)
    requires
        -ba <= a <= ba,
        -bb <= b <= bb,
    ensures
        -(ba * bb) <= a * b <= ba * bb,
{
    assert(-(ba * bb) <= a * b <= ba * bb) by (nonlinear_arith)
        requires
            -ba <= a <= ba,
            -bb <= b <= bb,
    ;
}

/// A vector of fixed-point thousandths.
#[derive(Clone, Copy, Debug, PartialEq, Eq, Structural)]
pub struct Vec3 {
    pub x: i32,
    pub y: i32,
    pub z: i32,
}

impl View for Vec3 {
    type V = IVec3;

    open spec fn view(&self) -> IVec3 {
        ivec(self.x as int, self.y as int, self.z as int)
    }
}

impl Vec3 {
    pub fn new(x: i32, y: i32, z: i32) -> (r: Vec3)
        ensures
            r == (Vec3 { x, y, z }),
    {
        Vec3 { x, y, z }
    }

    pub fn zero() -> (r: Vec3)
        ensures
            r@ == zero(),
    {
        Vec3 { x: 0, y: 0, z: 0 }
    }
}

/// A computed vector, wide enough that sums and products of `Vec3`
/// components never wrap. Its scale is stated where it is produced.
#[derive(Clone, Copy, Debug, PartialEq, Eq, Structural)]
pub struct Wide3 {
    pub x: i128,
    pub y: i128,
    pub z: i128,
}

impl View for Wide3 {
    type V = IVec3;

    open spec fn view(&self) -> IVec3 {
        ivec(self.x as int, self.y as int, self.z as int)
    }
}

impl Wide3 {
    pub fn new(x: i128, y: i128, z: i128) -> (r: Wide3)
        ensures
            r == (Wide3 { x, y, z }),
    {
        Wide3 { x, y, z }
    }

    pub fn zero() -> (r: Wide3)
        ensures
            r@ == zero(),
    {
        Wide3 { x: 0, y: 0, z: 0 }
    }
}

/// A linear map from body space to world space, by the images of the body's
/// unit axes (the columns of the matrix), in thousandths. Rotation and scale
/// both live here; translation does not act on directions.
#[derive(Clone, Copy, Debug, PartialEq, Eq, Structural)]
pub struct Basis {
    pub x_axis: Vec3,
    pub y_axis: Vec3,
    pub z_axis: Vec3,
}

impl Basis {
    /// The unrotated, unscaled basis.
    pub open spec fn identity_spec() -> Basis {
        Basis {
            x_axis: Vec3 { x: ONE, y: 0, z: 0 },
            y_axis: Vec3 { x: 0, y: ONE, z: 0 },
            z_axis: Vec3 { x: 0, y: 0, z: ONE },
        }
    }

    pub fn identity() -> (r: Basis)
        ensures
            r == Basis::identity_spec(),
    {
        Basis {
            x_axis: Vec3 { x: ONE, y: 0, z: 0 },
            y_axis: Vec3 { x: 0, y: ONE, z: 0 },
            z_axis: Vec3 { x: 0, y: 0, z: ONE },
        }
    }

    /// The matrix product: `v.x` times the first column, plus `v.y` times
    /// the second, plus `v.z` times the third.
    pub open spec fn apply(self, v: IVec3) -> IVec3 {
        vadd(
            vadd(vscale(v.x, self.x_axis@), vscale(v.y, self.y_axis@)),
            vscale(v.z, self.z_axis@),
        )
    }

    /// Carries a body-space vector into world space. The result has the
    /// scale of `v` times a thousand.
    pub fn transform_vector(&self, v: Wide3) -> (r: Wide3)
        requires
            bounded(v@, local_bound()),
        ensures
            r@ == self.apply(v@),
            bounded(r@, world_bound()),
    {
        let bx = column_times(self.x_axis, v.x);
        let by = column_times(self.y_axis, v.y);
        let bz = column_times(self.z_axis, v.z);
        Wide3 { x: bx.x + by.x + bz.x, y: bx.y + by.y + bz.y, z: bx.z + by.z + bz.z }
    }
}

/// `k` times the column `c`.
fn column_times(c: Vec3, k: i128) -> (r: Wide3)
    requires
        -local_bound() <= k <= local_bound(),
    ensures
        r@ == vscale(k as int, c@),
        bounded(r@, small_bound() * local_bound()),
{
    proof {
        lemma_mul_bound(k as int, c.x as int, local_bound(), small_bound());
        lemma_mul_bound(k as int, c.y as int, local_bound(), small_bound());
        lemma_mul_bound(k as int, c.z as int, local_bound(), small_bound());
        assert(small_bound() * local_bound() == local_bound() * small_bound());
    }
    Wide3 { x: k * (c.x as i128), y: k * (c.y as i128), z: k * (c.z as i128) }
}

} // verus!
