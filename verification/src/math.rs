//! Integer vectors: grid points, short direction vectors and the exact
//! products the rest of the crate states its contracts with.

use vstd::prelude::*;
use vstd::arithmetic::div_mod::{
    lemma_fundamental_div_mod, lemma_fundamental_div_mod_converse, lemma_mod_bound,
};

verus! {

/// A point of the grid, or the displacement between two of them, in world
/// units.
#[derive(Clone, Copy, Debug, PartialEq, Eq, Structural)]
pub struct Vec3 {
    pub x: i32,
    pub y: i32,
    pub z: i32,
}

/// The length that stands for one in a [`Direction`]: a direction of this
/// length is a unit vector.
pub const UNIT: i16 = 16384;

/// A direction in space. Its components are sixteen bits wide; a unit vector
/// has length [`UNIT`].
#[derive(Clone, Copy, Debug, PartialEq, Eq, Structural)]
pub struct Direction {
    pub x: i16,
    pub y: i16,
    pub z: i16,
}

/// A vector of mathematical integers: what a [`Vec3`] or a [`Direction`]
/// stands for in contracts.
pub struct IntVec {
    pub x: int,
    pub y: int,
    pub z: int,
}

impl View for Vec3 {
    type V = IntVec;

    open spec fn view(&self) -> IntVec {
        IntVec { x: self.x as int, y: self.y as int, z: self.z as int }
    }
}

impl View for Direction {
    type V = IntVec;

    open spec fn view(&self) -> IntVec {
        IntVec { x: self.x as int, y: self.y as int, z: self.z as int }
    }
}

impl IntVec {
    /// The scalar product.
    pub open spec fn dot(self, other: IntVec) -> int {
        self.x * other.x + self.y * other.y + self.z * other.z
    }

    /// The vector product.
    pub open spec fn cross(self, other: IntVec) -> IntVec {
        IntVec {
            x: self.y * other.z - self.z * other.y,
            y: self.z * other.x - self.x * other.z,
            z: self.x * other.y - self.y * other.x,
        }
    }

    /// The difference `self - other`.
    pub open spec fn minus(self, other: IntVec) -> IntVec {
        IntVec { x: self.x - other.x, y: self.y - other.y, z: self.z - other.z }
    }

    /// The vector stretched by `k`.
    pub open spec fn times(self, k: int) -> IntVec {
        IntVec { x: self.x * k, y: self.y * k, z: self.z * k }
    }

    /// The sum `self + other`.
    pub open spec fn plus(self, other: IntVec) -> IntVec {
        IntVec { x: self.x + other.x, y: self.y + other.y, z: self.z + other.z }
    }

    /// Whether this is the zero vector.
    pub open spec fn is_zero(self) -> bool {
        self.x == 0 && self.y == 0 && self.z == 0
    }
}

/// How a box is turned in the world: the world directions of its three own
/// axes. For a box that is not turned these are the unit vectors along X, Y
/// and Z.
#[derive(Clone, Copy, Debug, PartialEq, Eq, Structural)]
pub struct Rotation {
    pub x_axis: Direction,
    pub y_axis: Direction,
    pub z_axis: Direction,
}

impl Rotation {
    /// A world direction as the box sees it: its scalar product with each
    /// axis. For axes that are perpendicular unit vectors this undoes the
    /// rotation, and the result is `UNIT` times as long as the direction
    /// given.
    pub open spec fn to_model(self, world: IntVec) -> IntVec {
        IntVec {
            x: self.x_axis@.dot(world),
            y: self.y_axis@.dot(world),
            z: self.z_axis@.dot(world),
        }
    }

    /// The rotation of a box that is not turned.
    pub fn identity() -> (rotation: Rotation)
        ensures
            rotation.x_axis == (Direction { x: UNIT, y: 0, z: 0 }),
            rotation.y_axis == (Direction { x: 0, y: UNIT, z: 0 }),
            rotation.z_axis == (Direction { x: 0, y: 0, z: UNIT }),
    {
        Rotation {
            x_axis: Direction { x: UNIT, y: 0, z: 0 },
            y_axis: Direction { x: 0, y: UNIT, z: 0 },
            z_axis: Direction { x: 0, y: 0, z: UNIT },
        }
    }
}

/// The product of two numbers that are bounded is bounded by the product of
/// the bounds.
pub(crate) proof fn lemma_product_bound(a: int, b: int, ma: int, mb: int)
    by (nonlinear_arith)
    requires
        -ma <= a <= ma,
        -mb <= b <= mb,
    ensures
        -(ma * mb) <= a * b <= ma * mb,
{
}

/// The scalar product of two directions, which fits in 64 bits.
pub fn direction_dot(a: Direction, b: Direction) -> (d: i64)
    ensures
        d == a@.dot(b@),
        -0xc000_0000 <= d <= 0xc000_0000,
{
    proof {
        lemma_product_bound(a.x as int, b.x as int, 0x8000, 0x8000);
        lemma_product_bound(a.y as int, b.y as int, 0x8000, 0x8000);
        lemma_product_bound(a.z as int, b.z as int, 0x8000, 0x8000);
    }
    (a.x as i64) * (b.x as i64) + (a.y as i64) * (b.y as i64) + (a.z as i64) * (b.z as i64)
}

/// The quotient of `a` by a positive `b`, rounded down.
pub fn floor_div(a: i128, b: i128) -> (q: i128)
    requires
        b > 0,
    ensures
        q == a as int / b as int,
        a >= 0 ==> 0 <= q <= a,
        a < 0 ==> a <= q < 0,
{
    if a >= 0 {
        proof {
            lemma_fundamental_div_mod(a as int, b as int);
            lemma_mod_bound(a as int, b as int);
            let floor = a as int / b as int;
            assert(0 <= floor <= a) by (nonlinear_arith)
                requires
                    b >= 1,
                    a >= 0,
                    a == b * floor + (a as int % b as int),
                    0 <= (a as int % b as int) < b,
            ;
        }
        a / b
    } else {
        let m: i128 = -(a + 1);
        let k: i128 = m / b;
        proof {
            lemma_fundamental_div_mod(m as int, b as int);
            lemma_mod_bound(m as int, b as int);
            let r = (b - 1) - (m as int % b as int);
            assert((-k - 1) * b + r == a) by (nonlinear_arith)
                requires
                    m == b * k + (m as int % b as int),
                    r == (b - 1) - (m as int % b as int),
                    m == -(a + 1),
            ;
            lemma_fundamental_div_mod_converse(a as int, b as int, -k - 1, r);
            assert(0 <= k <= m) by (nonlinear_arith)
                requires
                    b >= 1,
                    m >= 0,
                    m == b * k + (m as int % b as int),
                    0 <= (m as int % b as int) < b,
            ;
        }
        -k - 1
    }
}

/// A coordinate brought into the range of the grid.
pub open spec fn clamp_coordinate(c: int) -> int {
    if c < i32::MIN {
        i32::MIN as int
    } else if c > i32::MAX {
        i32::MAX as int
    } else {
        c
    }
}

/// Brings a coordinate into the range of the grid.
pub fn clamp_to_coordinate(c: i128) -> (r: i32)
    ensures
        r == clamp_coordinate(c as int),
{
    if c < i32::MIN as i128 {
        i32::MIN
    } else if c > i32::MAX as i128 {
        i32::MAX
    } else {
        c as i32
    }
}

/// `s` is the square root of `n`, rounded down.
pub open spec fn is_floor_sqrt(s: int, n: int) -> bool {
    0 <= s && s * s <= n < (s + 1) * (s + 1)
}

/// The square root of `n`, rounded down.
pub open spec fn floor_sqrt_of(n: int) -> int {
    choose|s: int| is_floor_sqrt(s, n)
}

/// A number has one square root rounded down, and only one.
pub proof fn lemma_floor_sqrt_unique(s: int, n: int)
    requires
        is_floor_sqrt(s, n),
    ensures
        floor_sqrt_of(n) == s,
{
    let t = floor_sqrt_of(n);
    assert(is_floor_sqrt(t, n));
    assert(s == t) by (nonlinear_arith)
        requires
            0 <= s,
            0 <= t,
            s * s <= n < (s + 1) * (s + 1),
            t * t <= n < (t + 1) * (t + 1),
    ;
}

/// The square root of `n`, rounded down.
pub fn floor_sqrt(n: u128) -> (s: u64)
    ensures
        is_floor_sqrt(s as int, n as int),
        s == floor_sqrt_of(n as int),
{
    let mut lo: u128 = 0;
    let mut hi: u128 = 0x1_0000_0000_0000_0000;
    assert(hi * hi > n) by (nonlinear_arith)
        requires
            hi == 0x1_0000_0000_0000_0000,
            n <= 0xffff_ffff_ffff_ffff_ffff_ffff_ffff_ffff,
    ;
    while hi - lo > 1
        invariant
            lo < hi <= 0x1_0000_0000_0000_0000,
            lo * lo <= n < hi * hi,
        decreases hi - lo,
    {
        let mid: u128 = lo + (hi - lo) / 2;
        proof {
            lemma_product_bound(
                mid as int,
                mid as int,
                0xffff_ffff_ffff_ffff,
                0xffff_ffff_ffff_ffff,
            );
        }
        if mid * mid <= n {
            lo = mid;
        } else {
            hi = mid;
        }
    }
    proof {
        lemma_floor_sqrt_unique(lo as int, n as int);
    }
    lo as u64
}

/// A quotient is bounded as its dividend is.
proof fn lemma_quotient_bound(a: int, b: int, k: int)
    requires
        b > 0,
        -(b * k) <= a <= b * k,
    ensures
        -k <= a / b <= k,
{
    lemma_fundamental_div_mod(a, b);
    lemma_mod_bound(a, b);
    let q = a / b;
    let r = a % b;
    assert(-k <= q <= k) by (nonlinear_arith)
        requires
            b > 0,
            a == b * q + r,
            0 <= r < b,
            -(b * k) <= a <= b * k,
    ;
}

/// The unit vector along `v`, each component rounded down; none for the
/// zero vector. The length of `v` is taken rounded down as well, so no
/// component of the result lies further than `UNIT` from zero.
pub open spec fn normalized(v: IntVec) -> Option<Direction> {
    if v.is_zero() {
        None
    } else {
        let len = floor_sqrt_of(v.dot(v));
        Some(
            Direction {
                x: (v.x * UNIT / len) as i16,
                y: (v.y * UNIT / len) as i16,
                z: (v.z * UNIT / len) as i16,
            },
        )
    }
}

/// One component of a unit vector: `c * UNIT / len`.
fn unit_component(c: i64, len: u64) -> (r: i16)
    requires
        len > 0,
        -len <= c <= len,
        len <= 0x2_0000_0000,
    ensures
        r == c * UNIT / (len as int),
        -UNIT <= r <= UNIT,
{
    proof {
        assert(-(len * UNIT) <= c * UNIT <= len * UNIT && len * UNIT <= 0x8000_0000_0000)
            by (nonlinear_arith)
            requires
                -len <= c <= len,
                len <= 0x2_0000_0000,
                UNIT == 0x4000,
        ;
        lemma_quotient_bound(c * UNIT, len as int, UNIT as int);
    }
    let q = floor_div((c as i128) * (UNIT as i128), len as i128);
    q as i16
}

/// The unit vector that points from one point to another; none where the
/// two are one point.
pub fn direction_between(from: Vec3, to: Vec3) -> (direction: Option<Direction>)
    ensures
        direction == normalized(to@.minus(from@)),
{
    let x: i64 = to.x as i64 - from.x as i64;
    let y: i64 = to.y as i64 - from.y as i64;
    let z: i64 = to.z as i64 - from.z as i64;
    if x == 0 && y == 0 && z == 0 {
        return None;
    }
    proof {
        lemma_product_bound(x as int, x as int, 0xffff_ffff, 0xffff_ffff);
        lemma_product_bound(y as int, y as int, 0xffff_ffff, 0xffff_ffff);
        lemma_product_bound(z as int, z as int, 0xffff_ffff, 0xffff_ffff);
        assert(x * x >= 0 && y * y >= 0 && z * z >= 0) by (nonlinear_arith);
    }
    let square: u128 = ((x as i128) * (x as i128) + (y as i128) * (y as i128) + (z as i128) * (z
        as i128)) as u128;
    let len = floor_sqrt(square);
    proof {
        let l = len as int;
        assert(-l <= x <= l && -l <= y <= l && -l <= z <= l && l > 0 && l <= 0x2_0000_0000)
            by (nonlinear_arith)
            requires
                0 <= l,
                x * x + y * y + z * z < (l + 1) * (l + 1),
                l * l <= x * x + y * y + z * z,
                x * x + y * y + z * z <= 3 * (0xffff_ffff * 0xffff_ffff),
                x != 0 || y != 0 || z != 0,
        ;
    }
    Some(
        Direction {
            x: unit_component(x, len),
            y: unit_component(y, len),
            z: unit_component(z, len),
        },
    )
}

} // verus!
