//! Rays, and the pair of points at which two rays come closest.

use vstd::prelude::*;
use crate::math::{
    clamp_coordinate, clamp_to_coordinate, floor_div, lemma_product_bound, Direction, IntVec, Vec3,
    UNIT,
};

verus! {

/// A ray in the world: where it starts and which way it goes. The point at
/// parameter `t` is `origin + t * direction / UNIT`, so along a unit
/// direction `t` is a distance in world units.
#[derive(Clone, Copy, Debug, PartialEq, Eq, Structural)]
pub struct Ray {
    pub origin: Vec3,
    pub direction: Direction,
}

/// The point of a ray at parameter `t`, each coordinate rounded down and
/// kept within the grid.
pub open spec fn point_at_of(ray: Ray, t: int) -> Vec3 {
    Vec3 {
        x: clamp_coordinate(ray.origin.x + ray.direction.x * t / (UNIT as int)) as i32,
        y: clamp_coordinate(ray.origin.y + ray.direction.y * t / (UNIT as int)) as i32,
        z: clamp_coordinate(ray.origin.z + ray.direction.z * t / (UNIT as int)) as i32,
    }
}

fn coordinate_at(origin: i32, direction: i16, t: i64) -> (c: i32)
    ensures
        c == clamp_coordinate(origin + direction * t / (UNIT as int)),
{
    proof {
        lemma_product_bound(direction as int, t as int, 0x8000, 0x8000_0000_0000_0000);
    }
    let step = floor_div((direction as i128) * (t as i128), UNIT as i128);
    clamp_to_coordinate(origin as i128 + step)
}

impl Ray {
    /// The point of the ray at parameter `t`.
    pub fn point_at(&self, t: i64) -> (point: Vec3)
        ensures
            point == point_at_of(*self, t as int),
    {
        Vec3 {
            x: coordinate_at(self.origin.x, self.direction.x, t),
            y: coordinate_at(self.origin.y, self.direction.y, t),
            z: coordinate_at(self.origin.z, self.direction.z, t),
        }
    }
}

/// What tells one pointer ray from another: the camera it was cast through
/// and the pointer it belongs to.
#[derive(Clone, Copy, Debug, PartialEq, Eq, Structural)]
pub struct RayId {
    pub camera: u64,
    pub pointer: u64,
}

/// The pointer rays of one tick, by their id.
#[derive(Clone, Debug)]
pub struct RayMap {
    entries: Vec<(RayId, Ray)>,
}

/// The map that a list of entries stands for: a later entry for an id takes
/// the place of an earlier one.
spec fn entries_map(entries: Seq<(RayId, Ray)>) -> Map<RayId, Ray>
    decreases entries.len(),
{
    if entries.len() == 0 {
        Map::empty()
    } else {
        entries_map(entries.drop_last()).insert(entries.last().0, entries.last().1)
    }
}

impl View for RayMap {
    type V = Map<RayId, Ray>;

    closed spec fn view(&self) -> Map<RayId, Ray> {
        entries_map(self.entries@)
    }
}

impl RayMap {
    /// A map without rays.
    pub fn new() -> (map: RayMap)
        ensures
            map@ == Map::<RayId, Ray>::empty(),
    {
        RayMap { entries: Vec::new() }
    }

    /// Sets the ray of `id`.
    pub fn insert(&mut self, id: RayId, ray: Ray)
        ensures
            final(self)@ == old(self)@.insert(id, ray),
    {
        self.entries.push((id, ray));
        assert(self.entries@.drop_last() =~= old(self).entries@);
    }

    /// The ray of `id`, if the map has one.
    pub fn get(&self, id: RayId) -> (ray: Option<Ray>)
        ensures
            ray == (if self@.contains_key(id) {
                Some(self@[id])
            } else {
                None
            }),
    {
        let mut i: usize = self.entries.len();
        assert(self.entries@.take(i as int) =~= self.entries@);
        while i > 0
            invariant
                i <= self.entries.len(),
                self@.contains_key(id) == entries_map(self.entries@.take(i as int)).contains_key(
                    id,
                ),
                self@.contains_key(id) ==> self@[id] == entries_map(
                    self.entries@.take(i as int),
                )[id],
            decreases i,
        {
            i -= 1;
            assert(self.entries@.take(i as int + 1).drop_last() =~= self.entries@.take(i as int));
            assert(self.entries@.take(i as int + 1).last() == self.entries@[i as int]);
            if self.entries[i].0 == id {
                return Some(self.entries[i].1);
            }
        }
        None
    }
}

/// Two vectors are parallel where their vector product vanishes. This counts
/// opposite vectors and a zero vector as parallel to anything: these are the
/// pairs for which the closest points of two rays are not defined.
pub open spec fn vectors_parallel(a: IntVec, b: IntVec) -> bool {
    a.cross(b).is_zero()
}

/// The vector that is perpendicular to both rays.
pub open spec fn common_normal(r1: Ray, r2: Ray) -> IntVec {
    r1.direction@.cross(r2.direction@)
}

/// The vector from the origin of the first ray to that of the second.
pub open spec fn origin_offset(r1: Ray, r2: Ray) -> IntVec {
    r2.origin@.minus(r1.origin@)
}

/// The squared length of the common normal: the denominator of both exact
/// parameters.
pub open spec fn solution_denominator(r1: Ray, r2: Ray) -> int {
    common_normal(r1, r2).dot(common_normal(r1, r2))
}

/// The numerator of the exact parameter along the first ray.
pub open spec fn solution_numerator_1(r1: Ray, r2: Ray) -> int {
    origin_offset(r1, r2).cross(r2.direction@).dot(common_normal(r1, r2))
}

/// The numerator of the exact parameter along the second ray.
pub open spec fn solution_numerator_2(r1: Ray, r2: Ray) -> int {
    origin_offset(r1, r2).cross(r1.direction@).dot(common_normal(r1, r2))
}

/// The numerator of the exact parameter along the common normal.
pub open spec fn solution_numerator_3(r1: Ray, r2: Ray) -> int {
    origin_offset(r1, r2).dot(common_normal(r1, r2))
}

/// The parameter of the closest point on the first ray, in world units
/// along a unit direction, rounded down.
pub open spec fn closest_parameter_1(r1: Ray, r2: Ray) -> int {
    solution_numerator_1(r1, r2) * UNIT / solution_denominator(r1, r2)
}

/// The parameter of the closest point on the second ray, in world units
/// along a unit direction, rounded down.
pub open spec fn closest_parameter_2(r1: Ray, r2: Ray) -> int {
    solution_numerator_2(r1, r2) * UNIT / solution_denominator(r1, r2)
}

/// No parameter of a closest point lies further from zero than this.
pub const PARAMETER_BOUND: i128 = 0xc000_0000_0000_0000_0000_0000;

/// A vector of wide integers, for the products on the way to a solution.
struct Wide {
    x: i128,
    y: i128,
    z: i128,
}

impl View for Wide {
    type V = IntVec;

    closed spec fn view(&self) -> IntVec {
        IntVec { x: self.x as int, y: self.y as int, z: self.z as int }
    }
}

/// Every component lies within `bound` of zero.
spec fn within(v: IntVec, bound: int) -> bool {
    &&& -bound <= v.x <= bound
    &&& -bound <= v.y <= bound
    &&& -bound <= v.z <= bound
}

/// A vector has squared length zero only where it is the zero vector.
proof fn lemma_square_zero(v: IntVec)
    by (nonlinear_arith)
    ensures
        v.dot(v) >= 0,
        v.dot(v) == 0 <==> v.is_zero(),
{
}

fn wide_cross(a: &Wide, b: &Wide, Ghost(ma): Ghost<int>, Ghost(mb): Ghost<int>) -> (c: Wide)
    requires
        within(a@, ma),
        within(b@, mb),
        0 <= ma,
        0 <= mb,
        2 * (ma * mb) <= i128::MAX,
    ensures
        c@ == a@.cross(b@),
        within(c@, 2 * (ma * mb)),
{
    proof {
        lemma_product_bound(a.y as int, b.z as int, ma, mb);
        lemma_product_bound(a.z as int, b.y as int, ma, mb);
        lemma_product_bound(a.z as int, b.x as int, ma, mb);
        lemma_product_bound(a.x as int, b.z as int, ma, mb);
        lemma_product_bound(a.x as int, b.y as int, ma, mb);
        lemma_product_bound(a.y as int, b.x as int, ma, mb);
    }
    Wide {
        x: a.y * b.z - a.z * b.y,
        y: a.z * b.x - a.x * b.z,
        z: a.x * b.y - a.y * b.x,
    }
}

fn wide_dot(a: &Wide, b: &Wide, Ghost(ma): Ghost<int>, Ghost(mb): Ghost<int>) -> (d: i128)
    requires
        within(a@, ma),
        within(b@, mb),
        0 <= ma,
        0 <= mb,
        3 * (ma * mb) <= i128::MAX,
    ensures
        d == a@.dot(b@),
        -(3 * (ma * mb)) <= d <= 3 * (ma * mb),
{
    proof {
        lemma_product_bound(a.x as int, b.x as int, ma, mb);
        lemma_product_bound(a.y as int, b.y as int, ma, mb);
        lemma_product_bound(a.z as int, b.z as int, ma, mb);
    }
    a.x * b.x + a.y * b.y + a.z * b.z
}

fn widen(d: Direction) -> (w: Wide)
    ensures
        w@ == d@,
        within(w@, 0x8000),
{
    Wide { x: d.x as i128, y: d.y as i128, z: d.z as i128 }
}

/// Whether two directions are parallel: whether their vector product
/// vanishes.
pub fn vectors_are_parallel(v1: Direction, v2: Direction) -> (parallel: bool)
    ensures
        parallel == vectors_parallel(v1@, v2@),
{
    let a = widen(v1);
    let b = widen(v2);
    let n = wide_cross(&a, &b, Ghost(0x8000), Ghost(0x8000));
    n.x == 0 && n.y == 0 && n.z == 0
}

/// Finds the closest pair of points `(p1, p2)` with `p1` on `r1` and `p2` on
/// `r2`, each ray taken as the whole line through it, and returns their
/// parameters `(t1, t2)`, rounded down. There is no such pair where the
/// directions are parallel.
pub fn closest_points_on_two_rays(r1: &Ray, r2: &Ray) -> (res: Option<(i128, i128)>)
    ensures
        res is None <==> vectors_parallel(r1.direction@, r2.direction@),
        r1.direction == r2.direction ==> res is None,
        res matches Some((t1, t2)) ==> {
            &&& t1 == closest_parameter_1(*r1, *r2)
            &&& t2 == closest_parameter_2(*r1, *r2)
            &&& -PARAMETER_BOUND <= t1 <= PARAMETER_BOUND
            &&& -PARAMETER_BOUND <= t2 <= PARAMETER_BOUND
        },
{
    let d1 = widen(r1.direction);
    let d2 = widen(r2.direction);
    let w = Wide {
        x: r2.origin.x as i128 - r1.origin.x as i128,
        y: r2.origin.y as i128 - r1.origin.y as i128,
        z: r2.origin.z as i128 - r1.origin.z as i128,
    };
    let n = wide_cross(&d1, &d2, Ghost(0x8000), Ghost(0x8000));
    proof {
        lemma_same_direction_parallel(r1.direction@);
    }
    if n.x == 0 && n.y == 0 && n.z == 0 {
        return None;
    }
    let c1 = wide_cross(&w, &d2, Ghost(0x1_0000_0000), Ghost(0x8000));
    let c2 = wide_cross(&w, &d1, Ghost(0x1_0000_0000), Ghost(0x8000));
    let num1 = wide_dot(&c1, &n, Ghost(0x1_0000_0000_0000), Ghost(0x8000_0000));
    let num2 = wide_dot(&c2, &n, Ghost(0x1_0000_0000_0000), Ghost(0x8000_0000));
    let den = wide_dot(&n, &n, Ghost(0x8000_0000), Ghost(0x8000_0000));
    proof {
        lemma_square_zero(n@);
    }
    assert(-0x3_0000_0000_0000_0000_0000 <= num1 <= 0x3_0000_0000_0000_0000_0000);
    assert(-0x3_0000_0000_0000_0000_0000 <= num2 <= 0x3_0000_0000_0000_0000_0000);
    assert(0 < den <= 0xc000_0000_0000_0000);
    let unit: i128 = UNIT as i128;
    assert(-0xc000_0000_0000_0000_0000_0000 <= num1 * unit <= 0xc000_0000_0000_0000_0000_0000
        && -0xc000_0000_0000_0000_0000_0000 <= num2 * unit <= 0xc000_0000_0000_0000_0000_0000)
        by (nonlinear_arith)
        requires
            unit == 0x4000,
            -0x3_0000_0000_0000_0000_0000 <= num1 <= 0x3_0000_0000_0000_0000_0000,
            -0x3_0000_0000_0000_0000_0000 <= num2 <= 0x3_0000_0000_0000_0000_0000,
    ;
    let t1 = floor_div(num1 * unit, den);
    let t2 = floor_div(num2 * unit, den);
    Some((t1, t2))
}

/// The exact parameters solve the linear system with the columns `d1`,
/// `-d2` and `d1 x d2` and the right-hand side `o2 - o1`: with `t1 = n1 /
/// den`, `t2 = n2 / den` and `t3 = n3 / den`,
/// `t1 * d1 - t2 * d2 + t3 * (d1 x d2) = o2 - o1`. Both sides are stated
/// times `den`.
pub proof fn lemma_closest_points_solve_system(r1: Ray, r2: Ray)
    ensures
        r1.direction@.times(solution_numerator_1(r1, r2)).minus(
            r2.direction@.times(solution_numerator_2(r1, r2)),
        ).plus(common_normal(r1, r2).times(solution_numerator_3(r1, r2))) == origin_offset(
            r1,
            r2,
        ).times(solution_denominator(r1, r2)),
{
    let a = r1.direction@;
    let b = r2.direction@;
    let w = origin_offset(r1, r2);
    lemma_cramer(a, b, a.cross(b), w);
}

/// The segment that joins the two closest points is perpendicular to both
/// rays. With `p1 = o1 + t1 * d1` and `p2 = o2 + t2 * d2` at the exact
/// parameters, the statement is about `den * (p2 - p1)`.
pub proof fn lemma_closest_points_perpendicular(r1: Ray, r2: Ray)
    ensures
        ({
            let joining = origin_offset(r1, r2).times(solution_denominator(r1, r2)).plus(
                r2.direction@.times(solution_numerator_2(r1, r2)),
            ).minus(r1.direction@.times(solution_numerator_1(r1, r2)));
            &&& joining == common_normal(r1, r2).times(solution_numerator_3(r1, r2))
            &&& joining.dot(r1.direction@) == 0
            &&& joining.dot(r2.direction@) == 0
        }),
{
    let n = common_normal(r1, r2);
    let k = solution_numerator_3(r1, r2);
    lemma_closest_points_solve_system(r1, r2);
    lemma_cross_perpendicular(r1.direction@, r2.direction@);
    lemma_times_dot(n, k, r1.direction@);
    lemma_times_dot(n, k, r2.direction@);
}

/// Two rays with one and the same direction are parallel.
pub proof fn lemma_same_direction_parallel(d: IntVec)
    ensures
        vectors_parallel(d, d),
{
    assert(d.y * d.z == d.z * d.y) by (nonlinear_arith);
    assert(d.z * d.x == d.x * d.z) by (nonlinear_arith);
    assert(d.x * d.y == d.y * d.x) by (nonlinear_arith);
}

/// The vector product is perpendicular to both of its factors.
proof fn lemma_cross_perpendicular(a: IntVec, b: IntVec)
    ensures
        a.cross(b).dot(a) == 0,
        a.cross(b).dot(b) == 0,
{
    lemma_difference_times(a.y * b.z, a.z * b.y, a.x);
    lemma_difference_times(a.z * b.x, a.x * b.z, a.y);
    lemma_difference_times(a.x * b.y, a.y * b.x, a.z);
    lemma_difference_times(a.y * b.z, a.z * b.y, b.x);
    lemma_difference_times(a.z * b.x, a.x * b.z, b.y);
    lemma_difference_times(a.x * b.y, a.y * b.x, b.z);
    lemma_swap_outer(a.y, b.z, a.x);
    lemma_swap_outer(a.z, b.y, a.x);
    lemma_swap_outer(a.z, b.x, a.y);
    lemma_swap_inner(a.y, b.z, b.x);
    lemma_swap_inner(a.z, b.y, b.x);
    lemma_swap_inner(a.x, b.z, b.y);
}

proof fn lemma_swap_outer(x: int, y: int, z: int)
    by (nonlinear_arith)
    ensures
        (x * y) * z == (z * y) * x,
{
}

proof fn lemma_swap_inner(x: int, y: int, z: int)
    by (nonlinear_arith)
    ensures
        (x * y) * z == (x * z) * y,
{
}

/// Stretching a vector stretches its scalar products.
proof fn lemma_times_dot(v: IntVec, k: int, d: IntVec)
    ensures
        v.times(k).dot(d) == k * v.dot(d),
{
    lemma_swap_middle(v.x, k, d.x);
    lemma_swap_middle(v.y, k, d.y);
    lemma_swap_middle(v.z, k, d.z);
    lemma_times_sum(k, v.x * d.x, v.y * d.y, v.z * d.z);
}

proof fn lemma_swap_middle(x: int, k: int, d: int)
    by (nonlinear_arith)
    ensures
        (x * k) * d == k * (x * d),
{
}

proof fn lemma_times_sum(k: int, a: int, b: int, c: int)
    by (nonlinear_arith)
    ensures
        k * (a + b + c) == k * a + k * b + k * c,
{
}

/// Cramer's rule for three vectors: any `w`, times the triple product of
/// `a`, `b` and `c`, is a combination of the three.
proof fn lemma_cramer(a: IntVec, b: IntVec, c: IntVec, w: IntVec)
    ensures
        a.times(w.cross(b).dot(c)).minus(b.times(w.cross(a).dot(c))).plus(
            c.times(w.dot(a.cross(b))),
        ) == w.times(a.cross(b).dot(c)),
{
    lemma_cramer_component(a.x, a.y, a.z, b.x, b.y, b.z, c.x, c.y, c.z, w.x, w.y, w.z);
    lemma_cramer_component(a.y, a.z, a.x, b.y, b.z, b.x, c.y, c.z, c.x, w.y, w.z, w.x);
    lemma_cramer_component(a.z, a.x, a.y, b.z, b.x, b.y, c.z, c.x, c.y, w.z, w.x, w.y);
}

proof fn lemma_cramer_component(
    a1: int,
    a2: int,
    a3: int,
    b1: int,
    b2: int,
    b3: int,
    c1: int,
    c2: int,
    c3: int,
    w1: int,
    w2: int,
    w3: int,
)
    ensures
        a1 * ((w2 * b3 - w3 * b2) * c1 + (w3 * b1 - w1 * b3) * c2 + (w1 * b2 - w2 * b1) * c3) - b1
            * ((w2 * a3 - w3 * a2) * c1 + (w3 * a1 - w1 * a3) * c2 + (w1 * a2 - w2 * a1) * c3) + c1
            * (w1 * (a2 * b3 - a3 * b2) + w2 * (a3 * b1 - a1 * b3) + w3 * (a1 * b2 - a2 * b1)) == w1
            * ((a2 * b3 - a3 * b2) * c1 + (a3 * b1 - a1 * b3) * c2 + (a1 * b2 - a2 * b1) * c3),
{
    lemma_expand_inner(a1, c1, c2, c3, w2 * b3, w3 * b2, w3 * b1, w1 * b3, w1 * b2, w2 * b1);
    lemma_term_first(a1, w2, b3, c1);
    lemma_term_first(a1, w3, b2, c1);
    lemma_term_first(a1, w3, b1, c2);
    lemma_term_first(a1, w1, b3, c2);
    lemma_term_first(a1, w1, b2, c3);
    lemma_term_first(a1, w2, b1, c3);
    lemma_expand_inner(b1, c1, c2, c3, w2 * a3, w3 * a2, w3 * a1, w1 * a3, w1 * a2, w2 * a1);
    lemma_term_second(b1, w2, a3, c1);
    lemma_term_second(b1, w3, a2, c1);
    lemma_term_second(b1, w3, a1, c2);
    lemma_term_second(b1, w1, a3, c2);
    lemma_term_second(b1, w1, a2, c3);
    lemma_term_second(b1, w2, a1, c3);
    lemma_expand_outer(c1, w1, w2, w3, a2 * b3, a3 * b2, a3 * b1, a1 * b3, a1 * b2, a2 * b1);
    lemma_term_third(c1, w1, a2, b3);
    lemma_term_third(c1, w1, a3, b2);
    lemma_term_third(c1, w2, a3, b1);
    lemma_term_third(c1, w2, a1, b3);
    lemma_term_third(c1, w3, a1, b2);
    lemma_term_third(c1, w3, a2, b1);
    lemma_expand_inner(w1, c1, c2, c3, a2 * b3, a3 * b2, a3 * b1, a1 * b3, a1 * b2, a2 * b1);
    lemma_term_last(w1, a2, b3, c1);
    lemma_term_last(w1, a3, b2, c1);
    lemma_term_last(w1, a3, b1, c2);
    lemma_term_last(w1, a1, b3, c2);
    lemma_term_last(w1, a1, b2, c3);
    lemma_term_last(w1, a2, b1, c3);
}

/// The product of one component of each of four vectors, in a fixed order.
spec fn monomial(a: int, b: int, c: int, w: int) -> int {
    a * b * c * w
}

proof fn lemma_expand_outer(
    k: int,
    w1: int,
    w2: int,
    w3: int,
    p1: int,
    q1: int,
    p2: int,
    q2: int,
    p3: int,
    q3: int,
)
    ensures
        k * (w1 * (p1 - q1) + w2 * (p2 - q2) + w3 * (p3 - q3)) == k * (w1 * p1) - k * (w1 * q1) + k
            * (w2 * p2) - k * (w2 * q2) + k * (w3 * p3) - k * (w3 * q3),
{
    lemma_times_difference(w1, p1, q1);
    lemma_times_difference(w2, p2, q2);
    lemma_times_difference(w3, p3, q3);
    lemma_times_alternating_sum(k, w1 * p1, w1 * q1, w2 * p2, w2 * q2, w3 * p3, w3 * q3);
}

proof fn lemma_expand_inner(
    k: int,
    c1: int,
    c2: int,
    c3: int,
    p1: int,
    q1: int,
    p2: int,
    q2: int,
    p3: int,
    q3: int,
)
    ensures
        k * ((p1 - q1) * c1 + (p2 - q2) * c2 + (p3 - q3) * c3) == k * (p1 * c1) - k * (q1 * c1) + k
            * (p2 * c2) - k * (q2 * c2) + k * (p3 * c3) - k * (q3 * c3),
{
    lemma_difference_times(p1, q1, c1);
    lemma_difference_times(p2, q2, c2);
    lemma_difference_times(p3, q3, c3);
    lemma_times_alternating_sum(k, p1 * c1, q1 * c1, p2 * c2, q2 * c2, p3 * c3, q3 * c3);
}

proof fn lemma_times_difference(w: int, p: int, q: int)
    by (nonlinear_arith)
    ensures
        w * (p - q) == w * p - w * q,
{
}

proof fn lemma_difference_times(p: int, q: int, c: int)
    by (nonlinear_arith)
    ensures
        (p - q) * c == p * c - q * c,
{
}

proof fn lemma_times_alternating_sum(k: int, a: int, b: int, c: int, d: int, e: int, f: int)
    by (nonlinear_arith)
    ensures
        k * (a - b + c - d + e - f) == k * a - k * b + k * c - k * d + k * e - k * f,
{
}

proof fn lemma_term_first(a: int, w: int, b: int, c: int)
    by (nonlinear_arith)
    ensures
        a * ((w * b) * c) == monomial(a, b, c, w),
{
}

proof fn lemma_term_second(b: int, w: int, a: int, c: int)
    by (nonlinear_arith)
    ensures
        b * ((w * a) * c) == monomial(a, b, c, w),
{
}

proof fn lemma_term_third(c: int, w: int, a: int, b: int)
    by (nonlinear_arith)
    ensures
        c * (w * (a * b)) == monomial(a, b, c, w),
{
}

proof fn lemma_term_last(w: int, a: int, b: int, c: int)
    by (nonlinear_arith)
    ensures
        w * ((a * b) * c) == monomial(a, b, c, w),
{
}

} // verus!
