//! Points and directions in world space, with fixed-point components.

use vstd::prelude::*;
use crate::fixed::{
    floor_sqrt, isqrt, lemma_floor_sqrt_bounds, lemma_scaled_bounds, lemma_scaled_small, mul_ratio,
    scaled, SCALE,
};

verus! {

/// Largest magnitude of a coordinate that the interpolation accepts.
pub const COORD_LIMIT: i64 = 4_000_000_000_000_000_000;

/// Largest magnitude of a component that `normalize` accepts.
pub const NORMALIZE_LIMIT: i64 = 2_000_000_000;

/// Mathematical model of a [`Vec3`]: three unbounded raw components.
pub struct Point3 {
    pub x: int,
    pub y: int,
    pub z: int,
}

/// A point or direction; each component counts millionths.
#[derive(Clone, Copy, Debug, PartialEq, Eq, Structural)]
pub struct Vec3 {
    pub x: i64,
    pub y: i64,
    pub z: i64,
}

impl View for Vec3 {
    type V = Point3;

    open spec fn view(&self) -> Point3 {
        Point3 { x: self.x as int, y: self.y as int, z: self.z as int }
    }
}

impl Point3 {
    /// Squared Euclidean length.
    pub open spec fn norm_sq(self) -> int {
        self.x * self.x + self.y * self.y + self.z * self.z
    }

    /// Squared Euclidean distance to `other`.
    pub open spec fn dist_sq(self, other: Point3) -> int {
        (self.x - other.x) * (self.x - other.x) + (self.y - other.y) * (self.y - other.y) + (self.z
            - other.z) * (self.z - other.z)
    }

    /// Every component has magnitude at most `bound`.
    pub open spec fn within(self, bound: int) -> bool {
        &&& -bound <= self.x <= bound
        &&& -bound <= self.y <= bound
        &&& -bound <= self.z <= bound
    }

    /// Every component lies between the matching components of `a` and `b`.
    pub open spec fn between(self, a: Point3, b: Point3) -> bool {
        &&& (a.x <= self.x <= b.x || b.x <= self.x <= a.x)
        &&& (a.y <= self.y <= b.y || b.y <= self.y <= a.y)
        &&& (a.z <= self.z <= b.z || b.z <= self.z <= a.z)
    }

    /// The length is one, up to the rounding of `normalize`: it lies in `[SCALE - 2, SCALE]`.
    pub open spec fn is_unit(self) -> bool {
        (SCALE - 2) * (SCALE - 2) <= self.norm_sq() <= SCALE * SCALE
    }

    /// The length is exactly one.
    pub open spec fn is_exact_unit(self) -> bool {
        self.norm_sq() == SCALE * SCALE
    }

    /// `self + v * num / den`, each product rounded toward zero.
    pub open spec fn plus_scaled(self, v: Point3, num: int, den: int) -> Point3 {
        Point3 {
            x: self.x + scaled(v.x, num, den),
            y: self.y + scaled(v.y, num, den),
            z: self.z + scaled(v.z, num, den),
        }
    }
}

/// Linear interpolation from `a` toward `b` by the factor `t / SCALE`.
pub open spec fn lerp_spec(a: Point3, b: Point3, t: int) -> Point3 {
    Point3 {
        x: a.x + scaled(b.x - a.x, t, SCALE as int),
        y: a.y + scaled(b.y - a.y, t, SCALE as int),
        z: a.z + scaled(b.z - a.z, t, SCALE as int),
    }
}

/// Component `c` of a vector of squared length `n`, after the vector is brought to
/// length one: `c / sqrt(n)` in millionths, rounded toward zero.
pub open spec fn unit_component(c: int, n: int) -> int {
    let root = floor_sqrt(((c * c * (SCALE * SCALE)) / n) as nat) as int;
    if c >= 0 {
        root
    } else {
        -root
    }
}

/// The vector `v` brought to length one. Meaningful for a nonzero `v`.
pub open spec fn normalize_spec(v: Point3) -> Point3 {
    Point3 {
        x: unit_component(v.x, v.norm_sq()),
        y: unit_component(v.y, v.norm_sq()),
        z: unit_component(v.z, v.norm_sq()),
    }
}

/// Interpolating by zero stays at the start, by one arrives at the end, and anything
/// in between stays between the two.
pub proof fn lemma_lerp_bounds(a: Point3, b: Point3, t: int)
    requires
        0 <= t <= SCALE,
    ensures
        lerp_spec(a, b, t).between(a, b),
        t == 0 ==> lerp_spec(a, b, t) == a,
        t == SCALE ==> lerp_spec(a, b, t) == b,
{
    lemma_scaled_bounds(b.x - a.x, t, SCALE as int);
    lemma_scaled_bounds(b.y - a.y, t, SCALE as int);
    lemma_scaled_bounds(b.z - a.z, t, SCALE as int);
}

/// The magnitude `m` of `unit_component(c, n)` is the largest with `m * m * n <= c * c * SCALE^2`.
pub proof fn lemma_unit_component(c: int, n: int)
    requires
        n > 0,
    ensures
        ({
            let u = unit_component(c, n);
            let m = if u >= 0 { u } else { -u };
            &&& (c >= 0 ==> u >= 0)
            &&& (c <= 0 ==> u <= 0)
            &&& u * u == m * m
            &&& m * m * n <= c * c * (SCALE * SCALE)
            &&& c * c * (SCALE * SCALE) < (m + 1) * (m + 1) * n
        }),
{
    let p = c * c * (SCALE * SCALE);
    assert(p >= 0) by (nonlinear_arith)
        requires
            p == c * c * (SCALE * SCALE),
    ;
    let q = p / n;
    assert(q >= 0 && q * n <= p < (q + 1) * n) by (nonlinear_arith)
        requires
            p >= 0,
            n > 0,
            q == p / n,
    ;
    let m = floor_sqrt(q as nat) as int;
    lemma_floor_sqrt_bounds(q as nat);
    assert(m * m * n <= q * n) by (nonlinear_arith)
        requires
            m * m <= q,
            n > 0,
    ;
    assert((q + 1) * n <= (m + 1) * (m + 1) * n) by (nonlinear_arith)
        requires
            q + 1 <= (m + 1) * (m + 1),
            n > 0,
    ;
    let u = unit_component(c, n);
    assert(u * u == m * m) by (nonlinear_arith)
        requires
            u == m || u == -m,
    ;
    if c == 0 {
        assert(q == 0) by (nonlinear_arith)
            requires
                c == 0,
                p == c * c * (SCALE * SCALE),
                q >= 0,
                q * n <= p,
                n > 0,
        ;
    }
}

/// A normalized vector has length one up to rounding: each component is rounded
/// toward zero, so the length cannot exceed one and falls short by less than two millionths.
pub proof fn lemma_normalize_is_unit(v: Point3)
    requires
        v.norm_sq() > 0,
    ensures
        normalize_spec(v).is_unit(),
{
    let n = v.norm_sq();
    let w = normalize_spec(v);
    lemma_unit_component(v.x, n);
    lemma_unit_component(v.y, n);
    lemma_unit_component(v.z, n);
    let a = if w.x >= 0 { w.x } else { -w.x };
    let b = if w.y >= 0 { w.y } else { -w.y };
    let c = if w.z >= 0 { w.z } else { -w.z };
    let p = SCALE * SCALE;
    let t = a * a + b * b + c * c;
    let xx = v.x * v.x;
    let yy = v.y * v.y;
    let zz = v.z * v.z;
    assert(t * n <= n * p) by (nonlinear_arith)
        requires
            t == a * a + b * b + c * c,
            n == xx + yy + zz,
            a * a * n <= xx * p,
            b * b * n <= yy * p,
            c * c * n <= zz * p,
    ;
    assert(t <= p) by (nonlinear_arith)
        requires
            t * n <= n * p,
            n > 0,
    ;
    let u = (a + 1) * (a + 1) + (b + 1) * (b + 1) + (c + 1) * (c + 1);
    assert(u * n > n * p) by (nonlinear_arith)
        requires
            u == (a + 1) * (a + 1) + (b + 1) * (b + 1) + (c + 1) * (c + 1),
            n == xx + yy + zz,
            xx * p < (a + 1) * (a + 1) * n,
            yy * p < (b + 1) * (b + 1) * n,
            zz * p < (c + 1) * (c + 1) * n,
    ;
    assert(u > p) by (nonlinear_arith)
        requires
            u * n > n * p,
            n > 0,
    ;
    let s = a + b + c;
    assert(u == t + 2 * s + 3 && s * s <= 3 * t) by (nonlinear_arith)
        requires
            u == (a + 1) * (a + 1) + (b + 1) * (b + 1) + (c + 1) * (c + 1),
            t == a * a + b * b + c * c,
            s == a + b + c,
    ;
    assert(s <= 1_732_050) by (nonlinear_arith)
        requires
            s * s <= 3 * t,
            t <= 1_000_000_000_000,
            s >= 0,
    ;
    assert(w.norm_sq() == t);
}

/// A vector of length one, up to rounding, has no component above one.
pub proof fn lemma_unit_within_scale(v: Point3)
    requires
        v.norm_sq() <= SCALE * SCALE,
    ensures
        v.within(SCALE as int),
{
    assert(v.within(1_000_000)) by (nonlinear_arith)
        requires
            v.x * v.x + v.y * v.y + v.z * v.z <= 1_000_000_000_000,
    ;
}

/// Normalizing a vector whose length is exactly one changes nothing.
pub proof fn lemma_normalize_exact_unit(v: Point3)
    requires
        v.is_exact_unit(),
    ensures
        normalize_spec(v) == v,
{
    let p = SCALE * SCALE;
    lemma_normalize_exact_component(v.x);
    lemma_normalize_exact_component(v.y);
    lemma_normalize_exact_component(v.z);
}

proof fn lemma_normalize_exact_component(c: int)
    ensures
        unit_component(c, SCALE * SCALE) == c,
{
    let p = SCALE * SCALE;
    let m = if c >= 0 { c } else { -c };
    assert(c * c * p / p == c * c && c * c >= 0 && c * c == m * m) by (nonlinear_arith)
        requires
            p == 1_000_000_000_000,
            m == c || m == -c,
    ;
    assert(m * m < (m + 1) * (m + 1)) by (nonlinear_arith)
        requires
            m >= 0,
    ;
    crate::fixed::lemma_floor_sqrt_unique((c * c) as nat, m as nat);
}

impl Vec3 {
    /// The vector with the given raw components.
    pub fn new(x: i64, y: i64, z: i64) -> (r: Vec3)
        ensures
            r == (Vec3 { x, y, z }),
    {
        Vec3 { x, y, z }
    }

    /// Whether all three components are zero.
    pub fn is_zero(self) -> (r: bool)
        ensures
            r == (self@.norm_sq() == 0),
            !r ==> self@.norm_sq() > 0,
    {
        proof {
            let (x, y, z) = (self.x as int, self.y as int, self.z as int);
            assert(x * x + y * y + z * z >= 0 && ((x * x + y * y + z * z == 0) <==> (x == 0 && y
                == 0 && z == 0))) by (nonlinear_arith);
        }
        self.x == 0 && self.y == 0 && self.z == 0
    }

    /// Linear interpolation toward `target` by the factor `t / SCALE`.
    pub fn lerp(self, target: Vec3, t: u64) -> (r: Vec3)
        requires
            self@.within(COORD_LIMIT as int),
            target@.within(COORD_LIMIT as int),
            t <= SCALE,
        ensures
            r@ == lerp_spec(self@, target@, t as int),
            r@.between(self@, target@),
    {
        proof {
            lemma_lerp_bounds(self@, target@, t as int);
        }
        Vec3 {
            x: self.x + mul_ratio(target.x - self.x, t, SCALE as u64),
            y: self.y + mul_ratio(target.y - self.y, t, SCALE as u64),
            z: self.z + mul_ratio(target.z - self.z, t, SCALE as u64),
        }
    }

    /// `self + v * num / den`, for a `v` with no component above `den`: a start plus a
    /// velocity of at most one, taken for the time `num`.
    pub fn plus_scaled(self, v: Vec3, num: u64, den: u64) -> (r: Vec3)
        requires
            self@.within(COORD_LIMIT as int),
            v@.within(den as int),
            num <= COORD_LIMIT,
            den > 0,
        ensures
            r@ == self@.plus_scaled(v@, num as int, den as int),
    {
        proof {
            lemma_scaled_small(v.x as int, num as int, den as int);
            lemma_scaled_small(v.y as int, num as int, den as int);
            lemma_scaled_small(v.z as int, num as int, den as int);
        }
        Vec3 {
            x: self.x + mul_ratio(v.x, num, den),
            y: self.y + mul_ratio(v.y, num, den),
            z: self.z + mul_ratio(v.z, num, den),
        }
    }

    /// The vector brought to length one.
    pub fn normalize(self) -> (r: Vec3)
        requires
            self@.within(NORMALIZE_LIMIT as int),
            self@.norm_sq() > 0,
        ensures
            r@ == normalize_spec(self@),
            r@.is_unit(),
    {
        let ax: u64 = magnitude(self.x);
        let ay: u64 = magnitude(self.y);
        let az: u64 = magnitude(self.z);
        proof {
            lemma_normalize_is_unit(self@);
            assert(ax * ax <= 4_000_000_000_000_000_000 && ay * ay <= 4_000_000_000_000_000_000
                && az * az <= 4_000_000_000_000_000_000) by (nonlinear_arith)
                requires
                    ax <= 2_000_000_000,
                    ay <= 2_000_000_000,
                    az <= 2_000_000_000,
            ;
            assert(ax * ax == self.x * self.x && ay * ay == self.y * self.y && az * az == self.z
                * self.z) by (nonlinear_arith)
                requires
                    ax == self.x || ax == -self.x,
                    ay == self.y || ay == -self.y,
                    az == self.z || az == -self.z,
            ;
        }
        let n: u64 = ax * ax + ay * ay + az * az;
        Vec3 {
            x: unit_component_of(self.x, ax, n),
            y: unit_component_of(self.y, ay, n),
            z: unit_component_of(self.z, az, n),
        }
    }
}

/// Absolute value of a component.
fn magnitude(c: i64) -> (m: u64)
    requires
        -NORMALIZE_LIMIT <= c <= NORMALIZE_LIMIT,
    ensures
        m == (if c >= 0 { c as int } else { -c }),
{
    if c >= 0 {
        c as u64
    } else {
        (-c) as u64
    }
}

/// One component of the normalized vector, from the component `c`, its magnitude
/// `m` and the squared length `n` of the whole vector.
fn unit_component_of(c: i64, m: u64, n: u64) -> (r: i64)
    requires
        m <= NORMALIZE_LIMIT,
        m == (if c >= 0 { c as int } else { -c }),
        m * m <= n,
        n > 0,
    ensures
        r == unit_component(c as int, n as int),
{
    proof {
        assert(m * m == c * c && m * m <= 4_000_000_000_000_000_000) by (nonlinear_arith)
            requires
                m == c || m == -c,
                0 <= m <= 2_000_000_000,
        ;
        assert(m * m * (SCALE * SCALE) <= 4_000_000_000_000_000_000 * 1_000_000_000_000
            && (m * m * (SCALE * SCALE)) / (n as int) <= SCALE * SCALE
            && (m * m * (SCALE * SCALE)) / (n as int) >= 0) by (nonlinear_arith)
            requires
                0 <= m * m <= 4_000_000_000_000_000_000,
                m * m <= n,
                n > 0,
                SCALE == 1_000_000,
        ;
    }
    let wide: u128 = (m as u128) * (m as u128) * 1_000_000_000_000u128;
    let q: u64 = (wide / (n as u128)) as u64;
    let root: u64 = isqrt(q);
    proof {
        lemma_floor_sqrt_bounds(q as nat);
        assert(root <= 1_000_000) by (nonlinear_arith)
            requires
                root * root <= q,
                q <= 1_000_000_000_000,
        ;
    }
    if c >= 0 {
        root as i64
    } else {
        -(root as i64)
    }
}

} // verus!
