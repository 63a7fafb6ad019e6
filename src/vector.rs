//! Plane vectors in fixed-point units and the integer geometry the flock uses.
use vstd::prelude::*;

verus! {

/// Bound on each coordinate of a position, a velocity or a heading.
/// It keeps every product that the neighbour test forms inside `i128`.
pub const COORD_LIMIT: i64 = 8_388_608;

/// Bound on each coordinate of a vector that is rescaled to a given length.
pub const WIDE_LIMIT: i128 = 281_474_976_710_656;

/// A plane vector over the mathematical integers: what the vector types stand for.
pub struct Vec2Model {
    pub x: int,
    pub y: int,
}

pub open spec fn vec2(x: int, y: int) -> Vec2Model {
    Vec2Model { x, y }
}

pub open spec fn zero_vec() -> Vec2Model {
    vec2(0, 0)
}

pub open spec fn v_add(a: Vec2Model, b: Vec2Model) -> Vec2Model {
    vec2(a.x + b.x, a.y + b.y)
}

pub open spec fn v_sub(a: Vec2Model, b: Vec2Model) -> Vec2Model {
    vec2(a.x - b.x, a.y - b.y)
}

pub open spec fn dot(a: Vec2Model, b: Vec2Model) -> int {
    a.x * b.x + a.y * b.y
}

/// The squared Euclidean length.
pub open spec fn norm_sq(a: Vec2Model) -> int {
    dot(a, a)
}

/// Both coordinates lie in `[-limit, limit]`.
pub open spec fn within(a: Vec2Model, limit: int) -> bool {
    -limit <= a.x <= limit && -limit <= a.y <= limit
}

/// Integer division rounded toward zero, the rounding of Rust's `/`.
pub open spec fn div_trunc(a: int, b: int) -> int {
    if a >= 0 {
        a / b
    } else {
        -((-a) / b)
    }
}

/// `s` is the smallest natural number whose square is at least `n`.
pub open spec fn is_ceil_sqrt(n: int, s: int) -> bool {
    0 <= s && n <= s * s && (s == 0 || (s - 1) * (s - 1) < n)
}

/// The square root of `n`, rounded up.
pub open spec fn ceil_sqrt(n: int) -> int {
    choose|s: int| is_ceil_sqrt(n, s)
}

/// Each coordinate of `v` multiplied by `num / den`, rounded toward zero.
pub open spec fn scale_ratio(v: Vec2Model, num: int, den: int) -> Vec2Model {
    vec2(div_trunc(v.x * num, den), div_trunc(v.y * num, den))
}

/// `v` brought to length `len` (its direction kept, each coordinate rounded
/// toward zero); the zero vector has no direction and stays zero.
pub open spec fn scale_to_length(v: Vec2Model, len: int) -> Vec2Model {
    let s = ceil_sqrt(norm_sq(v));
    if s == 0 {
        zero_vec()
    } else {
        scale_ratio(v, len, s)
    }
}

/// `v` unchanged when its length is at most `max`, else brought to length `max`.
pub open spec fn clamp_length_max(v: Vec2Model, max: int) -> Vec2Model {
    if norm_sq(v) <= max * max {
        v
    } else {
        scale_to_length(v, max)
    }
}

pub proof fn lemma_norm_sq_zero()
    ensures
        norm_sq(zero_vec()) == 0,
{
    let z = zero_vec();
    assert(z.x == 0 && z.y == 0);
    assert(z.x * z.x == 0) by (nonlinear_arith)
        requires
            z.x == 0,
    ;
    assert(z.y * z.y == 0) by (nonlinear_arith)
        requires
            z.y == 0,
    ;
}

pub proof fn lemma_square_le(p: int, q: int)
    requires
        0 <= p <= q,
    ensures
        p * p <= q * q,
{
    assert(p * p <= q * q) by (nonlinear_arith)
        requires
            0 <= p <= q,
    ;
}

pub proof fn lemma_ceil_sqrt_unique(n: int, s: int, t: int)
    requires
        is_ceil_sqrt(n, s),
        is_ceil_sqrt(n, t),
    ensures
        s == t,
{
    if s < t {
        lemma_square_le(s, t - 1);
    } else if t < s {
        lemma_square_le(t, s - 1);
    }
}

pub proof fn lemma_ceil_sqrt_is(n: int, s: int)
    requires
        is_ceil_sqrt(n, s),
    ensures
        ceil_sqrt(n) == s,
{
    lemma_ceil_sqrt_unique(n, s, ceil_sqrt(n));
}

/// Rounding toward zero never increases the magnitude, and keeps the sign.
pub proof fn lemma_div_trunc(a: int, b: int)
    requires
        b > 0,
    ensures
        a >= 0 ==> 0 <= div_trunc(a, b) && div_trunc(a, b) * b <= a,
        a < 0 ==> div_trunc(a, b) <= 0 && -div_trunc(a, b) * b <= -a,
        div_trunc(a, b) * div_trunc(a, b) * (b * b) <= a * a,
        a == 0 ==> div_trunc(a, b) == 0,
{
    let m: int = if a >= 0 { a } else { -a };
    let q = m / b;
    vstd::arithmetic::div_mod::lemma_fundamental_div_mod(m, b);
    vstd::arithmetic::div_mod::lemma_mod_pos_bound(m, b);
    assert(0 <= q) by {
        vstd::arithmetic::div_mod::lemma_div_pos_is_pos(m, b);
    }
    assert(q * b <= m) by (nonlinear_arith)
        requires
            m == b * q + m % b,
            0 <= m % b,
    ;
    assert(q * b >= 0) by (nonlinear_arith)
        requires
            0 <= q,
            b > 0,
    ;
    lemma_square_le(q * b, m);
    assert(q * q * (b * b) == (q * b) * (q * b)) by (nonlinear_arith);
    assert(div_trunc(a, b) * div_trunc(a, b) == q * q) by (nonlinear_arith)
        requires
            div_trunc(a, b) == q || div_trunc(a, b) == -q,
    ;
    assert(m * m == a * a) by (nonlinear_arith)
        requires
            m == a || m == -a,
    ;
    if a == 0 {
        assert(q == 0) by (nonlinear_arith)
            requires
                q * b <= 0,
                q >= 0,
                b > 0,
        ;
    }
}

/// Scaling by `num / den` with rounding toward zero multiplies the squared
/// length by at most `(num / den)^2`.
pub proof fn lemma_scale_ratio_norm(v: Vec2Model, num: int, den: int)
    requires
        den > 0,
    ensures
        norm_sq(scale_ratio(v, num, den)) * (den * den) <= norm_sq(v) * (num * num),
{
    let r = scale_ratio(v, num, den);
    lemma_div_trunc(v.x * num, den);
    lemma_div_trunc(v.y * num, den);
    assert((v.x * num) * (v.x * num) == v.x * v.x * (num * num)) by (nonlinear_arith);
    assert((v.y * num) * (v.y * num) == v.y * v.y * (num * num)) by (nonlinear_arith);
    assert(norm_sq(r) * (den * den) == r.x * r.x * (den * den) + r.y * r.y * (den * den))
        by (nonlinear_arith);
    assert(norm_sq(v) * (num * num) == v.x * v.x * (num * num) + v.y * v.y * (num * num))
        by (nonlinear_arith);
}

/// A vector no longer than `m` has both coordinates in `[-m, m]`.
pub proof fn lemma_norm_bounds_coords(v: Vec2Model, m: int)
    requires
        0 <= m,
        norm_sq(v) <= m * m,
    ensures
        within(v, m),
{
    assert(v.x * v.x >= 0 && v.y * v.y >= 0) by (nonlinear_arith);
    assert(-m <= v.x <= m) by (nonlinear_arith)
        requires
            v.x * v.x <= m * m,
            m >= 0,
    ;
    assert(-m <= v.y <= m) by (nonlinear_arith)
        requires
            v.y * v.y <= m * m,
            m >= 0,
    ;
}

/// A vector brought to length `len` is at most `len` long.
pub proof fn lemma_scale_to_length_norm(v: Vec2Model, len: int)
    requires
        len >= 0,
    ensures
        norm_sq(scale_to_length(v, len)) <= len * len,
        within(scale_to_length(v, len), len),
{
    let n = norm_sq(v);
    let s = ceil_sqrt(n);
    assert(v.x * v.x >= 0 && v.y * v.y >= 0) by (nonlinear_arith);
    if s != 0 {
        let r = scale_to_length(v, len);
        assert(is_ceil_sqrt(n, s)) by {
            // some witness exists: the choice then satisfies the predicate
            lemma_ceil_sqrt_exists(n);
        }
        lemma_scale_ratio_norm(v, len, s);
        let a = norm_sq(r);
        assert(a >= 0) by (nonlinear_arith)
            requires
                a == r.x * r.x + r.y * r.y,
        ;
        assert(a <= len * len) by (nonlinear_arith)
            requires
                a * (s * s) <= n * (len * len),
                n <= s * s,
                s > 0,
                a >= 0,
                len * len >= 0,
        ;
    } else {
        assert(len * len >= 0) by (nonlinear_arith);
    }
    lemma_norm_bounds_coords(scale_to_length(v, len), len);
}

/// Every natural number has a rounded-up square root.
pub proof fn lemma_ceil_sqrt_exists(n: int)
    requires
        n >= 0,
    ensures
        is_ceil_sqrt(n, ceil_sqrt(n)),
    decreases n,
{
    if n == 0 {
        assert(is_ceil_sqrt(0, 0));
    } else {
        lemma_ceil_sqrt_exists(n - 1);
        let t = ceil_sqrt(n - 1);
        if n <= t * t {
            assert(is_ceil_sqrt(n, t));
        } else {
            // (t - 1)^2 < n - 1 < n and t^2 = n - 1 < n, so t + 1 fits
            assert(t * t == n - 1);
            assert(n <= (t + 1) * (t + 1)) by (nonlinear_arith)
                requires
                    t * t == n - 1,
                    t >= 0,
            ;
            assert(is_ceil_sqrt(n, t + 1));
        }
    }
}

/// Clamping never lengthens a vector.
pub proof fn lemma_clamp_length_max_shortens(v: Vec2Model, max: int)
    requires
        max >= 0,
    ensures
        norm_sq(clamp_length_max(v, max)) <= norm_sq(v),
{
    lemma_clamp_length_max_norm(v, max);
}

/// A clamped vector is at most `max` long.
pub proof fn lemma_clamp_length_max_norm(v: Vec2Model, max: int)
    requires
        max >= 0,
    ensures
        norm_sq(clamp_length_max(v, max)) <= max * max,
        within(clamp_length_max(v, max), max),
{
    lemma_scale_to_length_norm(v, max);
    lemma_norm_bounds_coords(clamp_length_max(v, max), max);
}

/// A point or a displacement of the plane, in fixed-point units.
#[derive(Clone, Copy, Debug, PartialEq, Eq, Structural)]
pub struct Vector2 {
    pub x: i64,
    pub y: i64,
}

impl View for Vector2 {
    type V = Vec2Model;

    open spec fn view(&self) -> Vec2Model {
        vec2(self.x as int, self.y as int)
    }
}

/// A vector with wide coordinates, for sums over many agents.
#[derive(Clone, Copy, Debug, PartialEq, Eq, Structural)]
pub struct WideVector {
    pub x: i128,
    pub y: i128,
}

impl View for WideVector {
    type V = Vec2Model;

    open spec fn view(&self) -> Vec2Model {
        vec2(self.x as int, self.y as int)
    }
}

impl Vector2 {
    pub fn new(x: i64, y: i64) -> (r: Vector2)
        ensures
            r.x == x,
            r.y == y,
    {
        Vector2 { x, y }
    }

    pub fn zero() -> (r: Vector2)
        ensures
            r@ == zero_vec(),
    {
        Vector2 { x: 0, y: 0 }
    }

    pub fn is_zero(&self) -> (r: bool)
        ensures
            r == (self@ == zero_vec()),
    {
        self.x == 0 && self.y == 0
    }

    /// The same vector with wide coordinates.
    pub fn widen(&self) -> (r: WideVector)
        ensures
            r@ == self@,
    {
        WideVector { x: self.x as i128, y: self.y as i128 }
    }

    pub fn plus(&self, o: &Vector2) -> (r: Vector2)
        requires
            i64::MIN <= self.x + o.x <= i64::MAX,
            i64::MIN <= self.y + o.y <= i64::MAX,
        ensures
            r@ == v_add(self@, o@),
    {
        Vector2 { x: self.x + o.x, y: self.y + o.y }
    }

    pub fn minus(&self, o: &Vector2) -> (r: Vector2)
        requires
            i64::MIN <= self.x - o.x <= i64::MAX,
            i64::MIN <= self.y - o.y <= i64::MAX,
        ensures
            r@ == v_sub(self@, o@),
    {
        Vector2 { x: self.x - o.x, y: self.y - o.y }
    }

    /// The squared length.
    pub fn length_squared(&self) -> (r: i128)
        requires
            within(self@, COORD_LIMIT as int),
        ensures
            r == norm_sq(self@),
    {
        self.widen().length_squared()
    }

    /// Each coordinate multiplied by `num / den`, rounded toward zero.
    pub fn scale_ratio(&self, num: i64, den: i64) -> (r: Vector2)
        requires
            within(self@, COORD_LIMIT as int),
            0 <= num <= COORD_LIMIT,
            den > 0,
        ensures
            r@ == scale_ratio(self@, num as int, den as int),
            norm_sq(r@) * (den * den) <= norm_sq(self@) * (num * num),
    {
        let w = self.widen();
        let n = num as i128;
        let d = den as i128;
        proof {
            let l = COORD_LIMIT as int;
            lemma_mul_abs_bound(w.x as int, l, n as int, l);
            lemma_mul_abs_bound(w.y as int, l, n as int, l);
            lemma_div_trunc(w.x * n, d as int);
            lemma_div_trunc(w.y * n, d as int);
            lemma_scale_ratio_norm(self@, num as int, den as int);
            assert(l * l < i64::MAX);
        }
        let qx = div_trunc_i128(w.x * n, d);
        let qy = div_trunc_i128(w.y * n, d);
        proof {
            assert(-(COORD_LIMIT * COORD_LIMIT) <= qx <= COORD_LIMIT * COORD_LIMIT) by (
            nonlinear_arith)
                requires
                    (w.x * n) >= 0 ==> 0 <= qx && qx * d <= (w.x * n),
                    (w.x * n) < 0 ==> qx <= 0 && -qx * d <= -(w.x * n),
                    -(COORD_LIMIT * COORD_LIMIT) <= w.x * n <= COORD_LIMIT * COORD_LIMIT,
                    d > 0,
            ;
            assert(-(COORD_LIMIT * COORD_LIMIT) <= qy <= COORD_LIMIT * COORD_LIMIT) by (
            nonlinear_arith)
                requires
                    (w.y * n) >= 0 ==> 0 <= qy && qy * d <= (w.y * n),
                    (w.y * n) < 0 ==> qy <= 0 && -qy * d <= -(w.y * n),
                    -(COORD_LIMIT * COORD_LIMIT) <= w.y * n <= COORD_LIMIT * COORD_LIMIT,
                    d > 0,
            ;
        }
        Vector2 { x: qx as i64, y: qy as i64 }
    }

    /// The vector brought to length at most `max`.
    pub fn clamp_length_max(&self, max: i64) -> (r: Vector2)
        requires
            within(self@, WIDE_LIMIT as int),
            0 <= max <= COORD_LIMIT,
        ensures
            r@ == clamp_length_max(self@, max as int),
            norm_sq(r@) <= max * max,
            within(r@, max as int),
    {
        self.widen().clamp_length_max(max)
    }
}

impl WideVector {
    pub fn zero() -> (r: WideVector)
        ensures
            r@ == zero_vec(),
    {
        WideVector { x: 0, y: 0 }
    }

    pub fn plus(&self, o: &WideVector) -> (r: WideVector)
        requires
            i128::MIN <= self.x + o.x <= i128::MAX,
            i128::MIN <= self.y + o.y <= i128::MAX,
        ensures
            r@ == v_add(self@, o@),
    {
        WideVector { x: self.x + o.x, y: self.y + o.y }
    }

    pub fn minus(&self, o: &WideVector) -> (r: WideVector)
        requires
            i128::MIN <= self.x - o.x <= i128::MAX,
            i128::MIN <= self.y - o.y <= i128::MAX,
        ensures
            r@ == v_sub(self@, o@),
    {
        WideVector { x: self.x - o.x, y: self.y - o.y }
    }

    /// The squared length.
    pub fn length_squared(&self) -> (r: i128)
        requires
            within(self@, WIDE_LIMIT as int),
        ensures
            r == norm_sq(self@),
            0 <= r <= 2 * WIDE_LIMIT * WIDE_LIMIT,
    {
        proof {
            lemma_square_le_abs(self.x as int, WIDE_LIMIT as int);
            lemma_square_le_abs(self.y as int, WIDE_LIMIT as int);
        }
        self.x * self.x + self.y * self.y
    }

    /// Each coordinate divided by `den`, rounded toward zero.
    pub fn div_trunc(&self, den: i128) -> (r: WideVector)
        requires
            den > 0,
            self.x > i128::MIN,
            self.y > i128::MIN,
        ensures
            r@ == vec2(div_trunc(self.x as int, den as int), div_trunc(self.y as int, den as int)),
    {
        WideVector { x: div_trunc_i128(self.x, den), y: div_trunc_i128(self.y, den) }
    }

    /// The vector brought to length `len`; the zero vector stays zero.
    pub fn scale_to_length(&self, len: i64) -> (r: Vector2)
        requires
            within(self@, WIDE_LIMIT as int),
            0 <= len <= COORD_LIMIT,
        ensures
            r@ == scale_to_length(self@, len as int),
            norm_sq(r@) <= len * len,
            within(r@, len as int),
    {
        let n = self.length_squared();
        let s = ceil_sqrt_u128(n as u128);
        proof {
            lemma_ceil_sqrt_is(n as int, s as int);
            lemma_scale_to_length_norm(self@, len as int);
        }
        if s == 0 {
            return Vector2::zero();
        }
        let s = s as i128;
        let l = len as i128;
        proof {
            lemma_mul_abs_bound(self.x as int, WIDE_LIMIT as int, l as int, COORD_LIMIT as int);
            lemma_mul_abs_bound(self.y as int, WIDE_LIMIT as int, l as int, COORD_LIMIT as int);
        }
        let qx = div_trunc_i128(self.x * l, s);
        let qy = div_trunc_i128(self.y * l, s);
        Vector2 { x: qx as i64, y: qy as i64 }
    }

    /// The vector unchanged when at most `max` long, else brought to length `max`.
    pub fn clamp_length_max(&self, max: i64) -> (r: Vector2)
        requires
            within(self@, WIDE_LIMIT as int),
            0 <= max <= COORD_LIMIT,
        ensures
            r@ == clamp_length_max(self@, max as int),
            norm_sq(r@) <= max * max,
            within(r@, max as int),
    {
        proof {
            lemma_clamp_length_max_norm(self@, max as int);
        }
        let n = self.length_squared();
        let m = max as i128;
        proof {
            lemma_square_le(m as int, COORD_LIMIT as int);
        }
        if n <= m * m {
            Vector2 { x: self.x as i64, y: self.y as i64 }
        } else {
            self.scale_to_length(max)
        }
    }
}

/// `|a| <= limit` bounds the square of `a` by the square of `limit`.
pub proof fn lemma_square_le_abs(a: int, limit: int)
    requires
        -limit <= a <= limit,
    ensures
        0 <= a * a <= limit * limit,
{
    if a >= 0 {
        lemma_square_le(a, limit);
    } else {
        lemma_square_le(-a, limit);
        assert(a * a == (-a) * (-a)) by (nonlinear_arith);
    }
}

/// Cauchy-Schwarz in the plane: `dot(a, b)^2 <= |a|^2 * |b|^2`.
pub proof fn lemma_cauchy_schwarz(a: Vec2Model, b: Vec2Model)
    ensures
        dot(a, b) * dot(a, b) <= norm_sq(a) * norm_sq(b),
{
    let (ax, ay, bx, by) = (a.x, a.y, b.x, b.y);
    let (p, q, r, t) = (ax * bx, ay * by, ax * by, ay * bx);
    assert((ax * ax) * (bx * bx) == p * p) by (nonlinear_arith)
        requires
            p == ax * bx,
    ;
    assert((ax * ax) * (by * by) == r * r) by (nonlinear_arith)
        requires
            r == ax * by,
    ;
    assert((ay * ay) * (bx * bx) == t * t) by (nonlinear_arith)
        requires
            t == ay * bx,
    ;
    assert((ay * ay) * (by * by) == q * q) by (nonlinear_arith)
        requires
            q == ay * by,
    ;
    lemma_distribute_square_sums(ax * ax, ay * ay, bx * bx, by * by);
    assert(p * q == r * t) by (nonlinear_arith)
        requires
            p == ax * bx,
            q == ay * by,
            r == ax * by,
            t == ay * bx,
    ;
    assert((p + q) * (p + q) == p * p + 2 * (p * q) + q * q) by (nonlinear_arith);
    assert((r - t) * (r - t) == r * r + t * t - 2 * (r * t)) by (nonlinear_arith);
    assert((r - t) * (r - t) >= 0) by (nonlinear_arith);
}

/// `(x + y) * (z + u)` expanded.
proof fn lemma_distribute_square_sums(x: int, y: int, z: int, u: int)
    ensures
        (x + y) * (z + u) == x * z + x * u + y * z + y * u,
{
    assert((x + y) * (z + u) == x * z + x * u + y * z + y * u) by (nonlinear_arith);
}

/// With `|a|^2 * w <= ba^2` and `|b|^2 * w <= bb^2`, `dot(a, b) * w <= ba * bb`.
pub proof fn lemma_dot_bound(a: Vec2Model, b: Vec2Model, w: int, ba: int, bb: int)
    requires
        w > 0,
        ba >= 0,
        bb >= 0,
        norm_sq(a) * w <= ba * ba,
        norm_sq(b) * w <= bb * bb,
    ensures
        dot(a, b) * w <= ba * bb,
{
    lemma_cauchy_schwarz(a, b);
    let d = dot(a, b);
    let na = norm_sq(a);
    let nb = norm_sq(b);
    assert(na >= 0 && nb >= 0) by (nonlinear_arith)
        requires
            na == a.x * a.x + a.y * a.y,
            nb == b.x * b.x + b.y * b.y,
    ;
    assert((d * w) * (d * w) <= (ba * bb) * (ba * bb)) by (nonlinear_arith)
        requires
            d * d <= na * nb,
            na * w <= ba * ba,
            nb * w <= bb * bb,
            na >= 0,
            nb >= 0,
            w > 0,
    ;
    assert(d * w <= ba * bb) by (nonlinear_arith)
        requires
            (d * w) * (d * w) <= (ba * bb) * (ba * bb),
            ba * bb >= 0,
    ;
}

/// The length of a sum of three vectors is at most the sum of bounds on
/// their lengths, all lengths weighted by `w`:
/// `|a + b + c|^2 * w <= (ba + bb + bc)^2`.
pub proof fn lemma_sum_of_three_bounded(
    a: Vec2Model,
    b: Vec2Model,
    c: Vec2Model,
    ba: int,
    bb: int,
    bc: int,
    w: int,
)
    requires
        w > 0,
        ba >= 0,
        bb >= 0,
        bc >= 0,
        norm_sq(a) * w <= ba * ba,
        norm_sq(b) * w <= bb * bb,
        norm_sq(c) * w <= bc * bc,
    ensures
        norm_sq(v_add(v_add(a, b), c)) * w <= (ba + bb + bc) * (ba + bb + bc),
{
    lemma_dot_bound(a, b, w, ba, bb);
    lemma_dot_bound(a, c, w, ba, bc);
    lemma_dot_bound(b, c, w, bb, bc);
    let s = v_add(v_add(a, b), c);
    lemma_square_of_three(a.x, b.x, c.x);
    lemma_square_of_three(a.y, b.y, c.y);
    let (na, nb, nc) = (norm_sq(a), norm_sq(b), norm_sq(c));
    let (dab, dac, dbc) = (dot(a, b), dot(a, c), dot(b, c));
    assert(norm_sq(s) == na + nb + nc + 2 * dab + 2 * dac + 2 * dbc);
    assert((na + nb + nc + 2 * dab + 2 * dac + 2 * dbc) * w == na * w + nb * w + nc * w + 2 * (
    dab * w) + 2 * (dac * w) + 2 * (dbc * w)) by (nonlinear_arith);
    assert((ba + bb + bc) * (ba + bb + bc) == ba * ba + bb * bb + bc * bc + 2 * (ba * bb) + 2 * (
    ba * bc) + 2 * (bb * bc)) by (nonlinear_arith);
}

/// `(u + v + z)^2` expanded.
proof fn lemma_square_of_three(u: int, v: int, z: int)
    ensures
        (u + v + z) * (u + v + z) == u * u + v * v + z * z + 2 * (u * v) + 2 * (u * z) + 2 * (v
            * z),
{
    assert((u + v + z) * (u + v + z) == u * u + v * v + z * z + 2 * (u * v) + 2 * (u * z) + 2 * (v
        * z)) by (nonlinear_arith);
}

/// A product of two bounded factors is bounded by the product of the bounds.
pub proof fn lemma_mul_abs_bound(a: int, la: int, b: int, lb: int)
    requires
        -la <= a <= la,
        -lb <= b <= lb,
    ensures
        -(la * lb) <= a * b <= la * lb,
{
    assert(-(la * lb) <= a * b <= la * lb) by (nonlinear_arith)
        requires
            -la <= a <= la,
            -lb <= b <= lb,
    ;
}

/// Division rounded toward zero.
pub fn div_trunc_i128(a: i128, b: i128) -> (q: i128)
    requires
        b > 0,
        a > i128::MIN,
    ensures
        q == div_trunc(a as int, b as int),
{
    proof {
        lemma_div_trunc(a as int, b as int);
    }
    if a >= 0 {
        a / b
    } else {
        -((-a) / b)
    }
}

/// The square root of `n`, rounded up, by bisection.
pub fn ceil_sqrt_u128(n: u128) -> (s: u128)
    requires
        n <= 2 * (WIDE_LIMIT * WIDE_LIMIT),
    ensures
        is_ceil_sqrt(n as int, s as int),
        s <= 2 * WIDE_LIMIT,
{
    if n == 0 {
        return 0;
    }
    let mut lo: u128 = 0;
    let mut hi: u128 = 562_949_953_421_312;
    assert(hi * hi == 4 * (WIDE_LIMIT * WIDE_LIMIT));
    while hi - lo > 1
        invariant
            lo < hi <= 562_949_953_421_312,
            lo * lo < n,
            n <= hi * hi,
        decreases hi - lo,
    {
        let mid = lo + (hi - lo) / 2;
        proof {
            lemma_square_le(mid as int, 562_949_953_421_312);
        }
        if mid * mid >= n {
            hi = mid;
        } else {
            lo = mid;
        }
    }
    assert(lo == hi - 1);
    hi
}

} // verus!
