//! Fixed-point arena geometry: vectors, timed travel and velocity renormalization.
use vstd::prelude::*;
use vstd::arithmetic::div_mod::{lemma_fundamental_div_mod, lemma_mod_bound};

verus! {

/// Fixed-point units in one arena unit: the arena spans `[-UNIT, UNIT]` on both axes.
pub const UNIT: i64 = 1_000_000;

/// Time steps are counted in microseconds.
pub const TICKS_PER_SECOND: i64 = 1_000_000;

/// Largest speed (units per second) that a paddle or the ball may have.
pub const MAX_SPEED: i64 = 100_000_000;

/// Largest magnitude of each component of the ball's velocity between frames.
pub const MAX_VELOCITY: i64 = 100_000_000;

/// Largest magnitude of a paddle's accumulated intent.
pub const MAX_WISH: i64 = 4;

/// Largest magnitude of a velocity component after paddle kicks, before renormalization.
pub const MAX_KICKED: i64 = 1_000_000_000;

/// Coordinates are kept inside `[-MAX_COORD, MAX_COORD]`: the representable world.
pub const MAX_COORD: i64 = 1_000_000_000_000_000;

/// A point, an extent or a velocity in the arena's fixed-point coordinates.
#[derive(Clone, Copy, Debug, PartialEq, Eq, Structural)]
pub struct Vec2 {
    pub x: i64,
    pub y: i64,
}

impl Vec2 {
    pub fn new(x: i64, y: i64) -> (r: Vec2)
        ensures
            r.x == x,
            r.y == y,
    {
        Vec2 { x, y }
    }

    pub open spec fn spec_zero() -> Vec2 {
        Vec2 { x: 0, y: 0 }
    }

    pub fn zero() -> (r: Vec2)
        ensures
            r == Vec2::spec_zero(),
    {
        Vec2 { x: 0, y: 0 }
    }
}

pub open spec fn abs(v: int) -> int {
    if v < 0 {
        -v
    } else {
        v
    }
}

/// Squared length of the vector `(x, y)`.
pub open spec fn len2(x: int, y: int) -> int {
    x * x + y * y
}

/// Distance covered in `dt` microseconds at `v` units per second, rounded toward zero.
pub open spec fn travel(v: int, dt: int) -> int {
    if v >= 0 {
        (v * dt) / (TICKS_PER_SECOND as int)
    } else {
        -((-v * dt) / (TICKS_PER_SECOND as int))
    }
}

/// `c` limited to the representable world.
pub open spec fn in_world(c: int) -> int {
    if c > MAX_COORD {
        MAX_COORD as int
    } else if c < -MAX_COORD {
        -MAX_COORD as int
    } else {
        c
    }
}

/// `r` is the integer square root of `n`.
pub open spec fn is_root(r: int, n: int) -> bool {
    0 <= r && r * r <= n && n < (r + 1) * (r + 1)
}

/// The integer square root of `n`.
pub open spec fn root(n: int) -> int {
    choose|r: int| is_root(r, n)
}

/// Component `c` of the vector `(c, other)` rescaled to length `s`, with its sign kept and
/// its magnitude `|c| * s / |(c, other)|` rounded down. The zero vector stays zero.
pub open spec fn rescaled(c: int, other: int, s: int) -> int {
    let q = len2(c, other);
    if q == 0 {
        0
    } else {
        let m = root((c * c * s * s) / q);
        if c < 0 {
            -m
        } else {
            m
        }
    }
}

proof fn lemma_square_monotonic(a: int, b: int)
    requires
        0 <= a <= b,
    ensures
        a * a <= b * b,
{
    assert(a * a <= b * b) by (nonlinear_arith)
        requires
            0 <= a <= b,
    ;
}

/// The integer square root is unique.
pub proof fn lemma_root_unique(r: int, n: int)
    requires
        is_root(r, n),
    ensures
        root(n) == r,
{
    let t = root(n);
    assert(is_root(t, n));
    if t < r {
        lemma_square_monotonic(t + 1, r);
    } else if r < t {
        lemma_square_monotonic(r + 1, t);
    }
}

/// Every natural number has an integer square root.
pub proof fn lemma_root_exists(n: int)
    requires
        0 <= n,
    ensures
        is_root(root(n), n),
    decreases n,
{
    if n == 0 {
        assert(is_root(0, 0));
    } else {
        lemma_root_exists(n - 1);
        let r = root(n - 1);
        if (r + 1) * (r + 1) <= n {
            assert(is_root(r + 1, n)) by (nonlinear_arith)
                requires
                    0 <= r,
                    (r + 1) * (r + 1) <= n,
                    n - 1 < (r + 1) * (r + 1),
            ;
        } else {
            assert(is_root(r, n));
        }
    }
}

/// Renormalizing a nonzero vector to length `s` gives a vector whose length is `s`, up to
/// the rounding of each component: its squared length lies in `[s*s - 4*s - 1, s*s]`.
pub proof fn lemma_rescaled_length(x: int, y: int, s: int)
    requires
        0 < s,
        len2(x, y) != 0,
    ensures
        s * s - 4 * s - 1 <= len2(rescaled(x, y, s), rescaled(y, x, s)) <= s * s,
{
    let q = len2(x, y);
    assert(q > 0) by (nonlinear_arith)
        requires
            q == x * x + y * y,
            q != 0,
    ;
    assert(len2(y, x) == q);
    let na = x * x * s * s;
    let nb = y * y * s * s;
    let fa = na / q;
    let fb = nb / q;
    lemma_fundamental_div_mod(na, q);
    lemma_mod_bound(na, q);
    lemma_fundamental_div_mod(nb, q);
    lemma_mod_bound(nb, q);
    assert(na + nb == s * s * q) by (nonlinear_arith)
        requires
            na == x * x * s * s,
            nb == y * y * s * s,
            q == x * x + y * y,
    ;
    assert(na >= 0 && nb >= 0) by (nonlinear_arith)
        requires
            na == x * x * s * s,
            nb == y * y * s * s,
    ;
    assert(fa >= 0 && fb >= 0 && fa + fb <= s * s && fa + fb + 2 > s * s) by (nonlinear_arith)
        requires
            q * fa + na % q == na,
            q * fb + nb % q == nb,
            0 <= na % q < q,
            0 <= nb % q < q,
            na >= 0,
            nb >= 0,
            na + nb == s * s * q,
            q > 0,
    ;
    lemma_root_exists(fa);
    lemma_root_exists(fb);
    let ma = root(fa);
    let mb = root(fb);
    let rx = rescaled(x, y, s);
    let ry = rescaled(y, x, s);
    assert(rx * rx == ma * ma && ry * ry == mb * mb) by (nonlinear_arith)
        requires
            rx == ma || rx == -ma,
            ry == mb || ry == -mb,
    ;
    assert(ma <= s && mb <= s) by (nonlinear_arith)
        requires
            ma * ma <= fa,
            mb * mb <= fb,
            fa + fb <= s * s,
            fa >= 0,
            fb >= 0,
            ma >= 0,
            mb >= 0,
            s > 0,
    ;
    assert(s * s - 4 * s - 1 <= ma * ma + mb * mb <= s * s) by (nonlinear_arith)
        requires
            ma * ma <= fa,
            mb * mb <= fb,
            fa < (ma + 1) * (ma + 1),
            fb < (mb + 1) * (mb + 1),
            fa + fb <= s * s,
            fa + fb + 2 > s * s,
            0 <= ma <= s,
            0 <= mb <= s,
    ;
}

/// Integer square root by bisection.
pub fn isqrt(n: u64) -> (r: u64)
    ensures
        is_root(r as int, n as int),
{
    let mut lo: u64 = 0;
    let mut hi: u64 = 4_294_967_296;
    assert(n < hi * hi) by (nonlinear_arith)
        requires
            hi == 4_294_967_296u64,
            n <= u64::MAX,
    ;
    while hi - lo > 1
        invariant
            lo < hi <= 4_294_967_296,
            lo * lo <= n,
            n < hi * hi,
        decreases hi - lo,
    {
        let mid: u64 = lo + (hi - lo) / 2;
        assert(mid * mid < 18_446_744_073_709_551_616) by (nonlinear_arith)
            requires
                mid < 4_294_967_296,
        ;
        if mid * mid <= n {
            lo = mid;
        } else {
            hi = mid;
        }
    }
    lo
}

/// One component of `renormalize`, given the squared length `q` of the vector.
fn rescale_component(c: i64, q: u128, ss: u128, Ghost(other): Ghost<int>, Ghost(s): Ghost<int>) -> (r: i64)
    requires
        q == len2(c as int, other),
        q > 0,
        ss == s * s,
        0 < s <= MAX_SPEED,
        abs(c as int) <= MAX_KICKED,
        abs(other) <= MAX_KICKED,
    ensures
        r == rescaled(c as int, other, s),
        abs(r as int) <= s,
{
    let a: u128 = if c < 0 {
        (-(c as i128)) as u128
    } else {
        c as u128
    };
    assert(a * a == c * c) by (nonlinear_arith)
        requires
            a == abs(c as int),
    ;
    assert(a * a <= 1_000_000_000_000_000_000) by (nonlinear_arith)
        requires
            a <= 1_000_000_000,
    ;
    assert(ss <= 10_000_000_000_000_000) by (nonlinear_arith)
        requires
            ss == s * s,
            0 < s <= 100_000_000,
    ;
    assert(a * a * ss <= 10_000_000_000_000_000_000_000_000_000_000_000) by (nonlinear_arith)
        requires
            a * a <= 1_000_000_000_000_000_000,
            ss <= 10_000_000_000_000_000,
    ;
    let p: u128 = a * a * ss;
    assert(p == c * c * s * s) by (nonlinear_arith)
        requires
            a * a == c * c,
            ss == s * s,
            p == a * a * ss,
    ;
    let f: u128 = p / q;
    assert(f <= ss) by {
        lemma_fundamental_div_mod(p as int, q as int);
        lemma_mod_bound(p as int, q as int);
        assert(a * a <= q) by (nonlinear_arith)
            requires
                q == c * c + other * other,
                a * a == c * c,
        ;
        assert(q * f <= p);
        assert(p <= q * ss) by (nonlinear_arith)
            requires
                a * a <= q,
                p == a * a * ss,
                ss >= 0,
        ;
        assert(f <= ss) by (nonlinear_arith)
            requires
                q * f <= q * ss,
                q > 0,
        ;
    }
    let m: u64 = isqrt(f as u64);
    assert(m <= s) by (nonlinear_arith)
        requires
            m * m <= f,
            f <= ss,
            ss == s * s,
            s > 0,
    ;
    proof {
        lemma_root_unique(m as int, f as int);
    }
    if c < 0 {
        -(m as i64)
    } else {
        m as i64
    }
}

/// `v` rescaled to length `speed`, direction kept; the zero vector stays zero.
pub fn renormalize(v: Vec2, speed: i64) -> (r: Vec2)
    requires
        0 < speed <= MAX_SPEED,
        abs(v.x as int) <= MAX_KICKED,
        abs(v.y as int) <= MAX_KICKED,
    ensures
        r.x == rescaled(v.x as int, v.y as int, speed as int),
        r.y == rescaled(v.y as int, v.x as int, speed as int),
        abs(r.x as int) <= speed,
        abs(r.y as int) <= speed,
{
    if v.x == 0 && v.y == 0 {
        return v;
    }
    let ax: u128 = if v.x < 0 {
        (-(v.x as i128)) as u128
    } else {
        v.x as u128
    };
    let ay: u128 = if v.y < 0 {
        (-(v.y as i128)) as u128
    } else {
        v.y as u128
    };
    assert(ax * ax + ay * ay == len2(v.x as int, v.y as int)
        && ax * ax + ay * ay <= 2_000_000_000_000_000_000) by (nonlinear_arith)
        requires
            ax == abs(v.x as int),
            ay == abs(v.y as int),
            ax <= 1_000_000_000,
            ay <= 1_000_000_000,
    ;
    assert(ax * ax + ay * ay > 0) by (nonlinear_arith)
        requires
            ax == abs(v.x as int),
            ay == abs(v.y as int),
            ax > 0 || ay > 0,
    ;
    let q: u128 = ax * ax + ay * ay;
    assert(len2(v.y as int, v.x as int) == q);
    let s: u128 = speed as u128;
    assert(s * s <= 10_000_000_000_000_000) by (nonlinear_arith)
        requires
            0 < s <= 100_000_000,
    ;
    let ss: u128 = s * s;
    let x = rescale_component(v.x, q, ss, Ghost(v.y as int), Ghost(speed as int));
    let y = rescale_component(v.y, q, ss, Ghost(v.x as int), Ghost(speed as int));
    Vec2 { x, y }
}

/// Coordinate `c` moved at `v` units per second for `dt` microseconds, kept in the world.
pub fn step_coord(c: i64, v: i64, dt: u32) -> (r: i64)
    ensures
        r == in_world(c + travel(v as int, dt as int)),
{
    let t: i128 = TICKS_PER_SECOND as i128;
    assert(abs(v * dt) <= 39_614_081_257_132_168_796_771_975_168) by (nonlinear_arith)
        requires
            -9_223_372_036_854_775_808 <= v <= 9_223_372_036_854_775_807,
            0 <= dt <= 4_294_967_295,
    ;
    assert((-v) * dt == -(v * dt)) by (nonlinear_arith);
    let d: i128 = if v >= 0 {
        ((v as i128) * (dt as i128)) / t
    } else {
        -((-(v as i128)) * (dt as i128) / t)
    };
    let moved: i128 = (c as i128) + d;
    if moved > MAX_COORD as i128 {
        MAX_COORD
    } else if moved < -(MAX_COORD as i128) {
        -MAX_COORD
    } else {
        moved as i64
    }
}

} // verus!
