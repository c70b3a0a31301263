//! A two-component vector over integer logical units, with componentwise
//! arithmetic, an exact integer magnitude (floor of the square root of the
//! squared norm), and normalization by truncating division.

use vstd::prelude::*;

verus! {

/// Every coordinate, extent and speed the game works with stays within this
/// bound, so sums, doubled comparisons and direction-times-speed products
/// all fit in `i64`.
pub const COORD_LIMIT: i64 = 0x4000_0000;

/// A 2D vector. Coordinates are integer logical units of the play field.
#[derive(Debug, Clone, Copy, PartialEq, Eq, Structural)]
pub struct Vector2 {
    pub x: i64,
    pub y: i64,
}

/// Whether `n` is representable as an `i64`.
pub open spec fn fits_i64(n: int) -> bool {
    i64::MIN <= n <= i64::MAX
}

/// Truncating integer division (rounds toward zero), the semantics of `/`
/// on `i64`. Meaningful only for `b != 0`.
pub open spec fn div_trunc(a: int, b: int) -> int {
    let q = vstd::math::abs(a) as int / vstd::math::abs(b) as int;
    if (a >= 0) == (b >= 0) {
        q
    } else {
        -q
    }
}

/// `r` is the floor of the square root of `s`.
pub open spec fn is_isqrt(r: int, s: int) -> bool {
    0 <= r && r * r <= s < (r + 1) * (r + 1)
}

/// The floor of the square root of `s` (meaningful for `s >= 0`;
/// `lemma_isqrt_exists` shows the witness exists).
pub open spec fn isqrt_of(s: int) -> int {
    choose|r: int| is_isqrt(r, s)
}

/// Exhibits a floor square root of `s` for any `s >= 0`.
proof fn isqrt_witness(s: int) -> (r: int)
    requires
        s >= 0,
    ensures
        is_isqrt(r, s),
    decreases s,
{
    if s == 0 {
        assert(is_isqrt(0, 0)) by (nonlinear_arith);
        0
    } else {
        let p = isqrt_witness(s - 1);
        if s < (p + 1) * (p + 1) {
            assert(is_isqrt(p, s));
            p
        } else {
            assert(s == (p + 1) * (p + 1));
            assert((p + 1) * (p + 1) <= s < (p + 2) * (p + 2)) by (nonlinear_arith)
                requires
                    s == (p + 1) * (p + 1),
                    p >= 0,
            ;
            assert(is_isqrt(p + 1, s));
            p + 1
        }
    }
}

/// Every nonnegative `s` has a floor square root, and `isqrt_of` denotes it.
pub proof fn lemma_isqrt_exists(s: int)
    requires
        s >= 0,
    ensures
        is_isqrt(isqrt_of(s), s),
{
    let r = isqrt_witness(s);
    assert(is_isqrt(isqrt_of(s), s)) by {
        assert(is_isqrt(r, s));
    }
}

/// The floor square root of `s` is unique.
pub proof fn lemma_isqrt_unique(r1: int, r2: int, s: int)
    requires
        is_isqrt(r1, s),
        is_isqrt(r2, s),
    ensures
        r1 == r2,
{
    assert(r1 == r2) by (nonlinear_arith)
        requires
            0 <= r1 && r1 * r1 <= s < (r1 + 1) * (r1 + 1),
            0 <= r2 && r2 * r2 <= s < (r2 + 1) * (r2 + 1),
    ;
}

/// Truncating division on `i64`, reduced to division by a positive divisor,
/// whose rounding the verifier models directly.
fn div_i64(a: i64, b: i64) -> (q: i64)
    requires
        b != 0,
        !(a == i64::MIN && b == -1),
    ensures
        q == div_trunc(a as int, b as int),
{
    if b > 0 {
        a / b
    } else if b == i64::MIN {
        if a == i64::MIN {
            proof {
                assert(div_trunc(a as int, b as int) == 1) by (nonlinear_arith)
                    requires
                        a == i64::MIN && b == i64::MIN,
                ;
            }
            1
        } else {
            proof {
                assert(div_trunc(a as int, b as int) == 0) by (nonlinear_arith)
                    requires
                        a != i64::MIN && b == i64::MIN,
                ;
            }
            0
        }
    } else {
        let p: i64 = -b;
        let q0: i64 = a / p;
        proof {
            if a >= 0 {
                vstd::arithmetic::div_mod::lemma_div_pos_is_pos(a as int, p as int);
            } else if a == i64::MIN {
                vstd::arithmetic::div_mod::lemma_div_pos_is_pos(-(a as int), p as int);
                vstd::arithmetic::div_mod::lemma_div_is_ordered_by_denominator(
                    -(a as int),
                    2,
                    p as int,
                );
            } else {
                vstd::arithmetic::div_mod::lemma_div_pos_is_pos(-(a as int), p as int);
                vstd::arithmetic::div_mod::lemma_div_nonincreasing(-(a as int), p as int);
            }
        }
        -q0
    }
}

impl Vector2 {
    /// The componentwise sum of `a` and `b` is representable.
    pub open spec fn sum_fits(a: Vector2, b: Vector2) -> bool {
        fits_i64(a.x + b.x) && fits_i64(a.y + b.y)
    }

    /// Componentwise sum (meaningful when `sum_fits(a, b)`).
    pub open spec fn vec_sum(a: Vector2, b: Vector2) -> Vector2 {
        Vector2 { x: (a.x + b.x) as i64, y: (a.y + b.y) as i64 }
    }

    /// Componentwise product with the scalar `k` (meaningful when the
    /// products are representable).
    pub open spec fn vec_scaled(self, k: int) -> Vector2 {
        Vector2 { x: (self.x * k) as i64, y: (self.y * k) as i64 }
    }

    /// Componentwise truncating quotient by the scalar `k` (meaningful for
    /// `k != 0`, away from the lone `i64::MIN / -1` overflow).
    pub open spec fn vec_divided(self, k: int) -> Vector2 {
        Vector2 { x: div_trunc(self.x as int, k) as i64, y: div_trunc(self.y as int, k) as i64 }
    }

    /// The squared Euclidean norm.
    pub open spec fn norm_sq(self) -> int {
        self.x * self.x + self.y * self.y
    }

    /// Builds the vector with the given components.
    pub fn new(in_x: i64, in_y: i64) -> (v: Vector2)
        ensures
            v.x == in_x,
            v.y == in_y,
    {
        Vector2 { x: in_x, y: in_y }
    }

    /// Componentwise sum of `self` and `other`.
    pub fn add(self, other: Vector2) -> (r: Vector2)
        requires
            Vector2::sum_fits(self, other),
        ensures
            r == Vector2::vec_sum(self, other),
            r.x == self.x + other.x,
            r.y == self.y + other.y,
    {
        Vector2 { x: self.x + other.x, y: self.y + other.y }
    }

    /// Adds `other` into `self` componentwise.
    pub fn add_assign(&mut self, other: Vector2)
        requires
            Vector2::sum_fits(*old(self), other),
        ensures
            *final(self) == Vector2::vec_sum(*old(self), other),
            final(self).x == old(self).x + other.x,
            final(self).y == old(self).y + other.y,
    {
        self.x = self.x + other.x;
        self.y = self.y + other.y;
    }

    /// Componentwise product with the scalar `scalar`.
    pub fn mul(self, scalar: i64) -> (r: Vector2)
        requires
            fits_i64(self.x * scalar),
            fits_i64(self.y * scalar),
        ensures
            r == self.vec_scaled(scalar as int),
            r.x == self.x * scalar,
            r.y == self.y * scalar,
    {
        Vector2 { x: self.x * scalar, y: self.y * scalar }
    }

    /// Divides both components by `scalar`, rounding toward zero.
    pub fn div_assign(&mut self, scalar: i64)
        requires
            scalar != 0,
            !(old(self).x == i64::MIN && scalar == -1),
            !(old(self).y == i64::MIN && scalar == -1),
        ensures
            *final(self) == old(self).vec_divided(scalar as int),
            final(self).x == div_trunc(old(self).x as int, scalar as int),
            final(self).y == div_trunc(old(self).y as int, scalar as int),
    {
        self.x = div_i64(self.x, scalar);
        self.y = div_i64(self.y, scalar);
    }

    /// The magnitude of the vector, rounded down to an integer: the floor of
    /// the square root of `x*x + y*y`.
    pub fn magnitude(self) -> (r: i64)
        requires
            self.norm_sq() <= i64::MAX,
        ensures
            is_isqrt(r as int, self.norm_sq()),
            r == isqrt_of(self.norm_sq()),
    {
        proof {
            assert(self.x * self.x >= 0 && self.y * self.y >= 0) by (nonlinear_arith);
        }
        let xx: i64 = self.x * self.x;
        let yy: i64 = self.y * self.y;
        let s: u64 = (xx + yy) as u64;
        let mut lo: u64 = 0;
        let mut hi: u64 = 0x1_0000_0000;
        proof {
            assert((0x1_0000_0000int) * (0x1_0000_0000int) > i64::MAX as int) by (nonlinear_arith);
        }
        while lo + 1 < hi
            invariant
                lo < hi <= 0x1_0000_0000u64,
                s <= i64::MAX as u64,
                lo * lo <= s,
                s < hi * hi,
            decreases hi - lo,
        {
            let mid: u64 = lo + (hi - lo) / 2;
            proof {
                assert(mid * mid <= 0xFFFF_FFFFu64 * 0xFFFF_FFFFu64) by (nonlinear_arith)
                    requires
                        mid < 0x1_0000_0000u64,
                ;
            }
            if mid * mid <= s {
                lo = mid;
            } else {
                hi = mid;
            }
        }
        let r: i64 = lo as i64;
        proof {
            assert(is_isqrt(r as int, self.norm_sq()));
            lemma_isqrt_exists(self.norm_sq());
            lemma_isqrt_unique(r as int, isqrt_of(self.norm_sq()), self.norm_sq());
        }
        r
    }

    /// Scales the vector to its truncating quotient by its magnitude. The
    /// zero vector has magnitude zero and is left out.
    pub fn normalize(&mut self)
        requires
            !(old(self).x == 0 && old(self).y == 0),
            old(self).norm_sq() <= i64::MAX,
        ensures
            *final(self) == old(self).vec_divided(isqrt_of(old(self).norm_sq())),
    {
        let m = self.magnitude();
        proof {
            let s = old(self).norm_sq();
            let x0 = old(self).x as int;
            let y0 = old(self).y as int;
            assert(m >= 1) by (nonlinear_arith)
                requires
                    is_isqrt(m as int, s),
                    !(x0 == 0 && y0 == 0),
                    s == x0 * x0 + y0 * y0,
            ;
        }
        self.div_assign(m);
    }
}

/// Vector addition is commutative: summing in either order gives the same
/// vector.
pub proof fn lemma_add_comm(a: Vector2, b: Vector2)
    ensures
        Vector2::vec_sum(a, b) == Vector2::vec_sum(b, a),
{
}

/// Vector addition is associative: when every intermediate sum is
/// representable, either grouping gives the same vector.
pub proof fn lemma_add_assoc(a: Vector2, b: Vector2, c: Vector2)
    requires
        Vector2::sum_fits(a, b),
        Vector2::sum_fits(Vector2::vec_sum(a, b), c),
        Vector2::sum_fits(b, c),
        Vector2::sum_fits(a, Vector2::vec_sum(b, c)),
    ensures
        Vector2::vec_sum(Vector2::vec_sum(a, b), c) == Vector2::vec_sum(a, Vector2::vec_sum(b, c)),
{
}

} // verus!
