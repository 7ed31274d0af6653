//! Fixed-point helpers: a widened multiply-divide and an integer square root.
use vstd::prelude::*;

use crate::error::ErrorCode;

verus! {

/// `x` is representable as a `u64`.
pub open spec fn fits_u64(x: int) -> bool {
    0 <= x <= u64::MAX
}

/// `floor(a * b / c)`, computed with a 128-bit intermediate so that the
/// product never overflows; only a quotient beyond `u64` is rejected.
pub fn scaled_mul_div(a: u64, b: u64, c: u64) -> (r: Result<u64, ErrorCode>)
    requires
        c > 0,
    ensures
        match r {
            Ok(v) => v == a * b / (c as int),
            Err(e) => e == ErrorCode::MathOverflow && a * b / (c as int) > u64::MAX,
        },
{
    assert((a as int) * (b as int) <= u128::MAX) by (nonlinear_arith)
        requires
            a <= u64::MAX,
            b <= u64::MAX,
    ;
    let wide: u128 = (a as u128) * (b as u128);
    let q: u128 = wide / (c as u128);
    if q > u64::MAX as u128 {
        Err(ErrorCode::MathOverflow)
    } else {
        Ok(q as u64)
    }
}

/// `r` is the integer square root of `n`.
pub open spec fn is_floor_sqrt(r: int, n: int) -> bool {
    0 <= r && r * r <= n < (r + 1) * (r + 1)
}

/// The integer square root, `floor(sqrt(n))`.
pub open spec fn floor_sqrt(n: nat) -> nat
    decreases n,
{
    if n == 0 {
        0
    } else {
        let r = floor_sqrt((n - 1) as nat);
        if (r + 1) * (r + 1) <= n {
            r + 1
        } else {
            r
        }
    }
}

pub proof fn lemma_floor_sqrt(n: nat)
    ensures
        is_floor_sqrt(floor_sqrt(n) as int, n as int),
    decreases n,
{
    if n > 0 {
        lemma_floor_sqrt((n - 1) as nat);
        let r = floor_sqrt((n - 1) as nat) as int;
        if (r + 1) * (r + 1) <= n {
            assert((r + 1) * (r + 1) < (r + 2) * (r + 2)) by (nonlinear_arith)
                requires
                    r >= 0,
            ;
        }
    }
}

/// The integer square root is unique.
pub proof fn lemma_floor_sqrt_unique(r: int, s: int, n: int)
    requires
        is_floor_sqrt(r, n),
        is_floor_sqrt(s, n),
    ensures
        r == s,
{
    assert(r == s) by (nonlinear_arith)
        requires
            0 <= r,
            0 <= s,
            r * r <= n < (r + 1) * (r + 1),
            s * s <= n < (s + 1) * (s + 1),
    {
        if r < s {
            assert((r + 1) * (r + 1) <= s * s) by (nonlinear_arith)
                requires
                    0 <= r + 1 <= s,
            ;
        } else if s < r {
            assert((s + 1) * (s + 1) <= r * r) by (nonlinear_arith)
                requires
                    0 <= s + 1 <= r,
            ;
        }
    }
}

/// One Newton step `(x + n / x) / 2` never drops below the integer square root.
proof fn lemma_newton_step_stays_above(x: int, n: int)
    requires
        x > 0,
        n >= 0,
    ensures
        n < ((x + n / x) / 2 + 1) * ((x + n / x) / 2 + 1),
{
    let q = n / x;
    let y = (x + q) / 2;
    let a = x * (q + 1);
    let b = (y + 1) * (y + 1);
    assert(n < a) by (nonlinear_arith)
        requires
            x > 0,
            q == n / x,
            a == x * (q + 1),
    ;
    assert(4 * a <= (x + q + 1) * (x + q + 1)) by (nonlinear_arith)
        requires
            a == x * (q + 1),
    ;
    assert(x + q + 1 <= 2 * (y + 1));
    assert((x + q + 1) * (x + q + 1) <= 4 * b) by (nonlinear_arith)
        requires
            0 <= x + q + 1 <= 2 * (y + 1),
            b == (y + 1) * (y + 1),
    ;
}

/// Newton's-method integer square root: `floor(sqrt(n))`.
pub fn integer_sqrt(n: u64) -> (r: u64)
    ensures
        is_floor_sqrt(r as int, n as int),
        r == floor_sqrt(n as nat),
{
    proof {
        lemma_floor_sqrt(n as nat);
    }
    if n == 0 {
        return 0;
    }
    if n < 4 {
        proof {
            lemma_floor_sqrt_unique(1, floor_sqrt(n as nat) as int, n as int);
        }
        return 1;
    }
    let mut x: u64 = n / 2;
    assert(n < (x + 1) * (x + 1)) by (nonlinear_arith)
        requires
            n >= 4,
            x == n / 2,
    ;
    assert(n / x <= n / 2) by (nonlinear_arith)
        requires
            2 <= x,
            0 <= n,
    ;
    let mut y: u64 = (x + n / x) / 2;
    proof {
        lemma_newton_step_stays_above(x as int, n as int);
    }
    while y < x
        invariant
            4 <= n,
            2 <= x <= n / 2,
            n < (x + 1) * (x + 1),
            n < (y + 1) * (y + 1),
            y == (x + n / x) / 2,
        decreases x,
    {
        assert(2 <= y) by (nonlinear_arith)
            requires
                4 <= n < (y + 1) * (y + 1),
                0 <= y,
        ;
        x = y;
        assert(n / x <= n / 2) by (nonlinear_arith)
            requires
                2 <= x,
                0 <= n,
        ;
        y = (x + n / x) / 2;
        proof {
            lemma_newton_step_stays_above(x as int, n as int);
        }
    }
    assert(x * x <= n) by (nonlinear_arith)
        requires
            x > 0,
            y == (x + n / x) / 2,
            x <= y,
    ;
    proof {
        lemma_floor_sqrt_unique(x as int, floor_sqrt(n as nat) as int, n as int);
    }
    x
}

/// A part of a whole, applied to a value, is at most that value.
pub proof fn lemma_part_of_whole(part: int, value: int, whole: int)
    requires
        0 <= part <= whole,
        whole > 0,
        value >= 0,
    ensures
        0 <= part * value / whole <= value,
        value * part == part * value,
{
    assert(value * part == part * value) by (nonlinear_arith);
    assert(0 <= part * value <= whole * value) by (nonlinear_arith)
        requires
            0 <= part <= whole,
            value >= 0,
    ;
    assert(whole * value / whole == value) by (nonlinear_arith)
        requires
            whole > 0,
    ;
    vstd::arithmetic::div_mod::lemma_div_is_ordered(part * value, whole * value, whole);
    vstd::arithmetic::div_mod::lemma_div_pos_is_pos(part * value, whole);
}

/// `value` held within `[lo, hi]`.
pub open spec fn clamp_of(value: int, lo: int, hi: int) -> int {
    if value < lo {
        lo
    } else if value > hi {
        hi
    } else {
        value
    }
}

/// `value` held within `[lo, hi]`.
pub fn clamp(value: u64, lo: u64, hi: u64) -> (r: u64)
    requires
        lo <= hi,
    ensures
        r == clamp_of(value as int, lo as int, hi as int),
{
    if value < lo {
        lo
    } else if value > hi {
        hi
    } else {
        value
    }
}

} // verus!
