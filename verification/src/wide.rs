//! Exact multiply-then-divide on 128-bit operands.
//!
//! The product of two `u128` values needs up to 256 bits. It is held here as
//! four 64-bit limbs, least significant first, and divided limb by limb, so
//! that no intermediate value is ever truncated.

use vstd::prelude::*;
use vstd::arithmetic::div_mod::lemma_fundamental_div_mod_converse;
use vstd::arithmetic::div_mod::lemma_multiply_divide_lt;
use vstd::arithmetic::div_mod::lemma_fundamental_div_mod;

verus! {

/// The radix of a limb, `2^64`.
pub const LIMB_RADIX: u128 = 0x1_0000_0000_0000_0000;

/// The number that four limbs stand for, least significant limb first.
pub open spec fn limbs_value(w0: u64, w1: u64, w2: u64, w3: u64) -> int {
    w0 + w1 * 0x1_0000_0000_0000_0000 + w2 * 0x1_0000_0000_0000_0000_0000_0000_0000_0000
        + w3 * 0x1_0000_0000_0000_0000_0000_0000_0000_0000_0000_0000_0000_0000
}

/// The quotient `a * b / d` over the integers: the product is exact and the
/// division truncates.
pub open spec fn mul_div_spec(a: int, b: int, d: int) -> int
    recommends
        d > 0,
{
    (a * b) / d
}

proof fn lemma_limb_product_fits(x: u64, y: u64)
    ensures
        0 <= x * y <= 0xFFFF_FFFF_FFFF_FFFE_0000_0000_0000_0001,
{
    assert(0 <= x * y <= 0xFFFF_FFFF_FFFF_FFFF * 0xFFFF_FFFF_FFFF_FFFF) by (nonlinear_arith)
        requires
            0 <= x <= 0xFFFF_FFFF_FFFF_FFFF,
            0 <= y <= 0xFFFF_FFFF_FFFF_FFFF,
    ;
}

proof fn lemma_split_product(a: int, b: int, a0: int, a1: int, b0: int, b1: int, r: int)
    requires
        a == a1 * r + a0,
        b == b1 * r + b0,
    ensures
        a * b == a0 * b0 + (a0 * b1 + a1 * b0) * r + (a1 * b1) * (r * r),
{
    let x = a1 * r;
    let y = b1 * r;
    assert((x + a0) * (y + b0) == x * y + x * b0 + a0 * y + a0 * b0) by (nonlinear_arith);
    assert(x * y == (a1 * b1) * (r * r)) by (nonlinear_arith)
        requires
            x == a1 * r,
            y == b1 * r,
    ;
    assert(x * b0 == (a1 * b0) * r) by (nonlinear_arith)
        requires
            x == a1 * r,
    ;
    assert(a0 * y == (a0 * b1) * r) by (nonlinear_arith)
        requires
            y == b1 * r,
    ;
    assert((a0 * b1 + a1 * b0) * r == (a0 * b1) * r + (a1 * b0) * r) by (nonlinear_arith);
}

proof fn lemma_product_below_radix4(a: u128, b: u128)
    ensures
        0 <= a * b
            < 0x1_0000_0000_0000_0000_0000_0000_0000_0000_0000_0000_0000_0000_0000_0000_0000_0000,
{
    assert(0 <= a * b <= 0xFFFF_FFFF_FFFF_FFFF_FFFF_FFFF_FFFF_FFFF
        * 0xFFFF_FFFF_FFFF_FFFF_FFFF_FFFF_FFFF_FFFF) by (nonlinear_arith)
        requires
            0 <= a <= 0xFFFF_FFFF_FFFF_FFFF_FFFF_FFFF_FFFF_FFFF,
            0 <= b <= 0xFFFF_FFFF_FFFF_FFFF_FFFF_FFFF_FFFF_FFFF,
    ;
}

/// Multiplying `x == h * r + l` through by `s`.
proof fn lemma_scale_split(x: int, h: int, l: int, r: int, s: int)
    requires
        x == h * r + l,
    ensures
        x * s == h * (r * s) + l * s,
{
    assert(x * s == h * (r * s) + l * s) by (nonlinear_arith)
        requires
            x == h * r + l,
    ;
}

/// Carrying the four partial products into limbs keeps the number they
/// stand for.
proof fn lemma_recombine(
    p00: int,
    p01: int,
    p10: int,
    p11: int,
    c1: int,
    c2: int,
    c3: int,
    w0: int,
    w1: int,
    w2: int,
)
    requires
        0 <= p00,
        0 <= p01,
        0 <= p10,
        0 <= p11,
        w0 == p00 % 0x1_0000_0000_0000_0000,
        c1 == p00 / 0x1_0000_0000_0000_0000 + p01 % 0x1_0000_0000_0000_0000 + p10
            % 0x1_0000_0000_0000_0000,
        w1 == c1 % 0x1_0000_0000_0000_0000,
        c2 == c1 / 0x1_0000_0000_0000_0000 + p01 / 0x1_0000_0000_0000_0000 + p10
            / 0x1_0000_0000_0000_0000 + p11 % 0x1_0000_0000_0000_0000,
        w2 == c2 % 0x1_0000_0000_0000_0000,
        c3 == c2 / 0x1_0000_0000_0000_0000 + p11 / 0x1_0000_0000_0000_0000,
        p00 + (p01 + p10) * 0x1_0000_0000_0000_0000 + p11 * (0x1_0000_0000_0000_0000
            * 0x1_0000_0000_0000_0000)
            < 0x1_0000_0000_0000_0000_0000_0000_0000_0000_0000_0000_0000_0000_0000_0000_0000_0000,
    ensures
        p00 + (p01 + p10) * 0x1_0000_0000_0000_0000 + p11 * (0x1_0000_0000_0000_0000
            * 0x1_0000_0000_0000_0000) == w0 + w1 * 0x1_0000_0000_0000_0000 + w2
            * 0x1_0000_0000_0000_0000_0000_0000_0000_0000 + c3
            * 0x1_0000_0000_0000_0000_0000_0000_0000_0000_0000_0000_0000_0000,
        0 <= c3 < 0x1_0000_0000_0000_0000,
{
    let r: int = 0x1_0000_0000_0000_0000;
    let h00 = p00 / r;
    let h01 = p01 / r;
    let l01 = p01 % r;
    let h10 = p10 / r;
    let l10 = p10 % r;
    let h11 = p11 / r;
    let l11 = p11 % r;
    let k1 = c1 / r;
    let k2 = c2 / r;
    assert(p00 == h00 * r + w0);
    assert(p01 == h01 * r + l01);
    assert(p10 == h10 * r + l10);
    assert(p11 == h11 * r + l11);
    assert(c1 == k1 * r + w1);
    assert(c2 == k2 * r + w2);
    let r2: int = 0x1_0000_0000_0000_0000_0000_0000_0000_0000int;
    let r3: int = 0x1_0000_0000_0000_0000_0000_0000_0000_0000_0000_0000_0000_0000int;
    lemma_scale_split(c1, k1, w1, r, r);
    lemma_scale_split(p01, h01, l01, r, r);
    lemma_scale_split(p10, h10, l10, r, r);
    lemma_scale_split(c2, k2, w2, r, r2);
    lemma_scale_split(p11, h11, l11, r, r2);
    assert(r * r == r2);
    assert(r * r2 == r3);
    let low = w0 + w1 * r;
    assert(p00 + (l01 + l10) * r == low + k1 * r2);
    let mid = low + w2 * r2;
    assert(p00 + (p01 + p10) * r + l11 * r2 == mid + k2 * r3);
    assert(p00 + (p01 + p10) * r + p11 * r2 == mid + c3 * r3);
    assert(0 <= w0 && 0 <= w1 && 0 <= w2 && 0 <= c3);
}

/// The exact product of two limbs.
fn limb_product(x: u64, y: u64) -> (p: u128)
    ensures
        p == x * y,
{
    proof {
        lemma_limb_product_fits(x, y);
    }
    (x as u128) * (y as u128)
}

/// The exact 256-bit product of `a` and `b`, as four limbs.
pub fn mul_wide(a: u128, b: u128) -> (w: (u64, u64, u64, u64))
    ensures
        limbs_value(w.0, w.1, w.2, w.3) == a * b,
{
    let a0: u64 = (a % LIMB_RADIX) as u64;
    let a1: u64 = (a / LIMB_RADIX) as u64;
    let b0: u64 = (b % LIMB_RADIX) as u64;
    let b1: u64 = (b / LIMB_RADIX) as u64;
    let p00: u128 = limb_product(a0, b0);
    let p01: u128 = limb_product(a0, b1);
    let p10: u128 = limb_product(a1, b0);
    let p11: u128 = limb_product(a1, b1);
    proof {
        lemma_limb_product_fits(a0, b0);
        lemma_limb_product_fits(a0, b1);
        lemma_limb_product_fits(a1, b0);
        lemma_limb_product_fits(a1, b1);
        lemma_split_product(
            a as int,
            b as int,
            a0 as int,
            a1 as int,
            b0 as int,
            b1 as int,
            0x1_0000_0000_0000_0000,
        );
        lemma_product_below_radix4(a, b);
        assert(a * b == p00 + (p01 + p10) * 0x1_0000_0000_0000_0000 + p11 * (0x1_0000_0000_0000_0000
            * 0x1_0000_0000_0000_0000));
    }
    let w0: u64 = (p00 % LIMB_RADIX) as u64;
    let c1: u128 = p00 / LIMB_RADIX + p01 % LIMB_RADIX + p10 % LIMB_RADIX;
    let w1: u64 = (c1 % LIMB_RADIX) as u64;
    let c2: u128 = c1 / LIMB_RADIX + p01 / LIMB_RADIX + p10 / LIMB_RADIX + p11 % LIMB_RADIX;
    let w2: u64 = (c2 % LIMB_RADIX) as u64;
    let c3: u128 = c2 / LIMB_RADIX + p11 / LIMB_RADIX;
    proof {
        lemma_recombine(
            p00 as int,
            p01 as int,
            p10 as int,
            p11 as int,
            c1 as int,
            c2 as int,
            c3 as int,
            w0 as int,
            w1 as int,
            w2 as int,
        );
    }
    let w3: u64 = c3 as u64;
    (w0, w1, w2, w3)
}

/// One step of long division: divides the two-limb number `rem * 2^64 + limb`
/// by `d`, where `rem` is the remainder that the step before left over.
fn div_step(rem: u64, limb: u64, d: u64) -> (qr: (u64, u64))
    requires
        rem < d,
    ensures
        rem * 0x1_0000_0000_0000_0000 + limb == qr.0 * d + qr.1,
        qr.1 < d,
{
    let cur: u128 = (rem as u128) * LIMB_RADIX + (limb as u128);
    let q: u128 = cur / (d as u128);
    let r: u128 = cur % (d as u128);
    proof {
        lemma_fundamental_div_mod(cur as int, d as int);
        assert(cur < 0x1_0000_0000_0000_0000 * d);
        lemma_multiply_divide_lt(cur as int, d as int, 0x1_0000_0000_0000_0000);
        assert(d * q == q * d) by (nonlinear_arith);
    }
    (q as u64, r as u64)
}

proof fn lemma_long_division(
    n: int,
    d: int,
    w0: int,
    w1: int,
    w2: int,
    w3: int,
    q0: int,
    q1: int,
    q2: int,
    q3: int,
    r0: int,
    r1: int,
    r2: int,
    r3: int,
)
    requires
        d > 0,
        n == w0 + w1 * 0x1_0000_0000_0000_0000 + w2 * 0x1_0000_0000_0000_0000_0000_0000_0000_0000
            + w3 * 0x1_0000_0000_0000_0000_0000_0000_0000_0000_0000_0000_0000_0000,
        w3 == q3 * d + r3,
        r3 * 0x1_0000_0000_0000_0000 + w2 == q2 * d + r2,
        r2 * 0x1_0000_0000_0000_0000 + w1 == q1 * d + r1,
        r1 * 0x1_0000_0000_0000_0000 + w0 == q0 * d + r0,
        0 <= r0 < d,
    ensures
        n / d == q0 + q1 * 0x1_0000_0000_0000_0000 + q2
            * 0x1_0000_0000_0000_0000_0000_0000_0000_0000 + q3
            * 0x1_0000_0000_0000_0000_0000_0000_0000_0000_0000_0000_0000_0000,
{
    let q = q0 + q1 * 0x1_0000_0000_0000_0000 + q2 * 0x1_0000_0000_0000_0000_0000_0000_0000_0000
        + q3 * 0x1_0000_0000_0000_0000_0000_0000_0000_0000_0000_0000_0000_0000;
    let t0 = q0 * d;
    let t1 = q1 * d;
    let t2 = q2 * d;
    let t3 = q3 * d;
    assert(n == t0 + t1 * 0x1_0000_0000_0000_0000 + t2
        * 0x1_0000_0000_0000_0000_0000_0000_0000_0000 + t3
        * 0x1_0000_0000_0000_0000_0000_0000_0000_0000_0000_0000_0000_0000 + r0);
    assert(q * d == t0 + t1 * 0x1_0000_0000_0000_0000 + t2
        * 0x1_0000_0000_0000_0000_0000_0000_0000_0000 + t3
        * 0x1_0000_0000_0000_0000_0000_0000_0000_0000_0000_0000_0000_0000) by (nonlinear_arith)
        requires
            q == q0 + q1 * 0x1_0000_0000_0000_0000 + q2
                * 0x1_0000_0000_0000_0000_0000_0000_0000_0000 + q3
                * 0x1_0000_0000_0000_0000_0000_0000_0000_0000_0000_0000_0000_0000,
            t0 == q0 * d,
            t1 == q1 * d,
            t2 == q2 * d,
            t3 == q3 * d,
    ;
    lemma_fundamental_div_mod_converse(n, d, q, r0);
}

/// Computes `a * b / d` without losing any bit of the product.
///
/// Returns the truncated quotient where it fits in 128 bits, and `None` where
/// it does not.
pub fn mul_div(a: u128, b: u128, d: u64) -> (r: Option<u128>)
    requires
        d > 0,
    ensures
        match r {
            Some(q) => q == mul_div_spec(a as int, b as int, d as int),
            None => mul_div_spec(a as int, b as int, d as int) > u128::MAX,
        },
{
    let (w0, w1, w2, w3) = mul_wide(a, b);
    let (q3, r3) = div_step(0, w3, d);
    let (q2, r2) = div_step(r3, w2, d);
    let (q1, r1) = div_step(r2, w1, d);
    let (q0, r0) = div_step(r1, w0, d);
    proof {
        lemma_long_division(
            a * b,
            d as int,
            w0 as int,
            w1 as int,
            w2 as int,
            w3 as int,
            q0 as int,
            q1 as int,
            q2 as int,
            q3 as int,
            r0 as int,
            r1 as int,
            r2 as int,
            r3 as int,
        );
    }
    if q3 == 0 && q2 == 0 {
        Some((q1 as u128) * LIMB_RADIX + (q0 as u128))
    } else {
        None
    }
}

} // verus!
