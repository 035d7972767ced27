//! Exact arithmetic in basis points.
//!
//! A basis point is one ten-thousandth. Amounts are 128-bit and rates are
//! 32-bit, so their products do not fit in any machine integer; the
//! functions here work on a two-limb product and never round or overflow.

use vstd::prelude::*;

verus! {

/// The number of basis points in one whole.
pub const BPS_DENOMINATOR: u64 = 10_000;

/// `amount * bps / 10000`, rounded down: the share of `amount` that `bps`
/// basis points stand for.
pub open spec fn share(amount: int, bps: int) -> int {
    amount * bps / 10_000
}

/// Whether `part` is at least `bps` basis points of `whole`.
pub open spec fn reaches(part: int, whole: int, bps: int) -> bool {
    part * 10_000 >= whole * bps
}

/// The value of a two-limb number.
pub open spec fn wide(hi: u64, lo: u128) -> int {
    hi * 0x1_0000_0000_0000_0000_0000_0000_0000_0000 + lo
}

proof fn lemma_split_product(a_hi: int, a_lo: int, b: int)
    by (nonlinear_arith)
    requires
        0 <= a_hi < 0x1_0000_0000_0000_0000,
        0 <= a_lo < 0x1_0000_0000_0000_0000,
        0 <= b < 0x1_0000_0000_0000_0000,
    ensures
        (a_hi * 0x1_0000_0000_0000_0000 + a_lo) * b == (a_hi * b) * 0x1_0000_0000_0000_0000 + a_lo
            * b,
        0 <= a_hi * b <= 0xffff_ffff_ffff_ffff * 0xffff_ffff_ffff_ffff,
        0 <= a_lo * b <= 0xffff_ffff_ffff_ffff * 0xffff_ffff_ffff_ffff,
{
}

/// The full product of a 128-bit and a 64-bit number.
pub fn mul_wide(a: u128, b: u64) -> (r: (u64, u128))
    ensures
        wide(r.0, r.1) == a * b,
{
    let a_hi: u128 = a / 0x1_0000_0000_0000_0000;
    let a_lo: u128 = a % 0x1_0000_0000_0000_0000;
    proof {
        lemma_split_product(a_hi as int, a_lo as int, b as int);
    }
    let p_hi: u128 = a_hi * (b as u128);
    let p_lo: u128 = a_lo * (b as u128);
    let mid: u128 = p_hi + p_lo / 0x1_0000_0000_0000_0000;
    let lo: u128 = (mid % 0x1_0000_0000_0000_0000) * 0x1_0000_0000_0000_0000 + p_lo
        % 0x1_0000_0000_0000_0000;
    let hi: u64 = (mid / 0x1_0000_0000_0000_0000) as u64;
    (hi, lo)
}

/// Whether `part * 10000 >= whole * bps`, decided without overflow.
pub fn reaches_bps(part: u128, whole: u128, bps: u32) -> (r: bool)
    ensures
        r == reaches(part as int, whole as int, bps as int),
{
    let (left_hi, left_lo) = mul_wide(part, BPS_DENOMINATOR);
    let (right_hi, right_lo) = mul_wide(whole, bps as u64);
    left_hi > right_hi || (left_hi == right_hi && left_lo >= right_lo)
}

proof fn lemma_share_parts(q: int, r: int, bps: int)
    by (nonlinear_arith)
    requires
        0 <= q,
        0 <= r < 10_000,
        0 <= bps,
    ensures
        (q * 10_000 + r) * bps == (q * bps) * 10_000 + r * bps,
        0 <= q * bps,
        0 <= r * bps <= 9_999 * bps,
{
}

/// The share of `amount` that `bps` basis points stand for, or `None` when
/// that share is larger than any 128-bit signed amount.
pub fn share_of(amount: u128, bps: u32) -> (r: Option<u128>)
    ensures
        r is Some <==> share(amount as int, bps as int) <= i128::MAX,
        r matches Some(s) ==> s == share(amount as int, bps as int),
{
    let q: u128 = amount / 10_000;
    let rem: u128 = amount % 10_000;
    proof {
        lemma_share_parts(q as int, rem as int, bps as int);
    }
    let tail: u128 = rem * (bps as u128) / 10_000;
    match q.checked_mul(bps as u128) {
        None => None,
        Some(head) => match head.checked_add(tail) {
            None => None,
            Some(s) => if s <= 0x7fff_ffff_ffff_ffff_ffff_ffff_ffff_ffff {
                Some(s)
            } else {
                None
            },
        },
    }
}

} // verus!
