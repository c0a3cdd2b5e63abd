//! Exact unsigned decimal arithmetic for fee enforcement.
//!
//! Fee comparisons gate real-money rejection decisions, so they must be
//! carried out exactly, with no binary-float rounding.  A [`UDecimal`] is the
//! pair `mantissa / 10^scale`; every operation states its result as an exact
//! integer equation over a common fixed-point view ([`UDecimal::scaled`]).

use vstd::prelude::*;
use vstd::arithmetic::power::{pow, lemma_pow_adds, lemma_pow_positive, lemma_pow_increases};
use vstd::arithmetic::mul::{
    lemma_mul_inequality, lemma_mul_inequality_converse, lemma_mul_is_associative,
    lemma_mul_is_commutative, lemma_mul_is_distributive_add_other_way,
    lemma_mul_strict_inequality,
};

verus! {

/// Largest number of fractional digits a well-formed decimal may carry.
pub const MAX_SCALE: u32 = 34;

/// An exact non-negative decimal number, `mantissa / 10^scale`.
#[derive(Debug, Clone, Copy)]
pub struct UDecimal {
    pub mantissa: u128,
    pub scale: u32,
}

/// The integer `10^e`.
pub open spec fn pow10(e: nat) -> int {
    pow(10, e)
}

/// `10^e` is positive.
pub proof fn lemma_pow10_pos(e: nat)
    ensures
        pow10(e) > 0,
{
    lemma_pow_positive(10, e);
}

/// `10^(a + b) == 10^a * 10^b`.
pub proof fn lemma_pow10_adds(a: nat, b: nat)
    ensures
        pow10(a + b) == pow10(a) * pow10(b),
{
    lemma_pow_adds(10, a, b);
}

/// The value of `10^38`, the largest power of ten below `u128::MAX`.
proof fn lemma_pow10_38()
    ensures
        pow10(38) == 0x4b3b4ca85a86c47a098a224000000000,
{
    reveal_with_fuel(pow, 39);
}

impl UDecimal {
    /// Well-formedness: the scale stays small enough that alignment to a
    /// common denominator cannot leave `u128` territory by more than one
    /// multiplication.
    pub open spec fn wf(self) -> bool {
        self.scale <= MAX_SCALE
    }

    /// The value of this decimal as an integer multiple of `10^-MAX_SCALE`:
    /// a common fixed-point view under which all comparisons are exact.
    pub open spec fn scaled(self) -> int {
        self.mantissa * pow10((MAX_SCALE - self.scale) as nat)
    }

    /// The decimal denoting the integer `x`.
    pub fn from_int(x: u128) -> (r: UDecimal)
        ensures
            r.wf(),
            r.scaled() == x * pow10(MAX_SCALE as nat),
            r.mantissa == x,
            r.scale == 0,
    {
        UDecimal { mantissa: x, scale: 0 }
    }
}

/// The fixed-point view of one cent (`0.01`), the unit of the fee-scaling
/// policy.
pub open spec fn cent_scaled() -> int {
    pow10((MAX_SCALE - 2) as nat)
}

/// The larger of two integers.
pub open spec fn max_i(a: int, b: int) -> int {
    if a >= b {
        a
    } else {
        b
    }
}

/// Computes `10^e` exactly.
pub fn pow10_u128(e: u32) -> (r: u128)
    requires
        e <= 38,
    ensures
        r == pow10(e as nat),
{
    let mut r: u128 = 1;
    let mut i: u32 = 0;
    proof {
        reveal_with_fuel(pow, 1);
    }
    while i < e
        invariant
            i <= e <= 38,
            r == pow10(i as nat),
        decreases e - i,
    {
        proof {
            lemma_pow10_38();
            lemma_pow_increases(10, (i + 1) as nat, 38);
            lemma_pow10_pos(i as nat);
            assert(pow10((i + 1) as nat) == 10 * pow10(i as nat)) by {
                lemma_pow10_adds(1nat, i as nat);
                reveal_with_fuel(pow, 2);
            }
        }
        r = r * 10;
        i = i + 1;
    }
    r
}

/// Aligning a mantissa to a larger scale preserves the fixed-point view:
/// `(m * 10^(s - t)) * 10^(M - s) == m * 10^(M - t)` for `t <= s <= M`.
proof fn lemma_align(m: int, t: nat, s: nat)
    requires
        t <= s <= MAX_SCALE as nat,
    ensures
        (m * pow10((s - t) as nat)) * pow10((MAX_SCALE - s) as nat) == m * pow10(
            (MAX_SCALE - t) as nat,
        ),
{
    lemma_pow10_adds((s - t) as nat, (MAX_SCALE - s) as nat);
    lemma_mul_is_associative(m, pow10((s - t) as nat), pow10((MAX_SCALE - s) as nat));
}

/// `x <= y` exactly when `x * p <= y * p`, for positive `p`.
pub proof fn lemma_mul_le_iff(x: int, y: int, p: int)
    requires
        p > 0,
    ensures
        (x <= y) == (x * p <= y * p),
{
    if x <= y {
        lemma_mul_inequality(x, y, p);
    }
    if x * p <= y * p {
        lemma_mul_inequality_converse(x, y, p);
    }
}

/// Exact comparison: `a <= b` as decimal values.
pub fn dec_le(a: &UDecimal, b: &UDecimal) -> (r: bool)
    requires
        a.wf(),
        b.wf(),
    ensures
        r == (a.scaled() <= b.scaled()),
{
    if a.scale >= b.scale {
        let p = pow10_u128(a.scale - b.scale);
        proof {
            lemma_align(b.mantissa as int, b.scale as nat, a.scale as nat);
            lemma_pow10_pos((MAX_SCALE - a.scale) as nat);
            lemma_pow10_pos((a.scale - b.scale) as nat);
        }
        match b.mantissa.checked_mul(p) {
            Some(lb) => {
                proof {
                    lemma_mul_le_iff(
                        a.mantissa as int,
                        lb as int,
                        pow10((MAX_SCALE - a.scale) as nat),
                    );
                }
                a.mantissa <= lb
            },
            None => {
                // b's aligned mantissa exceeds u128::MAX >= a.mantissa, so a < b.
                proof {
                    lemma_mul_strict_inequality(
                        a.mantissa as int,
                        b.mantissa * pow10((a.scale - b.scale) as nat),
                        pow10((MAX_SCALE - a.scale) as nat),
                    );
                }
                true
            },
        }
    } else {
        let p = pow10_u128(b.scale - a.scale);
        proof {
            lemma_align(a.mantissa as int, a.scale as nat, b.scale as nat);
            lemma_pow10_pos((MAX_SCALE - b.scale) as nat);
            lemma_pow10_pos((b.scale - a.scale) as nat);
        }
        match a.mantissa.checked_mul(p) {
            Some(la) => {
                proof {
                    lemma_mul_le_iff(
                        la as int,
                        b.mantissa as int,
                        pow10((MAX_SCALE - b.scale) as nat),
                    );
                }
                la <= b.mantissa
            },
            None => {
                // a's aligned mantissa exceeds u128::MAX >= b.mantissa, so b < a.
                proof {
                    lemma_mul_strict_inequality(
                        b.mantissa as int,
                        a.mantissa * pow10((b.scale - a.scale) as nat),
                        pow10((MAX_SCALE - b.scale) as nat),
                    );
                }
                false
            },
        }
    }
}

/// Exact comparison: `a < b` as decimal values.
pub fn dec_lt(a: &UDecimal, b: &UDecimal) -> (r: bool)
    requires
        a.wf(),
        b.wf(),
    ensures
        r == (a.scaled() < b.scaled()),
{
    !dec_le(b, a)
}

/// Exact equality of decimal values (`1.0` equals `1.00`).
pub fn dec_eq(a: &UDecimal, b: &UDecimal) -> (r: bool)
    requires
        a.wf(),
        b.wf(),
    ensures
        r == (a.scaled() == b.scaled()),
{
    dec_le(a, b) && dec_le(b, a)
}

/// Scales the fee provided by the user up before comparing it with the
/// required fee, to account for price drift between signing time and
/// submission time.
///
/// Below one cent the fee is doubled; from one cent on, the larger of a 5%
/// increase and a one-cent increase is taken.  All arithmetic is exact; the
/// contract states the result over the fixed-point view, with the 5% branch
/// multiplied through by 100 so that no division appears.
pub fn scale_user_fee_up(provided_total_usd_fee: UDecimal) -> (r: UDecimal)
    requires
        provided_total_usd_fee.wf(),
        provided_total_usd_fee.scale + 2 <= MAX_SCALE,
        provided_total_usd_fee.mantissa <= u128::MAX / 105,
    ensures
        r.wf(),
        provided_total_usd_fee.scaled() < cent_scaled() ==> r.scaled() == 2
            * provided_total_usd_fee.scaled(),
        provided_total_usd_fee.scaled() >= cent_scaled() ==> 100 * r.scaled() == max_i(
            105 * provided_total_usd_fee.scaled(),
            100 * provided_total_usd_fee.scaled() + 100 * cent_scaled(),
        ),
{
    let d = provided_total_usd_fee;
    let one_cent = UDecimal { mantissa: 1, scale: 2 };
    assert(one_cent.scaled() == cent_scaled()) by {
        lemma_pow10_pos((MAX_SCALE - 2) as nat);
    }
    if dec_lt(&d, &one_cent) {
        // This formula is needed when the fee is really small: doubling is
        // always at least the 5% scaling, and it substitutes for the one-cent
        // scaling where adding a cent would more than double the fee.
        let r = UDecimal { mantissa: d.mantissa * 2, scale: d.scale };
        proof {
            lemma_mul_is_associative(2, d.mantissa as int, pow10((MAX_SCALE - d.scale) as nat));
        }
        r
    } else {
        // Scale by 5%: multiply the mantissa by 105 and the denominator by 100.
        let a = UDecimal { mantissa: d.mantissa * 105, scale: d.scale + 2 };
        assert(100 * a.scaled() == 105 * d.scaled()) by {
            lemma_align((105 * d.mantissa) as int, d.scale as nat, (d.scale + 2) as nat);
            lemma_pow10_adds(2nat, 0nat);
            reveal_with_fuel(pow, 3);
            lemma_mul_is_associative(105, d.mantissa as int, pow10((MAX_SCALE - d.scale) as nat));
            lemma_mul_is_associative(
                100,
                (105 * d.mantissa) as int,
                pow10((MAX_SCALE - d.scale - 2) as nat),
            );
            lemma_mul_is_commutative(100, (105 * d.mantissa) as int);
            lemma_mul_is_associative(
                (105 * d.mantissa) as int,
                100,
                pow10((MAX_SCALE - d.scale - 2) as nat),
            );
            assert(100 * pow10((MAX_SCALE - d.scale - 2) as nat) == pow10(
                (MAX_SCALE - d.scale) as nat,
            )) by {
                lemma_pow10_adds(2nat, (MAX_SCALE - d.scale - 2) as nat);
                reveal_with_fuel(pow, 3);
            }
        }
        // Scale by 1 cent: add 0.01 at a common scale.
        let b = add_one_cent(d);
        // Choose the maximum of the two scalings.
        if dec_le(&a, &b) {
            proof {
                lemma_mul_le_iff(a.scaled(), b.scaled(), 100);
            }
            b
        } else {
            proof {
                lemma_mul_le_iff(b.scaled(), a.scaled(), 100);
            }
            a
        }
    }
}

/// Adds one cent (`0.01`) to a decimal, exactly.
fn add_one_cent(d: UDecimal) -> (r: UDecimal)
    requires
        d.wf(),
        d.mantissa <= u128::MAX / 105,
    ensures
        r.wf(),
        r.scaled() == d.scaled() + cent_scaled(),
{
    proof {
        lemma_pow10_38();
    }
    if d.scale >= 2 {
        let c = pow10_u128(d.scale - 2);
        proof {
            lemma_pow_increases(10, (d.scale - 2) as nat, 38);
            lemma_pow10_adds((d.scale - 2) as nat, (MAX_SCALE - d.scale) as nat);
            lemma_mul_is_distributive_add_other_way(
                pow10((MAX_SCALE - d.scale) as nat),
                d.mantissa as int,
                c as int,
            );
        }
        UDecimal { mantissa: d.mantissa + c, scale: d.scale }
    } else {
        let p = pow10_u128(2 - d.scale);
        proof {
            lemma_pow_increases(10, (2 - d.scale) as nat, 2);
            reveal_with_fuel(pow, 3);
            vstd::arithmetic::mul::lemma_mul_upper_bound(
                d.mantissa as int,
                (u128::MAX / 105) as int,
                p as int,
                100,
            );
            lemma_align(d.mantissa as int, d.scale as nat, 2nat);
            lemma_mul_is_distributive_add_other_way(
                pow10((MAX_SCALE - 2) as nat),
                (d.mantissa * p) as int,
                1,
            );
        }
        UDecimal { mantissa: d.mantissa * p + 1, scale: 2 }
    }
}

} // verus!
