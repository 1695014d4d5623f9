//! Saturating balance arithmetic and the deposit formula.
//!
//! Every deposit in the system is `n_units * unit_size * price_per_unit`,
//! computed with saturating multiplication exactly as the host ledger's
//! balance type would.

use vstd::prelude::*;
use vstd::arithmetic::div_mod::{lemma_fundamental_div_mod, lemma_mod_bound};
use vstd::arithmetic::mul::lemma_mul_inequality;

verus! {

/// Size in bytes of one stored account identifier; the unit of the
/// per-member part of the deposit formula.
pub const BYTES_PER_ACCOUNT: u128 = 16;

/// `a * b`, capped at `u128::MAX`.
pub open spec fn spec_sat_mul(a: u128, b: u128) -> u128 {
    if a * b > u128::MAX { u128::MAX } else { (a * b) as u128 }
}

/// The larger of `a` and `b`.
pub open spec fn spec_max(a: u128, b: u128) -> u128 {
    if a >= b { a } else { b }
}

/// Deposit charged for storing `n` member identifiers at price `ppb` per byte.
pub open spec fn spec_members_price(n: u128, ppb: u128) -> u128 {
    spec_sat_mul(spec_sat_mul(BYTES_PER_ACCOUNT, n), ppb)
}

/// Deposit charged for storing a call payload of `len` bytes at price `ppb`
/// per byte.
pub open spec fn spec_bytes_price(len: u128, ppb: u128) -> u128 {
    spec_sat_mul(len, ppb)
}

/// Saturating multiplication on balances.
pub fn sat_mul(a: u128, b: u128) -> (r: u128)
    ensures
        r == spec_sat_mul(a, b),
{
    if a == 0 {
        0
    } else {
        let q: u128 = u128::MAX / a;
        proof {
            lemma_fundamental_div_mod(u128::MAX as int, a as int);
            lemma_mod_bound(u128::MAX as int, a as int);
            assert(a * q + u128::MAX as int % a as int == u128::MAX);
        }
        if b <= q {
            proof {
                lemma_mul_inequality(b as int, q as int, a as int);
                assert(b * a <= q * a);
                assert(a * b <= a * q) by {
                    vstd::arithmetic::mul::lemma_mul_is_commutative(a as int, b as int);
                    vstd::arithmetic::mul::lemma_mul_is_commutative(a as int, q as int);
                }
            }
            a * b
        } else {
            proof {
                lemma_mul_inequality(q as int + 1, b as int, a as int);
                assert((q + 1) * a <= b * a);
                assert((q + 1) * a == q * a + a) by {
                    vstd::arithmetic::mul::lemma_mul_is_distributive_add_other_way(
                        a as int,
                        q as int,
                        1,
                    );
                }
                assert(a * b > u128::MAX) by {
                    vstd::arithmetic::mul::lemma_mul_is_commutative(a as int, b as int);
                    vstd::arithmetic::mul::lemma_mul_is_commutative(a as int, q as int);
                }
            }
            u128::MAX
        }
    }
}

/// The larger of `a` and `b`.
pub fn max_balance(a: u128, b: u128) -> (r: u128)
    ensures
        r == spec_max(a, b),
{
    if a >= b {
        a
    } else {
        b
    }
}

/// Deposit charged for storing `n` member identifiers.
pub fn members_price(n: u128, ppb: u128) -> (r: u128)
    ensures
        r == spec_members_price(n, ppb),
{
    let unit = sat_mul(BYTES_PER_ACCOUNT, n);
    sat_mul(unit, ppb)
}

/// Deposit charged for storing a payload of `len` bytes.
pub fn bytes_price(len: u128, ppb: u128) -> (r: u128)
    ensures
        r == spec_bytes_price(len, ppb),
{
    sat_mul(len, ppb)
}

} // verus!
