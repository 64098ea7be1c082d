use vstd::prelude::*;

use num_integer::Roots;

use vstd::arithmetic::div_mod::{lemma_div_is_ordered, lemma_div_pos_is_pos};
use vstd::arithmetic::mul::lemma_mul_nonnegative;

use crate::state::Config;

verus! {

/// The greatest `r` with `r * r <= n`: the truncated (floor) square root.
pub open spec fn spec_isqrt(n: nat) -> nat
    decreases n,
{
    if n == 0 {
        0
    } else {
        let r = spec_isqrt((n - 1) as nat);
        if (r + 1) * (r + 1) <= n {
            (r + 1) as nat
        } else {
            r
        }
    }
}

/// `spec_isqrt` is exactly the truncated square root: it is the unique `r`
/// with `r * r <= n < (r + 1) * (r + 1)`.
pub proof fn lemma_isqrt_bounds(n: nat)
    ensures
        spec_isqrt(n) * spec_isqrt(n) <= n,
        n < (spec_isqrt(n) + 1) * (spec_isqrt(n) + 1),
    decreases n,
{
    if n == 0 {
        assert(n < (spec_isqrt(n) + 1) * (spec_isqrt(n) + 1)) by (nonlinear_arith)
            requires
                n == 0,
                spec_isqrt(n) == 0,
        ;
    } else {
        lemma_isqrt_bounds((n - 1) as nat);
        let r = spec_isqrt((n - 1) as nat);
        if (r + 1) * (r + 1) <= n {
            assert(spec_isqrt(n) == r + 1);
            assert((r + 1) * (r + 1) < (r + 2) * (r + 2)) by (nonlinear_arith)
                requires
                    r >= 0,
            ;
        } else {
            assert(spec_isqrt(n) == r);
        }
    }
}

/// A positive number's truncated square root is at least 1.
pub proof fn lemma_isqrt_pos(n: nat)
    requires
        n >= 1,
    ensures
        spec_isqrt(n) >= 1,
{
    lemma_isqrt_bounds(n);
    if spec_isqrt(n) == 0 {
        assert(n < 1) by (nonlinear_arith)
            requires
                spec_isqrt(n) == 0,
                n < (spec_isqrt(n) + 1) * (spec_isqrt(n) + 1),
        ;
    }
}

/// Any `r` within the floor-square-root bounds of `n` is `spec_isqrt(n)`.
pub proof fn lemma_isqrt_unique(n: nat, r: nat)
    requires
        r * r <= n,
        n < (r + 1) * (r + 1),
    ensures
        r == spec_isqrt(n),
{
    lemma_isqrt_bounds(n);
    let s = spec_isqrt(n);
    if r < s {
        assert((r + 1) * (r + 1) <= s * s) by (nonlinear_arith)
            requires
                0 <= r,
                r + 1 <= s,
        ;
        assert(false);
    }
    if s < r {
        assert((s + 1) * (s + 1) <= r * r) by (nonlinear_arith)
            requires
                0 <= s,
                s + 1 <= r,
        ;
        assert(false);
    }
}

/// Relies on `num_integer::Roots::sqrt`, which for an unsigned integer
/// returns the truncated principal square root of its argument.
#[verifier::external_body]
fn isqrt_u128(n: u128) -> (r: u128)
    ensures
        r * r <= n < (r + 1) * (r + 1),
{
    n.sqrt()
}

/// A number whose square fits in `u128` is below 2^64.
proof fn lemma_root_small(n: u128, r: u128)
    requires
        r * r <= n,
    ensures
        r <= 0xffff_ffff_ffff_ffff,
{
    if r > 0xffff_ffff_ffff_ffff {
        assert(r * r >= 0x1_0000_0000_0000_0000 * 0x1_0000_0000_0000_0000) by (nonlinear_arith)
            requires
                r >= 0x1_0000_0000_0000_0000,
        ;
    }
}

/// The unit price at a given supply: the configured initial price plus, for
/// positive supply, the integer-truncated increment
/// `supply^2 * multiplier / (isqrt(supply) * 1000)` - an integer-only
/// approximation of `supply^1.5 * multiplier / 1000`. The exact truncation
/// order is part of the observable contract, because it determines settlement
/// amounts.
pub open spec fn spec_price(supply: u128, initial_price: u128, multiplier: u128) -> int {
    if supply == 0 {
        initial_price as int
    } else {
        initial_price + (supply * supply * multiplier) / (spec_isqrt(supply as nat) as int * 1000)
    }
}

/// The whole price computation stays within `u128`, in the order the
/// executable code performs it: the square, then the product with the
/// multiplier, then the final sum.
pub open spec fn price_fits(supply: u128, initial_price: u128, multiplier: u128) -> bool {
    supply == 0 || {
        &&& supply * supply <= u128::MAX
        &&& supply * supply * multiplier <= u128::MAX
        &&& spec_price(supply, initial_price, multiplier) <= u128::MAX
    }
}

/// Current unit price for a token at the given supply, per the bonding curve.
pub fn get_price(supply: u128, config: &Config) -> (price: u128)
    requires
        price_fits(supply, config.initial_price, config.price_increment_multiplier),
    ensures
        price == spec_price(supply, config.initial_price, config.price_increment_multiplier),
{
    if supply == 0 {
        return config.initial_price;
    }
    let root = isqrt_u128(supply);
    proof {
        lemma_isqrt_unique(supply as nat, root as nat);
        lemma_root_small(supply, root);
        lemma_isqrt_pos(supply as nat);
    }
    let denom = root * 1000;
    let num = supply * supply * config.price_increment_multiplier;
    config.initial_price + num / denom
}

/// Executable test of `price_fits`, so an unverified caller can reject a
/// request whose price computation would overflow before attempting it.
pub fn price_computable(supply: u128, config: &Config) -> (ok: bool)
    ensures
        ok == price_fits(supply, config.initial_price, config.price_increment_multiplier),
{
    if supply == 0 {
        return true;
    }
    let s2 = match supply.checked_mul(supply) {
        Some(v) => v,
        None => {
            return false;
        },
    };
    let num = match s2.checked_mul(config.price_increment_multiplier) {
        Some(v) => v,
        None => {
            return false;
        },
    };
    let root = isqrt_u128(supply);
    proof {
        lemma_isqrt_unique(supply as nat, root as nat);
        lemma_root_small(supply, root);
        lemma_isqrt_pos(supply as nat);
    }
    let denom = root * 1000;
    let inc = num / denom;
    config.initial_price.checked_add(inc).is_some()
}

/// The unit price never falls below the configured initial price, at any
/// supply and for any multiplier.
pub proof fn lemma_price_at_least_initial(supply: u128, initial_price: u128, multiplier: u128)
    ensures
        initial_price <= spec_price(supply, initial_price, multiplier),
{
    if supply != 0 {
        lemma_isqrt_bounds(supply as nat);
        let r = spec_isqrt(supply as nat) as int;
        lemma_isqrt_pos(supply as nat);
        lemma_mul_nonnegative(supply as int, supply as int);
        lemma_mul_nonnegative(supply as int * supply as int, multiplier as int);
        lemma_div_pos_is_pos(supply * supply * multiplier, r * 1000);
    }
}

/// At zero supply the price is exactly the initial price, whatever the
/// multiplier.
pub proof fn lemma_price_at_zero(initial_price: u128, multiplier: u128)
    ensures
        spec_price(0, initial_price, multiplier) == initial_price,
{
}

/// The price never falls as the supply grows, from zero supply to any supply
/// and across supplies whose truncated square root agrees. (Where the
/// truncated square root jumps, the truncated denominator can grow faster
/// than the numerator and the price can dip; that dip is part of the curve's
/// exact integer semantics.)
pub proof fn lemma_price_nondecreasing(s1: u128, s2: u128, initial_price: u128, multiplier: u128)
    requires
        s1 <= s2,
        s1 == 0 || spec_isqrt(s1 as nat) == spec_isqrt(s2 as nat),
    ensures
        spec_price(s1, initial_price, multiplier) <= spec_price(s2, initial_price, multiplier),
{
    if s1 == 0 {
        lemma_price_at_least_initial(s2, initial_price, multiplier);
    } else {
        lemma_isqrt_bounds(s1 as nat);
        let r = spec_isqrt(s1 as nat) as int;
        lemma_isqrt_pos(s1 as nat);
        assert(s1 * s1 * multiplier <= s2 * s2 * multiplier) by (nonlinear_arith)
            requires
                0 <= s1,
                s1 <= s2,
                0 <= multiplier,
        ;
        lemma_div_is_ordered(s1 * s1 * multiplier, s2 * s2 * multiplier, r * 1000);
    }
}

} // verus!
