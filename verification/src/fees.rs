use vstd::prelude::*;

use vstd::arithmetic::div_mod::{lemma_div_pos_is_pos, lemma_fundamental_div_mod};
use vstd::arithmetic::mul::lemma_mul_nonnegative;

verus! {

/// The floor share a percentage takes of a price.
pub open spec fn spec_cut(price: int, percent: int) -> int {
    price * percent / 100
}

/// Both settlement multiplications fit the machine word; inputs beyond this
/// would overflow the fee computation.
pub open spec fn settlement_fits(price: int, platform_fee_percent: u64, creator_royalty_percent: u64) -> bool {
    &&& price * platform_fee_percent <= u128::MAX
    &&& price * creator_royalty_percent <= u128::MAX
}

/// No value is created or destroyed by the three-way split: the platform cut
/// and the creator cut are each non-negative, and together they never exceed
/// the price they are taken from, so the remainder `price - platform - creator`
/// is non-negative and the three parts sum to the price exactly.
pub proof fn lemma_split_conserves_price(price: int, platform_fee_percent: u64, creator_royalty_percent: u64)
    requires
        price >= 0,
        platform_fee_percent + creator_royalty_percent <= 100,
    ensures
        0 <= spec_cut(price, platform_fee_percent as int),
        0 <= spec_cut(price, creator_royalty_percent as int),
        spec_cut(price, platform_fee_percent as int) + spec_cut(price, creator_royalty_percent as int) <= price,
{
    let f = platform_fee_percent as int;
    let c = creator_royalty_percent as int;
    lemma_mul_nonnegative(price, f);
    lemma_mul_nonnegative(price, c);
    lemma_div_pos_is_pos(price * f, 100);
    lemma_div_pos_is_pos(price * c, 100);
    lemma_fundamental_div_mod(price * f, 100);
    lemma_fundamental_div_mod(price * c, 100);
    assert(price * f + price * c <= 100 * price) by (nonlinear_arith)
        requires
            price >= 0,
            0 <= f,
            0 <= c,
            f + c <= 100,
    ;
}

/// Splits a trade price into the platform cut, the creator cut, and the
/// remainder, each percentage share rounded down, losing no value.
pub fn split(price: u128, platform_fee_percent: u64, creator_royalty_percent: u64) -> (r: (u128, u128, u128))
    requires
        platform_fee_percent + creator_royalty_percent <= 100,
        settlement_fits(price as int, platform_fee_percent, creator_royalty_percent),
    ensures
        r.0 == spec_cut(price as int, platform_fee_percent as int),
        r.1 == spec_cut(price as int, creator_royalty_percent as int),
        r.2 == price - r.0 - r.1,
        r.0 + r.1 + r.2 == price,
{
    proof {
        lemma_split_conserves_price(price as int, platform_fee_percent, creator_royalty_percent);
    }
    let platform_cut = price * (platform_fee_percent as u128) / 100;
    let creator_cut = price * (creator_royalty_percent as u128) / 100;
    let remainder = price - platform_cut - creator_cut;
    (platform_cut, creator_cut, remainder)
}

} // verus!
