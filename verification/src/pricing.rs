//! The pricing policy: a flat per-character-count tariff.  A name's character
//! count picks a tier (1 to 5 characters each have their own unit price, six
//! or more share one), and the total cost is the tier's unit price times the
//! purchased duration.  Also here: the check that attached funds cover a
//! cost, mirroring a native-balance lookup in which the first coin of the
//! required denomination decides.

use crate::state::{Coin, State};
use vstd::prelude::*;

verus! {

/// The unit price the schedule assigns to a name of `char_count` characters.
/// Counts one to five have their own tier; every other count falls to the
/// six-or-more tier.
pub open spec fn spec_tier_price(state: State, char_count: nat) -> u64 {
    if char_count == 1 {
        state.cost_for_1
    } else if char_count == 2 {
        state.cost_for_2
    } else if char_count == 3 {
        state.cost_for_3
    } else if char_count == 4 {
        state.cost_for_4
    } else if char_count == 5 {
        state.cost_for_5
    } else {
        state.cost_for_6
    }
}

/// The total cost of `years` duration units for a name of `char_count`
/// characters: the tier's unit price times the duration.
pub open spec fn spec_quote(state: State, char_count: nat, years: u64) -> int {
    spec_tier_price(state, char_count) * years
}

/// Whether the attached funds satisfy `amount` of `denom`: the first coin
/// carrying `denom` decides, and must hold at least `amount`.
pub open spec fn spec_covers(funds: Seq<Coin>, denom: Seq<char>, amount: int) -> bool
    decreases funds.len(),
{
    if funds.len() == 0 {
        false
    } else if funds[0].denom@ == denom {
        funds[0].amount >= amount
    } else {
        spec_covers(funds.drop_first(), denom, amount)
    }
}

/// The unit price for a name of `char_count` characters.
pub fn tier_price(state: &State, char_count: usize) -> (r: u64)
    ensures
        r == spec_tier_price(*state, char_count as nat),
{
    match char_count {
        1 => state.cost_for_1,
        2 => state.cost_for_2,
        3 => state.cost_for_3,
        4 => state.cost_for_4,
        5 => state.cost_for_5,
        _ => state.cost_for_6,
    }
}

/// The total cost of `years` duration units for `name`: the unit price of the
/// tier its character count falls in, times the duration.  Computed in a
/// width in which the product always fits.
pub fn quote(state: &State, name: &String, years: u64) -> (r: u128)
    ensures
        r == spec_quote(*state, name@.len(), years),
{
    let count = name.as_str().unicode_len();
    let unit = tier_price(state, count);
    proof {
        assert((unit as int) * (years as int) <= (u64::MAX as int) * (u64::MAX as int))
            by (nonlinear_arith)
            requires
                unit <= u64::MAX,
                years <= u64::MAX,
        ;
    }
    (unit as u128) * (years as u128)
}

/// Whether the attached funds satisfy `amount` of `denom`.
pub fn covers(funds: &Vec<Coin>, denom: &String, amount: u128) -> (r: bool)
    ensures
        r == spec_covers(funds@, denom@, amount as int),
{
    let n = funds.len();
    let mut i: usize = 0;
    proof {
        assert(funds@.skip(0) =~= funds@);
    }
    while i < n
        invariant
            n == funds@.len(),
            i <= n,
            spec_covers(funds@, denom@, amount as int) == spec_covers(
                funds@.skip(i as int),
                denom@,
                amount as int,
            ),
        decreases n - i,
    {
        proof {
            assert(funds@.skip(i as int)[0] == funds@[i as int]);
        }
        if funds[i].denom == *denom {
            return funds[i].amount >= amount;
        }
        proof {
            assert(funds@.skip(i as int).drop_first() =~= funds@.skip(i as int + 1));
        }
        i += 1;
    }
    proof {
        assert(funds@.skip(n as int).len() == 0);
    }
    false
}

} // verus!
