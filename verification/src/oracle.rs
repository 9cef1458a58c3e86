//! USD-peg conversion: token amounts from USD values at an oracle price,
//! and acceptance checks for the quotes the host fetched.
//!
//! The oracle itself is a collaborator the host queries; the core enforces
//! staleness and price bounds on whatever the host hands over, it never
//! trusts the oracle.

use vstd::prelude::*;

verus! {

use crate::types::PriceQuote;
use vstd::arithmetic::div_mod::{lemma_div_nonincreasing, lemma_div_pos_is_pos};

/// Token amount worth `usd_amount` at `price`, both in 7 decimals:
/// `floor(usd_amount * 10^7 / price)`.
pub open spec fn usd_to_tokens(usd_amount: int, price: int) -> int {
    usd_amount * 10000000 / price
}

/// Whether a quote may be used at `now` under `max_staleness`: the price is
/// positive and the quote is no older than allowed. A quote dated in the
/// future counts as fresh.
pub open spec fn quote_acceptable(quote: PriceQuote, now: int, max_staleness: int) -> bool {
    quote.price > 0 && now - quote.as_of <= max_staleness
}

/// Token amount for a USD value at the given price, rounding down. A
/// non-positive price, or a USD value whose 7-decimal scaling leaves
/// `i128`, is a distinct failure.
pub fn calculate_token_amount(usd_amount: i128, price: i128) -> (r: Result<i128, ()>)
    requires
        usd_amount >= 0,
    ensures
        price <= 0 ==> r is Err,
        price > 0 ==> if usd_amount * 10000000 > i128::MAX {
            r is Err
        } else {
            r == Ok::<i128, ()>(usd_to_tokens(usd_amount as int, price as int) as i128)
        },
{
    if price <= 0 {
        return Err(());
    }
    let numerator = match usd_amount.checked_mul(10_000_000) {
        Some(v) => v,
        None => {
            return Err(());
        },
    };
    proof {
        lemma_div_pos_is_pos(numerator as int, price as int);
        lemma_div_nonincreasing(numerator as int, price as int);
    }
    Ok(numerator / price)
}

/// Whether the host-fetched quote may be used at `now`.
pub fn validate_quote(quote: PriceQuote, now: u64, max_staleness: u64) -> (r: bool)
    ensures
        r == quote_acceptable(quote, now as int, max_staleness as int),
{
    if quote.price <= 0 {
        return false;
    }
    if now > quote.as_of && now - quote.as_of > max_staleness {
        return false;
    }
    true
}

/// Conversion never inflates past the unscaled ceiling: at any positive
/// price the token amount is at most `usd_amount * 10^7`.
pub proof fn lemma_usd_to_tokens_bounds(usd_amount: int, price: int)
    requires
        usd_amount >= 0,
        price > 0,
    ensures
        0 <= usd_to_tokens(usd_amount, price) <= usd_amount * 10000000,
{
    crate::math::lemma_mul_window(usd_amount, 10000000, 10000000);
    lemma_div_pos_is_pos(usd_amount * 10000000, price);
    lemma_div_nonincreasing(usd_amount * 10000000, price);
}

} // verus!
