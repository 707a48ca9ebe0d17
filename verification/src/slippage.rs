//! Slippage bound arithmetic.
//!
//! A caller-supplied token maximum is widened by a tolerance given in
//! basis points: `amount * (10000 + bps) / 10000`.  Overflow is fatal,
//! never silently clamped: an under- or over-estimated bound is a
//! fund-safety issue.

use vstd::prelude::*;

verus! {

/// The slippage-adjusted bound as unbounded arithmetic.
pub open spec fn spec_slippage_adjusted(amount: u64, bps: u16) -> int {
    amount * (10000 + bps) / 10000
}

/// The slippage a flow works with: the caller's override where one is
/// given, else the configured default.
pub open spec fn spec_resolve_slippage(default_bps: u16, override_bps: Option<u16>) -> u16 {
    match override_bps {
        Some(bps) => bps,
        None => default_bps,
    }
}

/// Pick the caller's slippage override or the configured default.
pub fn resolve_slippage(default_bps: u16, override_bps: Option<u16>) -> (r: u16)
    ensures
        r == spec_resolve_slippage(default_bps, override_bps),
{
    match override_bps {
        Some(bps) => bps,
        None => default_bps,
    }
}

/// Widen `amount` by `bps` basis points, exactly; `None` on overflow.
pub fn apply_slippage_bps(amount: u64, bps: u16) -> (r: Option<u64>)
    ensures
        r is Some <==> amount * (10000 + bps) <= u64::MAX,
        r is Some ==> r.unwrap() == spec_slippage_adjusted(amount, bps),
{
    let factor: u64 = 10000 + (bps as u64);
    match amount.checked_mul(factor) {
        Some(product) => Some(product / 10000),
        None => None,
    }
}

} // verus!
