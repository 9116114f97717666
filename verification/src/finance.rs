//! Buy-versus-rent recommendation.
//!
//! The mortgage itself is floating-point arithmetic computed outside;
//! the verified part is the rule applied to its outcome: a five-year
//! breakeven base plus one year per full thousand of monthly rent,
//! and a recommendation to buy exactly when the mortgage payment
//! undercuts the rent.
use vstd::prelude::*;

verus! {

/// The verdict of the buy-versus-rent comparison.
pub struct BuyVsRentResult {
    pub years_to_breakeven: u32,
    pub recommendation: String,
}

/// Breakeven base, in years.
pub const BREAKEVEN_BASE_YEARS: u32 = 5;

/// Apply the breakeven rule: `rent_thousands` is the monthly rent in
/// full thousands, rounded down, and `mortgage_cheaper` whether the
/// computed monthly mortgage payment is below the rent.
pub fn buy_vs_rent_result(rent_thousands: u32, mortgage_cheaper: bool) -> (r: BuyVsRentResult)
    requires
        rent_thousands + BREAKEVEN_BASE_YEARS <= u32::MAX,
    ensures
        r.years_to_breakeven == BREAKEVEN_BASE_YEARS + rent_thousands,
        mortgage_cheaper ==> r.recommendation@ == "Buy"@,
        !mortgage_cheaper ==> r.recommendation@ == "Rent"@,
{
    let recommendation = if mortgage_cheaper {
        "Buy".to_owned()
    } else {
        "Rent".to_owned()
    };
    BuyVsRentResult { years_to_breakeven: BREAKEVEN_BASE_YEARS + rent_thousands, recommendation }
}

} // verus!
