//! The catalog's stock badge rule. The product record itself carries
//! a floating-point price and lives outside the library; the rule on
//! the integer stock level is what belongs here.

use vstd::prelude::*;

verus! {

/// The CSS badge class for a stock level: success above 50, warning
/// above 0, error at or below 0.
pub fn stock_status_class(stock: i32) -> (r: &'static str)
    ensures
        stock > 50 ==> r@ == "badge-success"@,
        0 < stock <= 50 ==> r@ == "badge-warning"@,
        stock <= 0 ==> r@ == "badge-error"@,
{
    if stock > 50 {
        "badge-success"
    } else if stock > 0 {
        "badge-warning"
    } else {
        "badge-error"
    }
}

} // verus!
