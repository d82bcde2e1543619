//! The discount on an accumulated price.

use vstd::prelude::*;

verus! {

/// The discount owed on an accumulated price, as a mathematical function.
///
/// Three open price bands carry a discount of five, seven and ten percent,
/// rounded down. The band edges themselves (one, two and three million)
/// belong to no band, and neither does anything at or below one million.
pub open spec fn discount_of(total: int) -> Option<int> {
    if total > 3_000_000 {
        Some(total * 10 / 100)
    } else if 2_000_000 < total < 3_000_000 {
        Some(total * 7 / 100)
    } else if 1_000_000 < total < 2_000_000 {
        Some(total * 5 / 100)
    } else {
        None
    }
}

/// Computes the discount for an accumulated price.
pub fn get_price_acc_values(price: &i32) -> (acc: Option<i32>)
    ensures
        discount_of(*price as int) matches Some(d) ==> acc == Some(d as i32) && d == (d as i32) as int,
        discount_of(*price as int) is None ==> acc is None,
{
    let total: i64 = *price as i64;
    if total > 3_000_000 {
        Some(((total * 10) / 100) as i32)
    } else if total > 2_000_000 && total < 3_000_000 {
        Some(((total * 7) / 100) as i32)
    } else if total > 1_000_000 && total < 2_000_000 {
        Some(((total * 5) / 100) as i32)
    } else {
        None
    }
}

} // verus!
