use vstd::prelude::*;
use crate::date::Date;
use crate::product::Product;

verus! {

/// The day on which a product's holding ends: the day it was sold, or `today`
/// while it is not.
pub open spec fn holding_end(sold_date: Option<Date>, today: Date) -> Date {
    match sold_date {
        Some(d) => d,
        None => today,
    }
}

/// For how many days a product has been held: from its purchase to its sale,
/// or to `today` while it is not sold. `None` where one of the two dates is
/// none of the calendar.
pub fn days_held(product: &Product, today: Date) -> (r: Option<i64>)
    ensures
        r == product.purchase_date.span_to(holding_end(product.sold_date, today)),
{
    let end = match product.sold_date {
        Some(d) => d,
        None => today,
    };
    product.purchase_date.days_until(&end)
}

} // verus!
