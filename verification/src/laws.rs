use vstd::prelude::*;
use crate::amount::Amount;
use crate::date::Date;
use crate::error::ValidationError;
use crate::product::{Product, ProductChanges, ProductPatch, ProductView};
use crate::records::{added, distinct_names, has_name};
use crate::status::Status;

verus! {

/// Whether a request gives nothing but, at most, a price and a sold price.
pub open spec fn only_prices(patch: ProductPatch) -> bool {
    patch.purchase_date is None && patch.status is None && patch.repair_count is None
        && patch.repair_cost is None && patch.sold_date is None
}

/// A purchase with a name that is not empty, a price greater than zero and
/// a date that reads is accepted as a fresh product. Added to a well-formed
/// store that lacks its name, it leaves a well-formed store that holds it
/// under that name; added to the empty store, it is all that the store holds.
pub proof fn create_then_add(store: Seq<ProductView>, name: String, price: Amount, text: String)
    requires
        name@.len() > 0,
        price.positive(),
        Date::of_text(text@) is Some,
        distinct_names(store),
        !has_name(store, name@),
    ensures
        Product::creation(name, price, text) == Ok::<ProductView, ValidationError>(
            ProductView::fresh(name@, price, Date::of_text(text@)->0),
        ),
        added(store, Product::creation(name, price, text)->Ok_0) == Some(
            store.push(Product::creation(name, price, text)->Ok_0),
        ),
        has_name(added(store, Product::creation(name, price, text)->Ok_0)->0, name@),
        distinct_names(added(store, Product::creation(name, price, text)->Ok_0)->0),
        store.len() == 0 ==> added(store, Product::creation(name, price, text)->Ok_0) == Some(
            seq![Product::creation(name, price, text)->Ok_0],
        ),
{
    let item = ProductView::fresh(name@, price, Date::of_text(text@)->0);
    let after = store.push(item);
    assert(after[store.len() as int].name == name@);
    assert forall|i: int, j: int| 0 <= i < j < after.len() implies after[i].name
        != after[j].name by {
        if j == store.len() {
            assert(store[i].name != name@);
        }
    }
    if store.len() == 0 {
        assert(after =~= seq![item]);
    }
}

/// Of two products of one name, added one after the other, the second is
/// refused: the store holds what it held after the first.
pub proof fn second_add_is_refused(store: Seq<ProductView>, first: ProductView, second: ProductView)
    requires
        first.name == second.name,
        added(store, first) is Some,
    ensures
        added(added(store, first)->0, second) is None,
{
    assert(store.push(first)[store.len() as int].name == second.name);
}

/// A request that gives only a price greater than zero passes, and the
/// product afterwards differs from the one before in its price alone.
pub proof fn price_alone_changes_price(item: ProductView, patch: ProductPatch)
    requires
        only_prices(patch),
        patch.sold_price is None,
        patch.price is Some,
        patch.price->0.positive(),
    ensures
        patch.outcome(item.has_sale()) is Ok,
        item.updated(patch.outcome(item.has_sale())->Ok_0) == (ProductView {
            price: patch.price->0,
            ..item
        }),
{
}

/// On a product without a sold price and without a sold date, a request
/// that gives a sold price and no sold date is refused, whatever else it
/// gives; where it gives nothing else, for the missing half of the pair.
pub proof fn first_sale_needs_both(item: ProductView, patch: ProductPatch)
    requires
        !item.has_sale(),
        patch.sold_price is Some,
        patch.sold_date is None,
    ensures
        patch.outcome(item.has_sale()) is Err,
        only_prices(patch) && patch.price is None ==> patch.outcome(item.has_sale()) == Err::<
            ProductChanges,
            ValidationError,
        >(ValidationError::SoldPairIncomplete),
{
}

/// On a product that has a sold date, a request that gives only a sold
/// price greater than zero passes, and the product afterwards differs from
/// the one before in its sold price alone.
pub proof fn sold_price_amends_sale(item: ProductView, patch: ProductPatch)
    requires
        item.sold_date is Some,
        only_prices(patch),
        patch.price is None,
        patch.sold_price is Some,
        patch.sold_price->0.positive(),
    ensures
        patch.outcome(item.has_sale()) is Ok,
        item.updated(patch.outcome(item.has_sale())->Ok_0) == (ProductView {
            sold_price: patch.sold_price,
            ..item
        }),
{
}

/// The codes 0, 1, 2 and 3 stand for active, idle, broken and sold; no
/// other code stands for a status, and a request with such a code is refused.
pub proof fn status_codes(code: u32, item: ProductView, patch: ProductPatch)
    ensures
        Status::of_code(0) == Some(Status::Active),
        Status::of_code(1) == Some(Status::Idle),
        Status::of_code(2) == Some(Status::Broken),
        Status::of_code(3) == Some(Status::Sold),
        code > 3 ==> Status::of_code(code) is None,
        patch.status == Some(code) && code > 3 ==> patch.outcome(item.has_sale()) is Err,
        patch.status == Some(code) && code > 3 && only_prices(
            ProductPatch { status: None, ..patch },
        ) && patch.price is None && patch.sold_price is None ==> patch.outcome(item.has_sale())
            == Err::<ProductChanges, ValidationError>(ValidationError::InvalidStatus(code)),
{
}

} // verus!
