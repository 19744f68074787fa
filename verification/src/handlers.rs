use vstd::prelude::*;
use crate::amount::Amount;
use crate::error::StoreError;
use crate::product::{create_item, Product, ProductPatch};
use crate::records::{added, has_name, place_of, Records};

verus! {

/// What deleting calls for next.
#[derive(Debug)]
pub enum DeleteStep {
    /// The product was taken out of the store.
    Removed(Product),
    /// No name was given and the store is empty.
    Nothing,
    /// No name was given: the user picks one of these, the names in the store.
    Choose(Vec<String>),
}

/// Records a purchase and adds it to the store. The fields are checked
/// first, then the name against the store; on any error the store is left
/// as it was.
pub fn add_handler(name: String, price: Amount, purchase_date: String, records: &mut Records) -> (r:
    Result<(), StoreError>)
    requires
        old(records).wf(),
    ensures
        final(records).wf(),
        match Product::creation(name, price, purchase_date) {
            Err(e) => r == Err::<(), StoreError>(StoreError::Validation(e)) && final(records)@
                == old(records)@,
            Ok(v) => match added(old(records)@, v) {
                Some(items) => r is Ok && final(records)@ == items,
                None => (r matches Err(StoreError::DuplicateName(n)) && n@ == name@)
                    && final(records)@ == old(records)@,
            },
        },
{
    match create_item(name, price, purchase_date) {
        Ok(product) => records.add_product(product),
        Err(e) => Err(StoreError::Validation(e)),
    }
}

/// Applies a request to the product that `name` gives. Without a name
/// nothing is done; otherwise as `Records::update` does.
pub fn set_handler(name: Option<String>, patch: ProductPatch, records: &mut Records) -> (r: Result<
    (),
    StoreError,
>)
    requires
        old(records).wf(),
    ensures
        final(records).wf(),
        match name {
            None => r == Err::<(), StoreError>(StoreError::MissingName) && final(records)@ == old(records)@,
            Some(n) => if has_name(old(records)@, n@) {
                match patch.outcome(old(records)@[place_of(old(records)@, n@)].has_sale()) {
                    Ok(changes) => r is Ok && final(records)@ == old(records)@.update(
                        place_of(old(records)@, n@),
                        old(records)@[place_of(old(records)@, n@)].updated(changes),
                    ),
                    Err(e) => r == Err::<(), StoreError>(StoreError::Validation(e)) && final(records)@ == old(records)@,
                }
            } else {
                (r matches Err(StoreError::NotFound(m)) && m@ == n@) && final(records)@ == old(records)@
            },
        },
{
    match name {
        Some(n) => records.update(n.as_str(), patch),
        None => Err(StoreError::MissingName),
    }
}

/// Deletes the product that `name` gives. Without a name nothing is deleted
/// yet: the step says whether there is anything to pick from.
pub fn delete_handler(name: Option<String>, records: &mut Records) -> (r: Result<
    DeleteStep,
    StoreError,
>)
    requires
        old(records).wf(),
    ensures
        final(records).wf(),
        match name {
            Some(n) => if has_name(old(records)@, n@) {
                (r matches Ok(DeleteStep::Removed(p)) && p@ == old(records)@[place_of(
                    old(records)@,
                    n@,
                )]) && final(records)@ == old(records)@.remove(place_of(old(records)@, n@))
            } else {
                (r matches Err(StoreError::NotFound(m)) && m@ == n@) && final(records)@ == old(records)@
            },
            None => final(records)@ == old(records)@ && if old(records)@.len() == 0 {
                r matches Ok(DeleteStep::Nothing)
            } else {
                r matches Ok(DeleteStep::Choose(names)) && names@.len() == old(records)@.len()
                    && forall|i: int|
                    0 <= i < names@.len() ==> (#[trigger] names@[i])@ == old(records)@[i].name
            },
        },
{
    match name {
        Some(n) => {
            match records.remove_product(n.as_str()) {
                Ok(p) => Ok(DeleteStep::Removed(p)),
                Err(e) => Err(e),
            }
        },
        None => {
            if records.len() == 0 {
                Ok(DeleteStep::Nothing)
            } else {
                Ok(DeleteStep::Choose(records.names()))
            }
        },
    }
}

} // verus!
