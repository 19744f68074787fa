use vstd::prelude::*;
use crate::amount::Amount;

verus! {

/// A field value that breaks a rule, with the value that broke it.
#[derive(Clone, Debug, PartialEq, Eq)]
pub enum ValidationError {
    /// The name of a new product is empty.
    EmptyName,
    /// A price that is not greater than zero.
    NonPositivePrice(Amount),
    /// A purchase date that does not read as a calendar date.
    InvalidPurchaseDate(String),
    /// A status code other than 0, 1, 2 or 3.
    InvalidStatus(u32),
    /// A repair cost that is not greater than zero.
    NonPositiveRepairCost(Amount),
    /// Only one of sold price and sold date was given for a product that has neither yet.
    SoldPairIncomplete,
    /// A sold price that is not greater than zero.
    NonPositiveSoldPrice(Amount),
    /// A sold date that does not read as a calendar date.
    InvalidSoldDate(String),
}

/// Why an operation on the store did nothing.
#[derive(Clone, Debug, PartialEq, Eq)]
pub enum StoreError {
    /// A field value was refused.
    Validation(ValidationError),
    /// The store already holds a product of this name.
    DuplicateName(String),
    /// The store holds no product of this name.
    NotFound(String),
    /// An update that names no product.
    MissingName,
}

} // verus!
