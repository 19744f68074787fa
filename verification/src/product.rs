use vstd::prelude::*;
use crate::amount::Amount;
use crate::date::Date;
use crate::error::ValidationError;
use crate::status::Status;

verus! {

/// A purchased item. Its name tells it apart from every other in a store.
#[derive(Clone, Debug, PartialEq, Eq)]
pub struct Product {
    pub name: String,
    pub price: Amount,
    pub purchase_date: Date,
    pub status: Option<Status>,
    pub repair_count: Option<u32>,
    pub repair_cost: Option<Amount>,
    pub sold_price: Option<Amount>,
    pub sold_date: Option<Date>,
}

/// What a product is to the contracts: its fields, the name as a sequence of characters.
pub struct ProductView {
    pub name: Seq<char>,
    pub price: Amount,
    pub purchase_date: Date,
    pub status: Option<Status>,
    pub repair_count: Option<u32>,
    pub repair_cost: Option<Amount>,
    pub sold_price: Option<Amount>,
    pub sold_date: Option<Date>,
}

/// A request to change some fields of a product, as a caller words it:
/// dates as text, the status as a code. A field left `None` is not touched.
#[derive(Clone, Debug, PartialEq, Eq)]
pub struct ProductPatch {
    pub price: Option<Amount>,
    pub purchase_date: Option<String>,
    pub status: Option<u32>,
    pub repair_count: Option<u32>,
    pub repair_cost: Option<Amount>,
    pub sold_price: Option<Amount>,
    pub sold_date: Option<String>,
}

/// A request that passed every rule: the values to write, field by field.
#[derive(Clone, Copy, Debug, PartialEq, Eq, Structural)]
pub struct ProductChanges {
    pub price: Option<Amount>,
    pub purchase_date: Option<Date>,
    pub status: Option<Status>,
    pub repair_count: Option<u32>,
    pub repair_cost: Option<Amount>,
    pub sold_price: Option<Amount>,
    pub sold_date: Option<Date>,
}

impl View for Product {
    type V = ProductView;

    open spec fn view(&self) -> ProductView {
        ProductView {
            name: self.name@,
            price: self.price,
            purchase_date: self.purchase_date,
            status: self.status,
            repair_count: self.repair_count,
            repair_cost: self.repair_cost,
            sold_price: self.sold_price,
            sold_date: self.sold_date,
        }
    }
}

impl ProductView {
    /// A product as it is right after its purchase was recorded.
    pub open spec fn fresh(name: Seq<char>, price: Amount, purchase_date: Date) -> ProductView {
        ProductView {
            name,
            price,
            purchase_date,
            status: Some(Status::Active),
            repair_count: None,
            repair_cost: None,
            sold_price: None,
            sold_date: None,
        }
    }

    /// Whether a sale has been recorded, in part or in full.
    pub open spec fn has_sale(self) -> bool {
        self.sold_price is Some || self.sold_date is Some
    }

    /// The product after `changes`: each field that they give replaces the
    /// old value, every other field and the name stay.
    pub open spec fn updated(self, changes: ProductChanges) -> ProductView {
        ProductView {
            name: self.name,
            price: match changes.price {
                Some(p) => p,
                None => self.price,
            },
            purchase_date: match changes.purchase_date {
                Some(d) => d,
                None => self.purchase_date,
            },
            status: if changes.status is Some {
                changes.status
            } else {
                self.status
            },
            repair_count: if changes.repair_count is Some {
                changes.repair_count
            } else {
                self.repair_count
            },
            repair_cost: if changes.repair_cost is Some {
                changes.repair_cost
            } else {
                self.repair_cost
            },
            sold_price: if changes.sold_price is Some {
                changes.sold_price
            } else {
                self.sold_price
            },
            sold_date: if changes.sold_date is Some {
                changes.sold_date
            } else {
                self.sold_date
            },
        }
    }
}

impl ProductPatch {
    /// The date that an optional text stands for.
    pub open spec fn date_of(text: Option<String>) -> Option<Date> {
        match text {
            Some(t) => Date::of_text(t@),
            None => None,
        }
    }

    /// What the rules make of a request, given what its two dates read as
    /// (`purchase` and `sold`, `None` for a text that is no date) and whether
    /// the product has a sale recorded. The rules are tried in this order and
    /// the first one broken gives the error: price, purchase date, status
    /// code, repair cost, sold price and sold date together on a first sale,
    /// sold price, sold date.
    pub open spec fn outcome_with(
        self,
        has_sale: bool,
        purchase: Option<Date>,
        sold: Option<Date>,
    ) -> Result<ProductChanges, ValidationError> {
        if self.price is Some && !self.price->0.positive() {
            Err(ValidationError::NonPositivePrice(self.price->0))
        } else if self.purchase_date is Some && purchase is None {
            Err(ValidationError::InvalidPurchaseDate(self.purchase_date->0))
        } else if self.status is Some && Status::of_code(self.status->0) is None {
            Err(ValidationError::InvalidStatus(self.status->0))
        } else if self.repair_cost is Some && !self.repair_cost->0.positive() {
            Err(ValidationError::NonPositiveRepairCost(self.repair_cost->0))
        } else if !has_sale && (self.sold_price is Some) != (self.sold_date is Some) {
            Err(ValidationError::SoldPairIncomplete)
        } else if self.sold_price is Some && !self.sold_price->0.positive() {
            Err(ValidationError::NonPositiveSoldPrice(self.sold_price->0))
        } else if self.sold_date is Some && sold is None {
            Err(ValidationError::InvalidSoldDate(self.sold_date->0))
        } else {
            Ok(
                ProductChanges {
                    price: self.price,
                    purchase_date: if self.purchase_date is Some {
                        purchase
                    } else {
                        None
                    },
                    status: match self.status {
                        Some(code) => Status::of_code(code),
                        None => None,
                    },
                    repair_count: self.repair_count,
                    repair_cost: self.repair_cost,
                    sold_price: self.sold_price,
                    sold_date: if self.sold_date is Some {
                        sold
                    } else {
                        None
                    },
                },
            )
        }
    }

    /// What the rules make of a request, its dates read as text.
    pub open spec fn outcome(self, has_sale: bool) -> Result<ProductChanges, ValidationError> {
        self.outcome_with(
            has_sale,
            ProductPatch::date_of(self.purchase_date),
            ProductPatch::date_of(self.sold_date),
        )
    }

    /// A request that touches nothing.
    pub fn empty() -> (r: ProductPatch)
        ensures
            r == (ProductPatch {
                price: None,
                purchase_date: None,
                status: None,
                repair_count: None,
                repair_cost: None,
                sold_price: None,
                sold_date: None,
            }),
    {
        ProductPatch {
            price: None,
            purchase_date: None,
            status: None,
            repair_count: None,
            repair_cost: None,
            sold_price: None,
            sold_date: None,
        }
    }

    /// Holds a request against the rules, the two dates already read:
    /// `purchase` and `sold` are what the texts stand for, `None` for a text
    /// that is no date. `has_sale` says whether the product has a sold price
    /// or a sold date.
    pub fn resolve(self, has_sale: bool, purchase: Option<Date>, sold: Option<Date>) -> (r: Result<
        ProductChanges,
        ValidationError,
    >)
        ensures
            r == self.outcome_with(has_sale, purchase, sold),
    {
        let ProductPatch {
            price,
            purchase_date,
            status,
            repair_count,
            repair_cost,
            sold_price,
            sold_date,
        } = self;
        if let Some(p) = price {
            if !p.is_positive() {
                return Err(ValidationError::NonPositivePrice(p));
            }
        }
        let new_purchase = match purchase_date {
            Some(text) => {
                if purchase.is_none() {
                    return Err(ValidationError::InvalidPurchaseDate(text));
                }
                purchase
            },
            None => None,
        };
        let new_status = match status {
            Some(code) => match Status::from_u32(code) {
                Ok(s) => Some(s),
                Err(e) => {
                    return Err(e);
                },
            },
            None => None,
        };
        if let Some(c) = repair_cost {
            if !c.is_positive() {
                return Err(ValidationError::NonPositiveRepairCost(c));
            }
        }
        if !has_sale && sold_price.is_some() != sold_date.is_some() {
            return Err(ValidationError::SoldPairIncomplete);
        }
        if let Some(p) = sold_price {
            if !p.is_positive() {
                return Err(ValidationError::NonPositiveSoldPrice(p));
            }
        }
        let new_sold = match sold_date {
            Some(text) => {
                if sold.is_none() {
                    return Err(ValidationError::InvalidSoldDate(text));
                }
                sold
            },
            None => None,
        };
        Ok(
            ProductChanges {
                price,
                purchase_date: new_purchase,
                status: new_status,
                repair_count,
                repair_cost,
                sold_price,
                sold_date: new_sold,
            },
        )
    }
}

/// Reads an optional date text.
fn read_date(text: &Option<String>) -> (r: Option<Date>)
    ensures
        r == ProductPatch::date_of(*text),
{
    match text {
        Some(t) => Date::parse(t.as_str()),
        None => None,
    }
}

impl Product {
    /// What recording a purchase gives, `parsed` being what the date text
    /// stands for: the name must not be empty, the price must be greater
    /// than zero and the text must be a date, tried in this order.
    pub open spec fn creation_with(
        name: String,
        price: Amount,
        purchase_date: String,
        parsed: Option<Date>,
    ) -> Result<ProductView, ValidationError> {
        if name@.len() == 0 {
            Err(ValidationError::EmptyName)
        } else if !price.positive() {
            Err(ValidationError::NonPositivePrice(price))
        } else if parsed is None {
            Err(ValidationError::InvalidPurchaseDate(purchase_date))
        } else {
            Ok(ProductView::fresh(name@, price, parsed->0))
        }
    }

    /// What recording a purchase gives, the date read as text.
    pub open spec fn creation(name: String, price: Amount, purchase_date: String) -> Result<
        ProductView,
        ValidationError,
    > {
        Product::creation_with(name, price, purchase_date, Date::of_text(purchase_date@))
    }

    /// A product just bought: active, never repaired, not sold.
    pub fn new(name: String, price: Amount, purchase_date: Date) -> (r: Product)
        ensures
            r@ == ProductView::fresh(name@, price, purchase_date),
    {
        Product {
            name,
            price,
            purchase_date,
            status: Some(Status::Active),
            repair_count: None,
            repair_cost: None,
            sold_price: None,
            sold_date: None,
        }
    }

    /// Whether a sale has been recorded, in part or in full.
    pub fn has_sale(&self) -> (r: bool)
        ensures
            r == self@.has_sale(),
    {
        self.sold_price.is_some() || self.sold_date.is_some()
    }

    /// The status, a product without one counting as active.
    pub fn status_or_active(&self) -> (r: Status)
        ensures
            r == match self.status {
                Some(s) => s,
                None => Status::Active,
            },
    {
        match self.status {
            Some(s) => s,
            None => Status::Active,
        }
    }

    /// Writes the given values, leaving alone each field for which `None` is given.
    pub fn update(
        &mut self,
        price: Option<Amount>,
        purchase_date: Option<Date>,
        status: Option<Status>,
        repair_count: Option<u32>,
        repair_cost: Option<Amount>,
        sold_price: Option<Amount>,
        sold_date: Option<Date>,
    )
        ensures
            final(self)@ == old(self)@.updated(
                (ProductChanges {
                    price,
                    purchase_date,
                    status,
                    repair_count,
                    repair_cost,
                    sold_price,
                    sold_date,
                }),
            ),
    {
        if let Some(p) = price {
            self.price = p;
        }
        if let Some(pd) = purchase_date {
            self.purchase_date = pd;
        }
        if let Some(s) = status {
            self.status = Some(s);
        }
        if repair_count.is_some() {
            self.repair_count = repair_count;
        }
        if repair_cost.is_some() {
            self.repair_cost = repair_cost;
        }
        if sold_price.is_some() {
            self.sold_price = sold_price;
        }
        if sold_date.is_some() {
            self.sold_date = sold_date;
        }
    }

    /// Records a purchase from what a caller gave and what the date text was read as.
    pub fn create_with(name: String, price: Amount, purchase_date: String, parsed: Option<Date>) -> (r:
        Result<Product, ValidationError>)
        ensures
            match Product::creation_with(name, price, purchase_date, parsed) {
                Ok(v) => r is Ok && r->Ok_0@ == v,
                Err(e) => r == Err::<Product, ValidationError>(e),
            },
    {
        if name.as_str().is_empty() {
            return Err(ValidationError::EmptyName);
        }
        if !price.is_positive() {
            return Err(ValidationError::NonPositivePrice(price));
        }
        match parsed {
            Some(date) => Ok(Product::new(name, price, date)),
            None => Err(ValidationError::InvalidPurchaseDate(purchase_date)),
        }
    }

    /// Holds a request against the rules for this product, reading its dates.
    pub fn check_patch(&self, patch: ProductPatch) -> (r: Result<ProductChanges, ValidationError>)
        ensures
            r == patch.outcome(self@.has_sale()),
    {
        let purchase = read_date(&patch.purchase_date);
        let sold = read_date(&patch.sold_date);
        patch.resolve(self.has_sale(), purchase, sold)
    }

    /// Applies a request: all of it where it passes every rule, nothing of it otherwise.
    pub fn apply_patch(&mut self, patch: ProductPatch) -> (r: Result<(), ValidationError>)
        ensures
            match patch.outcome(old(self)@.has_sale()) {
                Ok(changes) => r is Ok && final(self)@ == old(self)@.updated(changes),
                Err(e) => r == Err::<(), ValidationError>(e) && *final(self) == *old(self),
            },
    {
        match self.check_patch(patch) {
            Ok(c) => {
                self.update(
                    c.price,
                    c.purchase_date,
                    c.status,
                    c.repair_count,
                    c.repair_cost,
                    c.sold_price,
                    c.sold_date,
                );
                Ok(())
            },
            Err(e) => Err(e),
        }
    }
}

/// Records a purchase: the name must not be empty, the price must be greater
/// than zero and the date must read as year-month-day.
pub fn create_item(name: String, price: Amount, purchase_date: String) -> (r: Result<
    Product,
    ValidationError,
>)
    ensures
        match Product::creation(name, price, purchase_date) {
            Ok(v) => r is Ok && r->Ok_0@ == v,
            Err(e) => r == Err::<Product, ValidationError>(e),
        },
{
    let parsed = Date::parse(purchase_date.as_str());
    Product::create_with(name, price, purchase_date, parsed)
}

} // verus!
