//! Records of purchased items: what each cost, when it was bought, what
//! became of it, and a store that keeps them apart by name.
//!
//! Every function here carries a contract over a mathematical model of the
//! data: a product is viewed as a [`product::ProductView`], a store as the
//! sequence of the views of its products.

pub mod amount;
pub mod date;
pub mod display;
pub mod error;
pub mod handlers;
pub mod laws;
pub mod product;
pub mod records;
pub mod status;
