use worthit::amount::Amount;
use worthit::date::Date;
use worthit::error::{StoreError, ValidationError};
use worthit::handlers::{add_handler, delete_handler, set_handler, DeleteStep};
use worthit::product::{create_item, Product, ProductPatch};
use worthit::records::Records;
use worthit::status::Status;

fn money(x: f64) -> Amount {
    Amount::from_bits(x.to_bits())
}

fn day(year: i32, month: u32, day: u32) -> Date {
    Date { year, month, day }
}

fn laptop() -> Product {
    create_item("Laptop".to_string(), money(12000.0), "2024-1-6".to_string()).unwrap()
}

#[test]
fn create_then_add_holds_exactly_that_item() {
    let item = laptop();
    let mut store = Records::new();
    assert_eq!(store.add_product(item.clone()), Ok(()));
    let listed = store.list_products();
    assert_eq!(listed.len(), 1);
    assert_eq!(*listed[0], item);
    assert_eq!(store.len(), 1);
    assert!(store.contains("Laptop"));
}

#[test]
fn created_item_is_active_with_nothing_else_set() {
    let item = laptop();
    assert_eq!(
        item,
        Product {
            name: "Laptop".to_string(),
            price: money(12000.0),
            purchase_date: day(2024, 1, 6),
            status: Some(Status::Active),
            repair_count: None,
            repair_cost: None,
            sold_price: None,
            sold_date: None,
        }
    );
    assert_eq!(Product::new("Laptop".to_string(), money(12000.0), day(2024, 1, 6)), item);
}

#[test]
fn create_refuses_empty_name() {
    let r = create_item(String::new(), money(1.0), "2024-1-6".to_string());
    assert_eq!(r, Err(ValidationError::EmptyName));
}

#[test]
fn create_refuses_price_not_above_zero() {
    let r = create_item("Desk".to_string(), money(0.0), "2024-1-6".to_string());
    assert_eq!(r, Err(ValidationError::NonPositivePrice(money(0.0))));
    let r = create_item("Desk".to_string(), money(-3.5), "2024-1-6".to_string());
    assert_eq!(r, Err(ValidationError::NonPositivePrice(money(-3.5))));
}

#[test]
fn create_refuses_unreadable_date() {
    let r = create_item("Desk".to_string(), money(10.0), "6 Jan 2024".to_string());
    assert_eq!(r, Err(ValidationError::InvalidPurchaseDate("6 Jan 2024".to_string())));
}

#[test]
fn create_checks_name_before_price_before_date() {
    let r = create_item(String::new(), money(0.0), "nothing".to_string());
    assert_eq!(r, Err(ValidationError::EmptyName));
    let r = create_item("Desk".to_string(), money(0.0), "nothing".to_string());
    assert_eq!(r, Err(ValidationError::NonPositivePrice(money(0.0))));
}

#[test]
fn create_with_takes_the_date_as_read() {
    let r = Product::create_with(
        "Desk".to_string(),
        money(10.0),
        "whatever".to_string(),
        Some(day(2020, 2, 29)),
    );
    assert_eq!(r, Ok(Product::new("Desk".to_string(), money(10.0), day(2020, 2, 29))));
    let r = Product::create_with("Desk".to_string(), money(10.0), "2020-2-29".to_string(), None);
    assert_eq!(r, Err(ValidationError::InvalidPurchaseDate("2020-2-29".to_string())));
}

#[test]
fn second_add_of_a_name_is_refused() {
    let mut store = Records::new();
    store.add_product(laptop()).unwrap();
    let other = create_item("Laptop".to_string(), money(5.0), "2020-3-4".to_string()).unwrap();
    assert_eq!(store.add_product(other), Err(StoreError::DuplicateName("Laptop".to_string())));
    let listed = store.list_products();
    assert_eq!(listed.len(), 1);
    assert_eq!(*listed[0], laptop());
}

#[test]
fn names_differ_by_case() {
    let mut store = Records::new();
    store.add_product(laptop()).unwrap();
    let other = create_item("laptop".to_string(), money(5.0), "2020-3-4".to_string()).unwrap();
    assert_eq!(store.add_product(other), Ok(()));
    assert_eq!(store.names(), vec!["Laptop".to_string(), "laptop".to_string()]);
    assert_eq!(store.position("laptop"), Some(1));
    assert_eq!(store.position("LAPTOP"), None);
}

#[test]
fn price_alone_changes_only_the_price() {
    let mut store = Records::new();
    store.add_product(laptop()).unwrap();
    let mut patch = ProductPatch::empty();
    patch.sold_price = Some(money(8000.0));
    patch.sold_date = Some("2025-1-6".to_string());
    patch.status = Some(3);
    store.update("Laptop", patch).unwrap();
    let before = store.list_products()[0].clone();

    let mut patch = ProductPatch::empty();
    patch.price = Some(money(11000.5));
    assert_eq!(store.update("Laptop", patch), Ok(()));
    let after = store.list_products()[0].clone();
    assert_eq!(after.price, money(11000.5));
    assert_eq!(after, Product { price: money(11000.5), ..before.clone() });
    assert_eq!(after.status, Some(Status::Sold));
    assert_eq!(after.sold_price, Some(money(8000.0)));
    assert_eq!(after.sold_date, Some(day(2025, 1, 6)));
}

#[test]
fn sold_price_alone_on_first_sale_is_refused() {
    let mut store = Records::new();
    store.add_product(laptop()).unwrap();
    let mut patch = ProductPatch::empty();
    patch.sold_price = Some(money(8000.0));
    assert_eq!(
        store.update("Laptop", patch),
        Err(StoreError::Validation(ValidationError::SoldPairIncomplete))
    );
    assert_eq!(*store.list_products()[0], laptop());
}

#[test]
fn sold_date_alone_on_first_sale_is_refused() {
    let mut item = laptop();
    let mut patch = ProductPatch::empty();
    patch.sold_date = Some("2025-1-6".to_string());
    patch.price = Some(money(1.0));
    assert_eq!(item.apply_patch(patch), Err(ValidationError::SoldPairIncomplete));
    assert_eq!(item, laptop());
}

#[test]
fn sold_price_alone_amends_a_recorded_sale() {
    let mut store = Records::new();
    store.add_product(laptop()).unwrap();
    let mut patch = ProductPatch::empty();
    patch.sold_price = Some(money(8000.0));
    patch.sold_date = Some("2025-1-6".to_string());
    store.update("Laptop", patch).unwrap();

    let mut patch = ProductPatch::empty();
    patch.sold_price = Some(money(7500.0));
    assert_eq!(store.update("Laptop", patch), Ok(()));
    let after = store.list_products()[0].clone();
    assert_eq!(after.sold_price, Some(money(7500.0)));
    assert_eq!(after.sold_date, Some(day(2025, 1, 6)));

    let mut patch = ProductPatch::empty();
    patch.sold_price = Some(money(0.0));
    assert_eq!(
        store.update("Laptop", patch),
        Err(StoreError::Validation(ValidationError::NonPositiveSoldPrice(money(0.0))))
    );
    assert_eq!(*store.list_products()[0], after);
}

#[test]
fn sold_date_alone_amends_a_product_with_a_sold_price() {
    let mut item = laptop();
    item.sold_price = Some(money(10.0));
    let mut patch = ProductPatch::empty();
    patch.sold_date = Some("2025-12-31".to_string());
    assert_eq!(item.apply_patch(patch), Ok(()));
    assert_eq!(item.sold_date, Some(day(2025, 12, 31)));
    assert_eq!(item.sold_price, Some(money(10.0)));
}

#[test]
fn status_codes_map_in_order() {
    assert_eq!(Status::from_u32(0), Ok(Status::Active));
    assert_eq!(Status::from_u32(1), Ok(Status::Idle));
    assert_eq!(Status::from_u32(2), Ok(Status::Broken));
    assert_eq!(Status::from_u32(3), Ok(Status::Sold));
    assert_eq!(Status::from_u32(4), Err(ValidationError::InvalidStatus(4)));
    assert_eq!(Status::from_u32(u32::MAX), Err(ValidationError::InvalidStatus(u32::MAX)));
}

#[test]
fn status_code_four_is_refused_by_update() {
    let mut store = Records::new();
    store.add_product(laptop()).unwrap();
    let mut patch = ProductPatch::empty();
    patch.status = Some(4);
    patch.repair_count = Some(2);
    assert_eq!(
        store.update("Laptop", patch),
        Err(StoreError::Validation(ValidationError::InvalidStatus(4)))
    );
    assert_eq!(*store.list_products()[0], laptop());
}

#[test]
fn status_labels() {
    assert_eq!(Status::Active.to_cantonees(), "用緊");
    assert_eq!(Status::Idle.to_cantonees(), "食塵");
    assert_eq!(Status::Broken.to_cantonees(), "壞咗");
    assert_eq!(Status::Sold.to_cantonees(), "賣咗");
}

#[test]
fn laptop_scenario() {
    let mut store = Records::new();
    assert_eq!(
        add_handler("Laptop".to_string(), money(12000.0), "2024-1-6".to_string(), &mut store),
        Ok(())
    );
    assert_eq!(store.len(), 1);
    assert_eq!(*store.list_products()[0], laptop());

    let mut patch = ProductPatch::empty();
    patch.status = Some(2);
    assert_eq!(set_handler(Some("Laptop".to_string()), patch, &mut store), Ok(()));
    assert_eq!(
        *store.list_products()[0],
        Product { status: Some(Status::Broken), ..laptop() }
    );

    let mut patch = ProductPatch::empty();
    patch.sold_price = Some(money(8000.0));
    patch.sold_date = Some("2025-1-6".to_string());
    assert_eq!(set_handler(Some("Laptop".to_string()), patch, &mut store), Ok(()));
    let sold = Product {
        status: Some(Status::Broken),
        sold_price: Some(money(8000.0)),
        sold_date: Some(day(2025, 1, 6)),
        ..laptop()
    };
    assert_eq!(*store.list_products()[0], sold);

    assert_eq!(store.remove_product("Laptop"), Ok(sold));
    assert_eq!(store.len(), 0);
    assert!(store.list_products().is_empty());
}

#[test]
fn update_replaces_each_field_given() {
    let mut item = laptop();
    item.update(
        Some(money(1.5)),
        Some(day(2023, 2, 3)),
        Some(Status::Idle),
        Some(0),
        Some(money(20.0)),
        Some(money(30.0)),
        Some(day(2024, 5, 6)),
    );
    assert_eq!(
        item,
        Product {
            name: "Laptop".to_string(),
            price: money(1.5),
            purchase_date: day(2023, 2, 3),
            status: Some(Status::Idle),
            repair_count: Some(0),
            repair_cost: Some(money(20.0)),
            sold_price: Some(money(30.0)),
            sold_date: Some(day(2024, 5, 6)),
        }
    );
    let kept = item.clone();
    item.update(None, None, None, None, None, None, None);
    assert_eq!(item, kept);
}

#[test]
fn repair_count_zero_is_accepted() {
    let mut item = laptop();
    let mut patch = ProductPatch::empty();
    patch.repair_count = Some(0);
    assert_eq!(item.apply_patch(patch), Ok(()));
    assert_eq!(item, Product { repair_count: Some(0), ..laptop() });
}

#[test]
fn each_field_rule_gives_its_error() {
    let item = laptop();
    let mut patch = ProductPatch::empty();
    patch.price = Some(money(-1.0));
    assert_eq!(item.check_patch(patch), Err(ValidationError::NonPositivePrice(money(-1.0))));
    let mut patch = ProductPatch::empty();
    patch.purchase_date = Some("2024-2-30".to_string());
    assert_eq!(
        item.check_patch(patch),
        Err(ValidationError::InvalidPurchaseDate("2024-2-30".to_string()))
    );
    let mut patch = ProductPatch::empty();
    patch.repair_cost = Some(money(0.0));
    assert_eq!(item.check_patch(patch), Err(ValidationError::NonPositiveRepairCost(money(0.0))));
    let mut patch = ProductPatch::empty();
    patch.sold_price = Some(money(-2.0));
    patch.sold_date = Some("2025-1-6".to_string());
    assert_eq!(item.check_patch(patch), Err(ValidationError::NonPositiveSoldPrice(money(-2.0))));
    let mut patch = ProductPatch::empty();
    patch.sold_price = Some(money(2.0));
    patch.sold_date = Some("soon".to_string());
    assert_eq!(item.check_patch(patch), Err(ValidationError::InvalidSoldDate("soon".to_string())));
}

#[test]
fn rules_are_tried_in_order() {
    let item = laptop();
    let patch = ProductPatch {
        price: Some(money(0.0)),
        purchase_date: Some("x".to_string()),
        status: Some(9),
        repair_count: None,
        repair_cost: Some(money(0.0)),
        sold_price: Some(money(0.0)),
        sold_date: None,
    };
    assert_eq!(
        item.check_patch(patch.clone()),
        Err(ValidationError::NonPositivePrice(money(0.0)))
    );
    let patch = ProductPatch { price: None, ..patch };
    assert_eq!(
        item.check_patch(patch.clone()),
        Err(ValidationError::InvalidPurchaseDate("x".to_string()))
    );
    let patch = ProductPatch { purchase_date: None, ..patch };
    assert_eq!(item.check_patch(patch.clone()), Err(ValidationError::InvalidStatus(9)));
    let patch = ProductPatch { status: Some(1), ..patch };
    assert_eq!(
        item.check_patch(patch.clone()),
        Err(ValidationError::NonPositiveRepairCost(money(0.0)))
    );
    let patch = ProductPatch { repair_cost: None, ..patch };
    assert_eq!(item.check_patch(patch), Err(ValidationError::SoldPairIncomplete));
}

#[test]
fn resolve_goes_by_the_dates_as_read() {
    let mut patch = ProductPatch::empty();
    patch.purchase_date = Some("anything".to_string());
    patch.status = Some(1);
    let changes = patch.clone().resolve(false, Some(day(2001, 2, 3)), Some(day(1, 1, 1))).unwrap();
    assert_eq!(changes.purchase_date, Some(day(2001, 2, 3)));
    assert_eq!(changes.sold_date, None);
    assert_eq!(changes.status, Some(Status::Idle));
    assert_eq!(changes.price, None);
    assert_eq!(
        patch.resolve(false, None, None),
        Err(ValidationError::InvalidPurchaseDate("anything".to_string()))
    );
}

#[test]
fn update_of_an_absent_name_is_not_found() {
    let mut store = Records::new();
    store.add_product(laptop()).unwrap();
    let mut patch = ProductPatch::empty();
    patch.price = Some(money(-1.0));
    assert_eq!(store.update("Phone", patch), Err(StoreError::NotFound("Phone".to_string())));
    assert_eq!(store.remove_product("Phone"), Err(StoreError::NotFound("Phone".to_string())));
    assert_eq!(
        store.get_product_mut("Phone").map(|p| p.clone()),
        Err(StoreError::NotFound("Phone".to_string()))
    );
    assert_eq!(store.len(), 1);
}

#[test]
fn set_handler_wants_a_name() {
    let mut store = Records::new();
    store.add_product(laptop()).unwrap();
    let mut patch = ProductPatch::empty();
    patch.price = Some(money(1.0));
    assert_eq!(set_handler(None, patch, &mut store), Err(StoreError::MissingName));
    assert_eq!(*store.list_products()[0], laptop());
}

#[test]
fn add_handler_reports_field_errors_and_duplicates() {
    let mut store = Records::new();
    assert_eq!(
        add_handler(String::new(), money(1.0), "2024-1-6".to_string(), &mut store),
        Err(StoreError::Validation(ValidationError::EmptyName))
    );
    assert_eq!(store.len(), 0);
    add_handler("Desk".to_string(), money(1.0), "2024-1-6".to_string(), &mut store).unwrap();
    assert_eq!(
        add_handler("Desk".to_string(), money(2.0), "2024-1-7".to_string(), &mut store),
        Err(StoreError::DuplicateName("Desk".to_string()))
    );
    assert_eq!(store.len(), 1);
    assert_eq!(store.list_products()[0].price, money(1.0));
}

#[test]
fn get_product_mut_hands_out_the_stored_product() {
    let mut store = Records::new();
    store.add_product(laptop()).unwrap();
    add_handler("Desk".to_string(), money(1.0), "2024-1-6".to_string(), &mut store).unwrap();
    {
        let p = store.get_product_mut("Desk").unwrap();
        assert_eq!(p.name, "Desk");
        p.repair_count = Some(3);
    }
    assert_eq!(*store.list_products()[0], laptop());
    assert_eq!(store.list_products()[1].repair_count, Some(3));
}

#[test]
fn remove_keeps_the_others_in_order() {
    let mut store = Records::new();
    for name in ["a", "b", "c"] {
        add_handler(name.to_string(), money(1.0), "2024-1-6".to_string(), &mut store).unwrap();
    }
    let gone = store.remove_product("b").unwrap();
    assert_eq!(gone.name, "b");
    assert_eq!(store.names(), vec!["a".to_string(), "c".to_string()]);
    assert!(!store.contains("b"));
}

#[test]
fn delete_handler_steps() {
    let mut store = Records::new();
    assert!(matches!(delete_handler(None, &mut store), Ok(DeleteStep::Nothing)));
    store.add_product(laptop()).unwrap();
    match delete_handler(None, &mut store) {
        Ok(DeleteStep::Choose(names)) => assert_eq!(names, vec!["Laptop".to_string()]),
        other => panic!("unexpected step: {:?}", other),
    }
    assert_eq!(store.len(), 1);
    match delete_handler(Some("Phone".to_string()), &mut store) {
        Err(e) => assert_eq!(e, StoreError::NotFound("Phone".to_string())),
        other => panic!("unexpected step: {:?}", other),
    }
    match delete_handler(Some("Laptop".to_string()), &mut store) {
        Ok(DeleteStep::Removed(p)) => assert_eq!(p, laptop()),
        other => panic!("unexpected step: {:?}", other),
    }
    assert_eq!(store.len(), 0);
}

#[test]
fn from_products_wants_distinct_names() {
    let desk = Product::new("Desk".to_string(), money(1.0), day(2024, 1, 6));
    let store = Records::from_products(vec![laptop(), desk.clone()]).unwrap();
    assert_eq!(store.names(), vec!["Laptop".to_string(), "Desk".to_string()]);
    assert_eq!(*store.list_products()[1], desk);
    let again = Records::from_products(vec![laptop(), desk, laptop()]);
    assert!(matches!(again, Err(StoreError::DuplicateName(_))));
    assert_eq!(Records::from_products(Vec::new()).unwrap().len(), 0);
}

#[test]
fn rename_moves_a_product_to_a_free_name() {
    let mut store = Records::new();
    store.add_product(laptop()).unwrap();
    add_handler("Desk".to_string(), money(1.0), "2024-1-6".to_string(), &mut store).unwrap();
    assert_eq!(
        store.rename_product("Laptop", "Desk".to_string()),
        Err(StoreError::DuplicateName("Desk".to_string()))
    );
    assert_eq!(
        store.rename_product("Phone", "Tablet".to_string()),
        Err(StoreError::NotFound("Phone".to_string()))
    );
    assert_eq!(store.names(), vec!["Laptop".to_string(), "Desk".to_string()]);
    assert_eq!(store.rename_product("Laptop", "Laptop".to_string()), Ok(()));
    assert_eq!(store.rename_product("Laptop", "Notebook".to_string()), Ok(()));
    assert_eq!(store.names(), vec!["Notebook".to_string(), "Desk".to_string()]);
    assert_eq!(
        *store.list_products()[0],
        Product { name: "Notebook".to_string(), ..laptop() }
    );
    assert!(!store.contains("Laptop"));
}

#[test]
fn a_store_rebuilt_from_its_products_is_the_same() {
    let mut store = Records::new();
    store.add_product(laptop()).unwrap();
    add_handler("Desk".to_string(), money(250.5), "2023-11-30".to_string(), &mut store).unwrap();
    let mut patch = ProductPatch::empty();
    patch.repair_count = Some(1);
    patch.repair_cost = Some(money(99.9));
    store.update("Desk", patch).unwrap();
    let copies: Vec<Product> = store.list_products().into_iter().cloned().collect();
    let rebuilt = Records::from_products(copies.clone()).unwrap();
    assert_eq!(rebuilt.names(), store.names());
    let again: Vec<Product> = rebuilt.list_products().into_iter().cloned().collect();
    assert_eq!(again, copies);
}
