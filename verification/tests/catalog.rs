use ecommerce::auth::{UserAccess, UserRole};
use ecommerce::bigint::BigInt;
use ecommerce::cart;
use ecommerce::decimal::Decimal;
use ecommerce::error::Error;
use ecommerce::migrate::{pending, record, MigrateModel, CURRENT_VERSION};
use ecommerce::product::{self, CreateRequest, ProductModel, UpdateRequest};
use ecommerce::util::{DateTime, ObjectId};
use ecommerce::vite::{serve_vite, Asset, Manifest, ManifestField};

fn oid(n: u8) -> ObjectId {
    ObjectId::from_bytes([n; 12])
}

fn access(n: u8, role: UserRole) -> UserAccess {
    UserAccess { id: oid(n), role }
}

fn offer(price: Decimal, stock: i64) -> CreateRequest {
    CreateRequest {
        name: "test".to_string(),
        description: "".to_string(),
        price,
        stock: BigInt::from_i64(stock),
    }
}

fn change(price: Decimal, stock: i64) -> UpdateRequest {
    UpdateRequest {
        name: "update".to_string(),
        description: "new".to_string(),
        price,
        stock: BigInt::from_i64(stock),
    }
}

fn stored(owner: u8, stock: i64) -> ProductModel {
    ProductModel {
        id: oid(10),
        user_id: oid(owner),
        name: "test".to_string(),
        description: "".to_string(),
        stock: BigInt::from_i64(stock),
        price: Decimal::from_i64(1000),
        created_at: DateTime::from_millis(1),
        updated_at: DateTime::from_millis(2),
        deleted_at: Some(DateTime::from_millis(3)),
    }
}

#[test]
fn sellers_put_products_on_sale() {
    for role in [UserRole::Customer, UserRole::Admin] {
        let created = product::create_at(
            &access(1, role),
            offer(Decimal::from_i64(1000), 1),
            oid(10),
            DateTime::from_millis(5),
        )
        .unwrap();
        assert!(created.id.same(&oid(10)));
        assert!(created.user_id.same(&oid(1)));
        assert_eq!(created.name, "test");
        assert_eq!(created.description, "");
        assert!(created.price.equals(&Decimal::from_i64(1000)));
        assert!(created.stock.equals(&BigInt::from_i64(1)));
        assert_eq!(created.created_at, DateTime::from_millis(5));
        assert_eq!(created.updated_at, DateTime::from_millis(5));
        assert!(created.deleted_at.is_none());
    }
    let now = product::create(&access(1, UserRole::Customer), offer(Decimal::from_i64(0), 0)).unwrap();
    assert_eq!(now.created_at, now.updated_at);
}

#[test]
fn couriers_do_not_sell() {
    let error = product::create(&access(1, UserRole::Courier), offer(Decimal::from_i64(1000), 1))
        .expect_err("courier");
    assert!(matches!(error, Error::Forbidden));
}

#[test]
fn offers_below_zero_are_refused() {
    let customer = access(1, UserRole::Customer);
    let error = product::create(&customer, offer(Decimal::from_i64(-1000), 0)).expect_err("price");
    assert!(matches!(error, Error::Forbidden));
    let error = product::create(&customer, offer(Decimal::from_i64(0), -1000)).expect_err("stock");
    assert!(matches!(error, Error::Forbidden));
    let error =
        product::create(&customer, offer(Decimal::new(-1, 28).unwrap(), 0)).expect_err("price");
    assert!(matches!(error, Error::Forbidden));
    assert!(product::create(&customer, offer(Decimal::new(1, 28).unwrap(), 0)).is_ok());
}

#[test]
fn owner_changes_a_product() {
    let updated = product::update_at(
        &access(1, UserRole::Customer),
        Some(stored(1, 1)),
        change(Decimal::from_i64(2000), 2),
        DateTime::from_millis(9),
    )
    .unwrap();
    assert!(updated.id.same(&oid(10)));
    assert!(updated.user_id.same(&oid(1)));
    assert_eq!(updated.name, "update");
    assert_eq!(updated.description, "new");
    assert!(updated.price.equals(&Decimal::from_i64(2000)));
    assert!(updated.stock.equals(&BigInt::from_i64(2)));
    assert_eq!(updated.created_at, DateTime::from_millis(1));
    assert_eq!(updated.updated_at, DateTime::from_millis(9));
    assert_eq!(updated.deleted_at, Some(DateTime::from_millis(3)));
}

#[test]
fn customer_changes_only_their_own_product() {
    let error = product::update(
        &access(1, UserRole::Customer),
        Some(stored(2, 1)),
        change(Decimal::from_i64(2000), 2),
    )
    .expect_err("another's product");
    assert!(matches!(error, Error::Forbidden));
    assert!(product::update(
        &access(1, UserRole::Admin),
        Some(stored(2, 1)),
        change(Decimal::from_i64(2000), 2)
    )
    .is_ok());
}

#[test]
fn changes_below_zero_are_refused() {
    let customer = access(1, UserRole::Customer);
    let error = product::update(&customer, Some(stored(1, 1)), change(Decimal::from_i64(-1000), 0))
        .expect_err("price");
    assert!(matches!(error, Error::Forbidden));
    let error = product::update(&customer, Some(stored(1, 1)), change(Decimal::from_i64(0), -1000))
        .expect_err("stock");
    assert!(matches!(error, Error::Forbidden));
    let error = product::update(&customer, None, change(Decimal::from_i64(0), -1000))
        .expect_err("stock, before the product is looked for");
    assert!(matches!(error, Error::Forbidden));
}

#[test]
fn couriers_change_no_product() {
    let error = product::update(
        &access(1, UserRole::Courier),
        Some(stored(1, 1)),
        change(Decimal::from_i64(2000), 2),
    )
    .expect_err("courier");
    assert!(matches!(error, Error::Forbidden));
}

#[test]
fn owner_and_admin_withdraw_a_product() {
    let removed = product::delete(&access(1, UserRole::Customer), Some(stored(1, 1))).unwrap();
    assert!(removed.same(&oid(10)));
    let removed = product::delete(&access(7, UserRole::Admin), Some(stored(1, 1))).unwrap();
    assert!(removed.same(&oid(10)));
}

#[test]
fn customer_withdraws_only_their_own_product() {
    let error = product::delete(&access(1, UserRole::Customer), Some(stored(2, 1)))
        .expect_err("another's product");
    assert!(matches!(error, Error::Forbidden));
}

#[test]
fn couriers_withdraw_no_product() {
    let error =
        product::delete(&access(1, UserRole::Courier), Some(stored(1, 1))).expect_err("courier");
    assert!(matches!(error, Error::Forbidden));
    let error = product::delete(&access(1, UserRole::Courier), None).expect_err("courier");
    assert!(matches!(error, Error::Forbidden));
}

#[test]
fn absent_product_is_no_resource() {
    let customer = access(1, UserRole::Customer);
    assert!(matches!(product::show(None).expect_err("none"), Error::NoResource));
    let error = product::update(&customer, None, change(Decimal::from_i64(1), 1)).expect_err("none");
    assert!(matches!(error, Error::NoResource));
    assert!(matches!(product::delete(&customer, None).expect_err("none"), Error::NoResource));
    assert!(matches!(product::show(Some(stored(1, 1))).expect_err("withdrawn"), Error::NoResource));
    let mut kept = stored(1, 1);
    kept.deleted_at = None;
    assert!(product::show(Some(kept.clone())).unwrap().id.same(&oid(10)));
    let listed = product::index(&vec![stored(1, 1), kept, stored(2, 2)]);
    assert_eq!(listed.len(), 1);
    assert!(listed[0].deleted_at.is_none());
}

fn wish(quantity: i64) -> cart::CreateRequest {
    cart::CreateRequest { product_id: oid(10), quantity: BigInt::from_i64(quantity) }
}

#[test]
fn buyer_puts_a_product_into_the_cart() {
    let entry =
        cart::create_with(&access(1, UserRole::Customer), Some(stored(2, 5)), wish(5), oid(30))
            .unwrap();
    assert!(entry.id.same(&oid(30)));
    assert!(entry.user_id.same(&oid(1)));
    assert!(entry.product_id.same(&oid(10)));
    assert!(entry.merchant_id.same(&oid(2)));
    assert!(entry.quantity.equals(&BigInt::from_i64(5)));
    assert!(cart::create(&access(1, UserRole::Customer), Some(stored(2, 5)), wish(1)).is_ok());
}

#[test]
fn cart_takes_no_more_than_the_stock() {
    let error = cart::create(&access(1, UserRole::Customer), Some(stored(2, 5)), wish(6))
        .expect_err("six of five");
    assert!(matches!(error, Error::Forbidden));
}

#[test]
fn cart_needs_a_product_and_a_positive_quantity() {
    let customer = access(1, UserRole::Customer);
    for quantity in [0, -1] {
        let error =
            cart::create(&customer, Some(stored(2, 5)), wish(quantity)).expect_err("quantity");
        assert!(matches!(error, Error::Forbidden));
    }
    let error = cart::create(&customer, None, wish(1)).expect_err("no product");
    assert!(matches!(error, Error::Forbidden));
}

#[test]
fn cart_entries_belong_to_their_buyer() {
    let entry = cart::create_with(&access(1, UserRole::Customer), Some(stored(2, 5)), wish(5), oid(30))
        .unwrap();
    assert!(cart::show(&access(1, UserRole::Customer), Some(entry.clone())).is_ok());
    let error = cart::show(&access(3, UserRole::Admin), Some(entry.clone())).expect_err("another's");
    assert!(matches!(error, Error::Forbidden));
    let error = cart::show(&access(1, UserRole::Customer), None).expect_err("none");
    assert!(matches!(error, Error::Forbidden));

    let removed = cart::delete(&access(1, UserRole::Customer), Some(entry.clone())).unwrap();
    assert!(removed.same(&oid(30)));
    let error = cart::delete(&access(3, UserRole::Admin), Some(entry)).expect_err("another's");
    assert!(matches!(error, Error::Forbidden));
    let error = cart::delete(&access(1, UserRole::Customer), None).expect_err("none");
    assert!(matches!(error, Error::NoResource));
}

#[test]
fn layout_change_is_pending_until_recorded() {
    assert_eq!(CURRENT_VERSION, 1);
    assert!(pending(&vec![], 1));
    let done = vec![MigrateModel { id: oid(1), version: 2 }, record(1)];
    assert!(!pending(&done, 1));
    assert!(!pending(&done, 2));
    assert!(pending(&done, 3));
    assert_eq!(record(7).version, 7);
}

#[test]
fn front_end_requests_are_answered_from_the_manifest() {
    let entry = ManifestField { file: "assets/main.js".to_string() };
    assert_eq!(entry.path(), "public/dist/assets/main.js");

    for manifest in [
        Manifest::Unreadable,
        Manifest::Unlisted,
        Manifest::Listed(entry.clone(), true),
        Manifest::Listed(entry.clone(), false),
    ] {
        assert!(matches!(serve_vite("/", manifest).unwrap(), Asset::Index));
    }

    let error = serve_vite("/main.ts", Manifest::Unreadable).expect_err("no manifest");
    assert!(matches!(error, Error::ViteManifestNotFound));
    assert!(matches!(serve_vite("/main.ts", Manifest::Unlisted).unwrap(), Asset::Directory));
    assert!(matches!(serve_vite("", Manifest::Unlisted).unwrap(), Asset::Directory));
    assert!(matches!(serve_vite("//", Manifest::Unlisted).unwrap(), Asset::Directory));
    assert!(matches!(
        serve_vite("/main.ts", Manifest::Listed(entry.clone(), false)).unwrap(),
        Asset::Directory
    ));
    match serve_vite("/main.ts", Manifest::Listed(entry, true)).unwrap() {
        Asset::File(path) => assert_eq!(path, "public/dist/assets/main.js"),
        other => panic!("{:?}", other),
    }
}
