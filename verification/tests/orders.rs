use food_delivery::db::Database;
use food_delivery::errors::OrderError;
use food_delivery::models::{
    CreateFoodItemRequest, CreateOrderRequest, CreateRestaurantRequest, CreateUserRequest,
    OrderItemRequest, OrderStatus, UpdateOrderStatusRequest,
};

fn user_request(name: &str) -> CreateUserRequest {
    CreateUserRequest {
        name: String::from(name),
        email: String::from("someone@example.com"),
        phone: String::from("5550000"),
        address: String::from("1 Test Lane"),
    }
}

fn restaurant_request(delivery_fee: u64, minimum_order: u64) -> CreateRestaurantRequest {
    CreateRestaurantRequest {
        name: String::from("Test Kitchen"),
        description: String::from("A kitchen for tests"),
        address: String::from("2 Test Lane"),
        phone: String::from("5550001"),
        delivery_time: String::from("10-20 mins"),
        delivery_fee,
        minimum_order,
        image_url: None,
    }
}

fn item_request(name: &str, price: u64) -> CreateFoodItemRequest {
    CreateFoodItemRequest {
        name: String::from(name),
        description: String::from("An item for tests"),
        price,
        category: String::from("Test"),
        image_url: None,
    }
}

fn order_request(restaurant_id: u128, items: Vec<OrderItemRequest>) -> CreateOrderRequest {
    CreateOrderRequest {
        restaurant_id,
        items,
        delivery_address: String::from("3 Test Lane"),
        notes: None,
    }
}

/// A store with one user, one restaurant (fee 2.99, minimum 15.00) and
/// one available food item priced 12.99, as in the pricing scenarios.
fn pricing_fixture() -> (Database, u128, u128) {
    let mut db = Database::empty();
    db.create_user(user_request("Scenario User"));
    let restaurant = db.create_restaurant(restaurant_request(299, 1500));
    let item = db.create_food_item(item_request("Food item A", 1299));
    (db, restaurant.id, item.id)
}

#[test]
fn one_item_below_minimum_is_rejected_citing_the_minimum() {
    let (mut db, restaurant_id, item_id) = pricing_fixture();
    let result = db.create_order(order_request(
        restaurant_id,
        vec![OrderItemRequest { food_item_id: item_id, quantity: 1 }],
    ));
    let err = result.expect_err("12.99 is below the 15.00 minimum");
    assert_eq!(err, OrderError::BelowMinimumOrder { minimum: 1500 });
    assert_eq!(err.message(), "Minimum order amount is $15.00");
    assert_eq!(db.get_orders().len(), 0);
}

#[test]
fn two_items_meet_the_minimum_and_price_with_the_fee() {
    let (mut db, restaurant_id, item_id) = pricing_fixture();
    let order = db
        .create_order(order_request(
            restaurant_id,
            vec![OrderItemRequest { food_item_id: item_id, quantity: 2 }],
        ))
        .expect("25.98 meets the 15.00 minimum");
    assert_eq!(order.total_amount, 2897);
    assert!(matches!(order.status, OrderStatus::Pending));
    assert_eq!(order.items.len(), 1);
    assert_eq!(order.items[0].price, 1299);
    assert_eq!(order.items[0].quantity, 2);
    assert_eq!(order.items[0].name, "Food item A");
    let stored = db.get_order(order.id).expect("the order is persisted");
    assert_eq!(stored.total_amount, 2897);
    assert_eq!(db.get_orders().len(), 1);
}

#[test]
fn unknown_food_item_is_rejected_carrying_its_id() {
    let (mut db, restaurant_id, _item_id) = pricing_fixture();
    let result = db.create_order(order_request(
        restaurant_id,
        vec![OrderItemRequest { food_item_id: 42, quantity: 2 }],
    ));
    assert_eq!(
        result.expect_err("the id is not stored"),
        OrderError::FoodItemNotFound { food_item_id: 42 }
    );
    assert_eq!(db.get_orders().len(), 0);
}

#[test]
fn unknown_restaurant_is_rejected_and_nothing_is_stored() {
    let (mut db, _restaurant_id, item_id) = pricing_fixture();
    let result = db.create_order(order_request(
        7,
        vec![OrderItemRequest { food_item_id: item_id, quantity: 2 }],
    ));
    assert_eq!(result.expect_err("no such restaurant"), OrderError::RestaurantNotFound);
    assert_eq!(db.get_orders().len(), 0);
}

#[test]
fn empty_user_store_rejects_every_order() {
    let mut db = Database::empty();
    let restaurant = db.create_restaurant(restaurant_request(299, 0));
    let result = db.create_order(order_request(restaurant.id, vec![]));
    assert_eq!(result.expect_err("no users stored"), OrderError::NoUsersAvailable);
    assert_eq!(db.get_orders().len(), 0);
}

#[test]
fn one_unavailable_item_rejects_the_whole_order() {
    let (mut db, restaurant_id, item_id) = pricing_fixture();
    let mut off_menu = db.create_food_item(item_request("Seasonal Special", 999));
    off_menu.available = false;
    let off_menu_id = off_menu.id;
    db.food_items.insert(off_menu);
    let result = db.create_order(order_request(
        restaurant_id,
        vec![
            OrderItemRequest { food_item_id: item_id, quantity: 2 },
            OrderItemRequest { food_item_id: off_menu_id, quantity: 1 },
        ],
    ));
    let err = result.expect_err("one line is unavailable");
    assert_eq!(err, OrderError::FoodItemUnavailable { name: String::from("Seasonal Special") });
    assert_eq!(err.message(), "Food item Seasonal Special is not available");
    assert_eq!(db.get_orders().len(), 0);
}

#[test]
fn the_first_failing_line_decides_the_error() {
    let (mut db, restaurant_id, item_id) = pricing_fixture();
    let mut off_menu = db.create_food_item(item_request("Gone", 999));
    off_menu.available = false;
    let off_menu_id = off_menu.id;
    db.food_items.insert(off_menu);
    let result = db.create_order(order_request(
        restaurant_id,
        vec![
            OrderItemRequest { food_item_id: off_menu_id, quantity: 1 },
            OrderItemRequest { food_item_id: 42, quantity: 1 },
            OrderItemRequest { food_item_id: item_id, quantity: 2 },
        ],
    ));
    assert_eq!(
        result.expect_err("the first line is unavailable"),
        OrderError::FoodItemUnavailable { name: String::from("Gone") }
    );
}

#[test]
fn totals_sum_every_line_at_stored_prices() {
    let mut db = Database::empty();
    db.create_user(user_request("Buyer"));
    let restaurant = db.create_restaurant(restaurant_request(150, 0));
    let a = db.create_food_item(item_request("A", 1299));
    let b = db.create_food_item(item_request("B", 1499));
    let order = db
        .create_order(order_request(
            restaurant.id,
            vec![
                OrderItemRequest { food_item_id: a.id, quantity: 2 },
                OrderItemRequest { food_item_id: b.id, quantity: 1 },
            ],
        ))
        .expect("no minimum to miss");
    assert_eq!(order.total_amount, 2 * 1299 + 1499 + 150);
}

#[test]
fn a_zero_quantity_line_adds_nothing() {
    let mut db = Database::empty();
    db.create_user(user_request("Buyer"));
    let restaurant = db.create_restaurant(restaurant_request(100, 0));
    let a = db.create_food_item(item_request("A", 1299));
    let order = db
        .create_order(order_request(
            restaurant.id,
            vec![OrderItemRequest { food_item_id: a.id, quantity: 0 }],
        ))
        .expect("zero subtotal meets a zero minimum");
    assert_eq!(order.total_amount, 100);
}

#[test]
fn orders_freeze_prices_against_later_catalog_changes() {
    let mut db = Database::empty();
    db.create_user(user_request("Buyer"));
    let restaurant = db.create_restaurant(restaurant_request(0, 0));
    let a = db.create_food_item(item_request("A", 1000));
    let first = db
        .create_order(order_request(
            restaurant.id,
            vec![OrderItemRequest { food_item_id: a.id, quantity: 1 }],
        ))
        .expect("priced at 10.00");
    let mut repriced = a.clone();
    repriced.price = 2000;
    db.food_items.insert(repriced);
    let second = db
        .create_order(order_request(
            restaurant.id,
            vec![OrderItemRequest { food_item_id: a.id, quantity: 1 }],
        ))
        .expect("priced at 20.00");
    assert_eq!(first.total_amount, 1000);
    assert_eq!(second.total_amount, 2000);
    assert_eq!(db.get_order(first.id).unwrap().total_amount, 1000);
    assert_eq!(db.get_order(first.id).unwrap().items[0].price, 1000);
}

#[test]
fn updating_a_missing_order_fails_and_changes_nothing() {
    let (mut db, restaurant_id, item_id) = pricing_fixture();
    db.create_order(order_request(
        restaurant_id,
        vec![OrderItemRequest { food_item_id: item_id, quantity: 2 }],
    ))
    .expect("a stored order");
    let before: Vec<u128> = db.get_orders().iter().map(|o| o.id).collect();
    let result = db.update_order_status(9999, UpdateOrderStatusRequest {
        status: OrderStatus::Cancelled,
    });
    assert_eq!(result.expect_err("no such order"), OrderError::OrderNotFound);
    let after: Vec<u128> = db.get_orders().iter().map(|o| o.id).collect();
    assert_eq!(before, after);
    assert_eq!(db.get_orders().len(), 1);
}

#[test]
fn a_status_update_touches_nothing_but_the_status() {
    let (mut db, restaurant_id, item_id) = pricing_fixture();
    let order = db
        .create_order(order_request(
            restaurant_id,
            vec![OrderItemRequest { food_item_id: item_id, quantity: 2 }],
        ))
        .expect("a stored order");
    let updated = db
        .update_order_status(order.id, UpdateOrderStatusRequest {
            status: OrderStatus::OutForDelivery,
        })
        .expect("the order exists");
    assert!(matches!(updated.status, OrderStatus::OutForDelivery));
    assert_eq!(updated.id, order.id);
    assert_eq!(updated.total_amount, order.total_amount);
    assert_eq!(updated.items.len(), order.items.len());
    assert_eq!(updated.items[0].price, order.items[0].price);
    assert_eq!(updated.created_at, order.created_at);
    let stored = db.get_order(order.id).expect("still stored");
    assert!(matches!(stored.status, OrderStatus::OutForDelivery));
    assert_eq!(stored.total_amount, order.total_amount);
}

#[test]
fn any_status_may_replace_any_other() {
    let (mut db, restaurant_id, item_id) = pricing_fixture();
    let order = db
        .create_order(order_request(
            restaurant_id,
            vec![OrderItemRequest { food_item_id: item_id, quantity: 2 }],
        ))
        .expect("a stored order");
    for status in [
        OrderStatus::Delivered,
        OrderStatus::Pending,
        OrderStatus::Cancelled,
        OrderStatus::Confirmed,
    ] {
        let updated = db
            .update_order_status(order.id, UpdateOrderStatusRequest { status })
            .expect("the order exists");
        assert_eq!(updated.status, status);
    }
}

#[test]
fn listing_returns_exactly_one_users_orders() {
    let mut db = Database::empty();
    let first_user = db.create_user(user_request("First"));
    let restaurant = db.create_restaurant(restaurant_request(0, 0));
    let a = db.create_food_item(item_request("A", 500));
    let one = db
        .create_order(order_request(
            restaurant.id,
            vec![OrderItemRequest { food_item_id: a.id, quantity: 1 }],
        ))
        .expect("stored");
    let two = db
        .create_order(order_request(
            restaurant.id,
            vec![OrderItemRequest { food_item_id: a.id, quantity: 2 }],
        ))
        .expect("stored");
    assert_eq!(one.user_id, first_user.id);

    let listed = db.get_user_orders(first_user.id);
    assert_eq!(listed.len(), 2);
    assert_eq!(listed[0].id, one.id);
    assert_eq!(listed[1].id, two.id);
    assert!(listed.iter().all(|o| o.user_id == first_user.id));

    let nobody = db.get_user_orders(123456789);
    assert!(nobody.is_empty());
}

#[test]
fn orders_attach_to_the_first_stored_user() {
    let mut db = Database::empty();
    let first = db.create_user(user_request("First"));
    let second = db.create_user(user_request("Second"));
    let restaurant = db.create_restaurant(restaurant_request(0, 0));
    let a = db.create_food_item(item_request("A", 500));
    let order = db
        .create_order(order_request(
            restaurant.id,
            vec![OrderItemRequest { food_item_id: a.id, quantity: 1 }],
        ))
        .expect("stored");
    assert_eq!(order.user_id, first.id);
    assert_ne!(order.user_id, second.id);
    assert_eq!(db.get_user_orders(second.id).len(), 0);
}
