use food_delivery::db::Database;
use food_delivery::errors::OrderError;
use food_delivery::health_check;
use food_delivery::models::{
    CreateFoodItemRequest, CreateRestaurantRequest, CreateUserRequest, Order, OrderItem,
    OrderStatus,
};
use food_delivery::money::{dec_string, format_cents};

fn item_request(name: &str, price: u64) -> CreateFoodItemRequest {
    CreateFoodItemRequest {
        name: String::from(name),
        description: String::from("An item for tests"),
        price,
        category: String::from("Test"),
        image_url: Some(String::from("https://example.com/item.jpg")),
    }
}

#[test]
fn the_liveness_probe_is_fixed() {
    assert_eq!(health_check(), "Food Delivery API is running! 🚀");
}

#[test]
fn the_seeded_store_matches_the_samples() {
    let db = Database::new();
    assert_eq!(db.get_users().len(), 1);
    assert_eq!(db.get_users()[0].name, "John Doe");
    assert_eq!(db.get_users()[0].email, "john@example.com");
    assert_eq!(db.get_restaurants().len(), 1);
    let restaurant = &db.get_restaurants()[0];
    assert_eq!(restaurant.name, "Pizza Palace");
    assert_eq!(restaurant.delivery_fee, 299);
    assert_eq!(restaurant.minimum_order, 1500);
    assert_eq!(restaurant.delivery_time, "30-45 mins");
    assert_eq!(restaurant.rating, 0);
    assert_eq!(db.get_orders().len(), 0);
    let items = db.get_food_items();
    assert!(items.len() == 1 || items.len() == 2);
    assert!(items.iter().all(|f| f.available));
    assert_eq!(items.last().unwrap().name, "Spaghetti Carbonara");
    assert_eq!(items.last().unwrap().price, 1499);
    if items.len() == 2 {
        assert_eq!(items[0].name, "Margherita Pizza");
        assert_eq!(items[0].price, 1299);
        assert_eq!(items[0].category, "Pizza");
    }
}

#[test]
fn created_food_items_are_stored_and_retrievable() {
    let mut db = Database::empty();
    let item = db.create_food_item(item_request("Dumplings", 850));
    assert!(item.available);
    assert_eq!(item.price, 850);
    assert_eq!(item.name, "Dumplings");
    let stored = db.get_food_item(item.id).expect("stored under its id");
    assert_eq!(stored.name, "Dumplings");
    assert_eq!(stored.price, 850);
    assert_eq!(db.get_food_items().len(), 1);
    assert!(db.get_food_item(item.id + 1).is_none());
}

#[test]
fn deleting_a_food_item_reports_whether_it_was_there() {
    let mut db = Database::empty();
    let item = db.create_food_item(item_request("Dumplings", 850));
    assert!(db.delete_food_item(item.id));
    assert!(db.get_food_item(item.id).is_none());
    assert_eq!(db.get_food_items().len(), 0);
    assert!(!db.delete_food_item(item.id));
}

#[test]
fn created_restaurants_are_stored_and_retrievable() {
    let mut db = Database::empty();
    let restaurant = db.create_restaurant(CreateRestaurantRequest {
        name: String::from("Noodle Bar"),
        description: String::from("Noodles"),
        address: String::from("5 Test Lane"),
        phone: String::from("5550002"),
        delivery_time: String::from("20-30 mins"),
        delivery_fee: 199,
        minimum_order: 1000,
        image_url: None,
    });
    assert_eq!(restaurant.rating, 0);
    let stored = db.get_restaurant(restaurant.id).expect("stored under its id");
    assert_eq!(stored.name, "Noodle Bar");
    assert_eq!(stored.delivery_fee, 199);
    assert_eq!(stored.minimum_order, 1000);
    assert_eq!(db.get_restaurants().len(), 1);
    assert!(db.get_restaurant(restaurant.id + 1).is_none());
}

#[test]
fn the_menu_is_every_stored_item_for_any_restaurant() {
    let mut db = Database::empty();
    db.create_food_item(item_request("A", 100));
    db.create_food_item(item_request("B", 200));
    let menu = db.get_restaurant_menu(31337);
    assert_eq!(menu.len(), 2);
    let names: Vec<&str> = menu.iter().map(|f| f.name.as_str()).collect();
    assert_eq!(names, vec!["A", "B"]);
}

#[test]
fn created_users_are_stored() {
    let mut db = Database::empty();
    let user = db.create_user(CreateUserRequest {
        name: String::from("Someone"),
        email: String::from("someone@example.com"),
        phone: String::from("5550003"),
        address: String::from("6 Test Lane"),
    });
    assert_eq!(user.name, "Someone");
    assert_eq!(db.get_users().len(), 1);
    assert_eq!(db.get_users()[0].id, user.id);
}

#[test]
fn a_directly_built_order_totals_its_lines_without_a_fee() {
    let items = vec![
        OrderItem { food_item_id: 1, quantity: 2, price: 1299, name: String::from("A") },
        OrderItem { food_item_id: 2, quantity: 1, price: 1499, name: String::from("B") },
    ];
    let order = Order::new(
        7,
        9,
        items,
        String::from("3 Test Lane"),
        Some(String::from("ring twice")),
    );
    assert_eq!(order.total_amount, 2 * 1299 + 1499);
    assert_eq!(order.user_id, 7);
    assert_eq!(order.restaurant_id, 9);
    assert!(matches!(order.status, OrderStatus::Pending));
    assert_eq!(order.created_at, order.updated_at);
    assert_eq!(order.notes.as_deref(), Some("ring twice"));
    assert_eq!(order.items.len(), 2);
}

#[test]
fn amounts_render_with_exactly_two_decimal_places() {
    assert_eq!(format_cents(1500), "15.00");
    assert_eq!(format_cents(2897), "28.97");
    assert_eq!(format_cents(0), "0.00");
    assert_eq!(format_cents(5), "0.05");
    assert_eq!(format_cents(50), "0.50");
    assert_eq!(format_cents(100), "1.00");
    assert_eq!(format_cents(123456), "1234.56");
}

#[test]
fn integers_render_in_decimal() {
    assert_eq!(dec_string(0), "0");
    assert_eq!(dec_string(7), "7");
    assert_eq!(dec_string(10), "10");
    assert_eq!(dec_string(12345), "12345");
    assert_eq!(dec_string(u128::MAX), u128::MAX.to_string());
}

#[test]
fn every_error_has_its_message() {
    assert_eq!(OrderError::NoUsersAvailable.message(), "No users found");
    assert_eq!(OrderError::RestaurantNotFound.message(), "Restaurant not found");
    assert_eq!(
        OrderError::FoodItemNotFound { food_item_id: 42 }.message(),
        "Food item 42 not found"
    );
    assert_eq!(
        OrderError::FoodItemUnavailable { name: String::from("Soup") }.message(),
        "Food item Soup is not available"
    );
    assert_eq!(
        OrderError::BelowMinimumOrder { minimum: 1500 }.message(),
        "Minimum order amount is $15.00"
    );
    assert_eq!(OrderError::OrderNotFound.message(), "Order not found");
}

#[test]
fn every_status_has_its_label() {
    assert_eq!(OrderStatus::Pending.label(), "pending");
    assert_eq!(OrderStatus::Confirmed.label(), "confirmed");
    assert_eq!(OrderStatus::Preparing.label(), "preparing");
    assert_eq!(OrderStatus::OutForDelivery.label(), "out_for_delivery");
    assert_eq!(OrderStatus::Delivered.label(), "delivered");
    assert_eq!(OrderStatus::Cancelled.label(), "cancelled");
}
