//! The entity store: one keyed table per entity kind, with the plain
//! create/read/delete operations the API exposes over them. The order
//! workflow itself lives in the orders module.
use vstd::prelude::*;

use crate::models::{
    CreateFoodItemRequest, CreateRestaurantRequest, CreateUserRequest, FoodItem, Order, Restaurant,
    User,
};
use crate::table::{has_key, key_index, Table};

verus! {

/// In-memory store of every entity kind, each table keyed by entity id.
pub struct Database {
    pub food_items: Table<FoodItem>,
    pub restaurants: Table<Restaurant>,
    pub orders: Table<Order>,
    pub users: Table<User>,
}

/// The first sample food item the seeded store carries.
pub open spec fn sample_margherita(f: FoodItem) -> bool {
    &&& f.name@ == "Margherita Pizza"@
    &&& f.description@ == "Classic tomato and mozzarella"@
    &&& f.price == 1299
    &&& f.category@ == "Pizza"@
    &&& f.available
    &&& f.image_url matches Some(u) && u@ == "https://example.com/margherita.jpg"@
}

/// The second sample food item the seeded store carries.
pub open spec fn sample_carbonara(f: FoodItem) -> bool {
    &&& f.name@ == "Spaghetti Carbonara"@
    &&& f.description@ == "Creamy pasta with bacon"@
    &&& f.price == 1499
    &&& f.category@ == "Pasta"@
    &&& f.available
    &&& f.image_url matches Some(u) && u@ == "https://example.com/carbonara.jpg"@
}

impl Database {
    /// Every table keeps its keys distinct.
    pub open spec fn wf(self) -> bool {
        &&& self.food_items.wf()
        &&& self.restaurants.wf()
        &&& self.orders.wf()
        &&& self.users.wf()
    }

    /// A store with nothing in it.
    pub fn empty() -> (d: Self)
        ensures
            d.wf(),
            d.food_items.rows@ == Seq::<FoodItem>::empty(),
            d.restaurants.rows@ == Seq::<Restaurant>::empty(),
            d.orders.rows@ == Seq::<Order>::empty(),
            d.users.rows@ == Seq::<User>::empty(),
    {
        Database {
            food_items: Table::new(),
            restaurants: Table::new(),
            orders: Table::new(),
            users: Table::new(),
        }
    }

    /// A store seeded with one sample user, one sample restaurant and two
    /// sample food items. Identifiers are freshly generated, so the two
    /// food items collapse to one row only in the vanishing case that
    /// their identifiers collide.
    pub fn new() -> (d: Self)
        ensures
            d.wf(),
            d.orders.rows@.len() == 0,
            d.users.rows@.len() == 1,
            d.users.rows@[0].name@ == "John Doe"@,
            d.users.rows@[0].email@ == "john@example.com"@,
            d.users.rows@[0].phone@ == "1234567890"@,
            d.users.rows@[0].address@ == "123 Main St"@,
            d.restaurants.rows@.len() == 1,
            d.restaurants.rows@[0].name@ == "Pizza Palace"@,
            d.restaurants.rows@[0].description@ == "Best pizza in town"@,
            d.restaurants.rows@[0].address@ == "456 Food Street"@,
            d.restaurants.rows@[0].phone@ == "9876543210"@,
            d.restaurants.rows@[0].rating == 0,
            d.restaurants.rows@[0].delivery_fee == 299,
            d.restaurants.rows@[0].minimum_order == 1500,
            d.restaurants.rows@[0].delivery_time@ == "30-45 mins"@,
            d.restaurants.rows@[0].image_url matches Some(u) && u@
                == "https://example.com/pizza.jpg"@,
            1 <= d.food_items.rows@.len() <= 2,
            forall|i: int|
                0 <= i < d.food_items.rows@.len() ==> sample_margherita(#[trigger] d.food_items.rows@[i])
                    || sample_carbonara(d.food_items.rows@[i]),
            sample_carbonara(d.food_items.rows@[d.food_items.rows@.len() - 1]),
            d.food_items.rows@.len() == 2 ==> sample_margherita(d.food_items.rows@[0]),
    {
        let mut d = Database::empty();

        let user = User::new(
            String::from_str("John Doe"),
            String::from_str("john@example.com"),
            String::from_str("1234567890"),
            String::from_str("123 Main St"),
        );
        d.users.insert(user);

        let restaurant = Restaurant::new(
            String::from_str("Pizza Palace"),
            String::from_str("Best pizza in town"),
            String::from_str("456 Food Street"),
            String::from_str("9876543210"),
            String::from_str("30-45 mins"),
            299,
            1500,
            Some(String::from_str("https://example.com/pizza.jpg")),
        );
        d.restaurants.insert(restaurant);

        let pizza = FoodItem::new(
            String::from_str("Margherita Pizza"),
            String::from_str("Classic tomato and mozzarella"),
            1299,
            String::from_str("Pizza"),
            Some(String::from_str("https://example.com/margherita.jpg")),
        );
        d.food_items.insert(pizza);

        let pasta = FoodItem::new(
            String::from_str("Spaghetti Carbonara"),
            String::from_str("Creamy pasta with bacon"),
            1499,
            String::from_str("Pasta"),
            Some(String::from_str("https://example.com/carbonara.jpg")),
        );
        d.food_items.insert(pasta);

        d
    }

    // ========== FOOD ITEMS ==========

    /// Every stored food item, in insertion order.
    pub fn get_food_items(&self) -> (r: &Vec<FoodItem>)
        ensures
            r@ == self.food_items.rows@,
    {
        &self.food_items.rows
    }

    /// The food item stored under `id`, if any.
    pub fn get_food_item(&self, id: u128) -> (r: Option<&FoodItem>)
        requires
            self.wf(),
        ensures
            match r {
                Some(f) => has_key(self.food_items.rows@, id) && *f == self.food_items.rows@[
                    key_index(self.food_items.rows@, id)
                ] && f.id == id,
                None => !has_key(self.food_items.rows@, id),
            },
    {
        self.food_items.get(id)
    }

    /// Create a food item from the request and store it under its fresh id.
    pub fn create_food_item(&mut self, req: CreateFoodItemRequest) -> (r: FoodItem)
        requires
            old(self).wf(),
        ensures
            final(self).wf(),
            final(self).restaurants == old(self).restaurants,
            final(self).orders == old(self).orders,
            final(self).users == old(self).users,
            r.name == req.name,
            r.description == req.description,
            r.price == req.price,
            r.category == req.category,
            r.available,
            r.image_url == req.image_url,
            has_key(old(self).food_items.rows@, r.id) ==> final(self).food_items.rows@ == old(
                self,
            ).food_items.rows@.update(key_index(old(self).food_items.rows@, r.id), r),
            !has_key(old(self).food_items.rows@, r.id) ==> final(self).food_items.rows@ == old(
                self,
            ).food_items.rows@.push(r),
    {
        let item = FoodItem::new(req.name, req.description, req.price, req.category, req.image_url);
        let stored = item.clone();
        self.food_items.insert(stored);
        item
    }

    /// Drop the food item stored under `id`; reports whether one was there.
    pub fn delete_food_item(&mut self, id: u128) -> (r: bool)
        requires
            old(self).wf(),
        ensures
            final(self).wf(),
            final(self).restaurants == old(self).restaurants,
            final(self).orders == old(self).orders,
            final(self).users == old(self).users,
            r == has_key(old(self).food_items.rows@, id),
            r ==> final(self).food_items.rows@ == old(self).food_items.rows@.remove(
                key_index(old(self).food_items.rows@, id),
            ),
            !r ==> final(self).food_items.rows@ == old(self).food_items.rows@,
    {
        self.food_items.remove(id)
    }

    // ========== RESTAURANTS ==========

    /// Every stored restaurant, in insertion order.
    pub fn get_restaurants(&self) -> (r: &Vec<Restaurant>)
        ensures
            r@ == self.restaurants.rows@,
    {
        &self.restaurants.rows
    }

    /// The restaurant stored under `id`, if any.
    pub fn get_restaurant(&self, id: u128) -> (r: Option<&Restaurant>)
        requires
            self.wf(),
        ensures
            match r {
                Some(t) => has_key(self.restaurants.rows@, id) && *t == self.restaurants.rows@[
                    key_index(self.restaurants.rows@, id)
                ] && t.id == id,
                None => !has_key(self.restaurants.rows@, id),
            },
    {
        self.restaurants.get(id)
    }

    /// Create a restaurant from the request and store it under its fresh id.
    pub fn create_restaurant(&mut self, req: CreateRestaurantRequest) -> (r: Restaurant)
        requires
            old(self).wf(),
        ensures
            final(self).wf(),
            final(self).food_items == old(self).food_items,
            final(self).orders == old(self).orders,
            final(self).users == old(self).users,
            r.name == req.name,
            r.description == req.description,
            r.address == req.address,
            r.phone == req.phone,
            r.rating == 0,
            r.delivery_time == req.delivery_time,
            r.delivery_fee == req.delivery_fee,
            r.minimum_order == req.minimum_order,
            r.image_url == req.image_url,
            has_key(old(self).restaurants.rows@, r.id) ==> final(self).restaurants.rows@ == old(
                self,
            ).restaurants.rows@.update(key_index(old(self).restaurants.rows@, r.id), r),
            !has_key(old(self).restaurants.rows@, r.id) ==> final(self).restaurants.rows@ == old(
                self,
            ).restaurants.rows@.push(r),
    {
        let restaurant = Restaurant::new(
            req.name,
            req.description,
            req.address,
            req.phone,
            req.delivery_time,
            req.delivery_fee,
            req.minimum_order,
            req.image_url,
        );
        let stored = restaurant.clone();
        self.restaurants.insert(stored);
        restaurant
    }

    /// The menu shown for a restaurant. Menu filtering is not in scope,
    /// so this is every stored food item whatever the restaurant.
    pub fn get_restaurant_menu(&self, _restaurant_id: u128) -> (r: &Vec<FoodItem>)
        ensures
            r@ == self.food_items.rows@,
    {
        &self.food_items.rows
    }

    // ========== ORDERS ==========

    /// Every stored order, in insertion order.
    pub fn get_orders(&self) -> (r: &Vec<Order>)
        ensures
            r@ == self.orders.rows@,
    {
        &self.orders.rows
    }

    /// The order stored under `id`, if any.
    pub fn get_order(&self, id: u128) -> (r: Option<&Order>)
        requires
            self.wf(),
        ensures
            match r {
                Some(o) => has_key(self.orders.rows@, id) && *o == self.orders.rows@[
                    key_index(self.orders.rows@, id)
                ] && o.id == id,
                None => !has_key(self.orders.rows@, id),
            },
    {
        self.orders.get(id)
    }

    // ========== USERS ==========

    /// Every stored user, in insertion order.
    pub fn get_users(&self) -> (r: &Vec<User>)
        ensures
            r@ == self.users.rows@,
    {
        &self.users.rows
    }

    /// Create a user from the request and store it under its fresh id.
    pub fn create_user(&mut self, req: CreateUserRequest) -> (r: User)
        requires
            old(self).wf(),
        ensures
            final(self).wf(),
            final(self).food_items == old(self).food_items,
            final(self).restaurants == old(self).restaurants,
            final(self).orders == old(self).orders,
            r.name == req.name,
            r.email == req.email,
            r.phone == req.phone,
            r.address == req.address,
            has_key(old(self).users.rows@, r.id) ==> final(self).users.rows@ == old(
                self,
            ).users.rows@.update(key_index(old(self).users.rows@, r.id), r),
            !has_key(old(self).users.rows@, r.id) ==> final(self).users.rows@ == old(
                self,
            ).users.rows@.push(r),
    {
        let user = User::new(req.name, req.email, req.phone, req.address);
        let stored = user.clone();
        self.users.insert(stored);
        user
    }
}

} // verus!
