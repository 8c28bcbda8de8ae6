//! Domain entities and the request shapes the API accepts. Prices, fees
//! and minimums are whole cents; identifiers are 128-bit values produced
//! by the constructors; timestamps are milliseconds since the epoch.
use vstd::prelude::*;

use crate::fresh::{fresh_id, now_millis};
use crate::table::Keyed;

verus! {

// ========== FOOD ITEM ==========

#[derive(Debug)]
pub struct FoodItem {
    pub id: u128,
    pub name: String,
    pub description: String,
    /// Price in cents.
    pub price: u64,
    pub category: String,
    pub available: bool,
    pub image_url: Option<String>,
    pub created_at: i64,
    pub updated_at: i64,
}

impl Keyed for FoodItem {
    open spec fn key(&self) -> u128 {
        self.id
    }

    fn key_exec(&self) -> u128 {
        self.id
    }
}

impl FoodItem {
    /// A newly created item is available and carries equal creation and
    /// update timestamps.
    pub fn new(
        name: String,
        description: String,
        price: u64,
        category: String,
        image_url: Option<String>,
    ) -> (r: Self)
        ensures
            r.name == name,
            r.description == description,
            r.price == price,
            r.category == category,
            r.available,
            r.image_url == image_url,
            r.created_at == r.updated_at,
    {
        let now = now_millis();
        FoodItem {
            id: fresh_id(),
            name,
            description,
            price,
            category,
            available: true,
            image_url,
            created_at: now,
            updated_at: now,
        }
    }
}

impl Clone for FoodItem {
    fn clone(&self) -> (r: Self)
        ensures
            r == *self,
    {
        FoodItem {
            id: self.id,
            name: self.name.clone(),
            description: self.description.clone(),
            price: self.price,
            category: self.category.clone(),
            available: self.available,
            image_url: match &self.image_url {
                Some(u) => Some(u.clone()),
                None => None,
            },
            created_at: self.created_at,
            updated_at: self.updated_at,
        }
    }
}

// ========== RESTAURANT ==========

#[derive(Debug)]
pub struct Restaurant {
    pub id: u128,
    pub name: String,
    pub description: String,
    pub address: String,
    pub phone: String,
    /// Rating; zero until ratings exist.
    pub rating: u32,
    /// Free-text delivery estimate, e.g. "30-45 mins".
    pub delivery_time: String,
    /// Delivery fee in cents.
    pub delivery_fee: u64,
    /// Minimum order amount in cents, before the delivery fee.
    pub minimum_order: u64,
    pub image_url: Option<String>,
    pub created_at: i64,
    pub updated_at: i64,
}

impl Keyed for Restaurant {
    open spec fn key(&self) -> u128 {
        self.id
    }

    fn key_exec(&self) -> u128 {
        self.id
    }
}

impl Restaurant {
    /// A newly created restaurant starts with rating zero and equal
    /// creation and update timestamps.
    pub fn new(
        name: String,
        description: String,
        address: String,
        phone: String,
        delivery_time: String,
        delivery_fee: u64,
        minimum_order: u64,
        image_url: Option<String>,
    ) -> (r: Self)
        ensures
            r.name == name,
            r.description == description,
            r.address == address,
            r.phone == phone,
            r.rating == 0,
            r.delivery_time == delivery_time,
            r.delivery_fee == delivery_fee,
            r.minimum_order == minimum_order,
            r.image_url == image_url,
            r.created_at == r.updated_at,
    {
        let now = now_millis();
        Restaurant {
            id: fresh_id(),
            name,
            description,
            address,
            phone,
            rating: 0,
            delivery_time,
            delivery_fee,
            minimum_order,
            image_url,
            created_at: now,
            updated_at: now,
        }
    }
}

impl Clone for Restaurant {
    fn clone(&self) -> (r: Self)
        ensures
            r == *self,
    {
        Restaurant {
            id: self.id,
            name: self.name.clone(),
            description: self.description.clone(),
            address: self.address.clone(),
            phone: self.phone.clone(),
            rating: self.rating,
            delivery_time: self.delivery_time.clone(),
            delivery_fee: self.delivery_fee,
            minimum_order: self.minimum_order,
            image_url: match &self.image_url {
                Some(u) => Some(u.clone()),
                None => None,
            },
            created_at: self.created_at,
            updated_at: self.updated_at,
        }
    }
}

// ========== USER ==========

#[derive(Debug)]
pub struct User {
    pub id: u128,
    pub name: String,
    pub email: String,
    pub phone: String,
    pub address: String,
    pub created_at: i64,
    pub updated_at: i64,
}

impl Keyed for User {
    open spec fn key(&self) -> u128 {
        self.id
    }

    fn key_exec(&self) -> u128 {
        self.id
    }
}

impl User {
    pub fn new(name: String, email: String, phone: String, address: String) -> (r: Self)
        ensures
            r.name == name,
            r.email == email,
            r.phone == phone,
            r.address == address,
            r.created_at == r.updated_at,
    {
        let now = now_millis();
        User { id: fresh_id(), name, email, phone, address, created_at: now, updated_at: now }
    }
}

impl Clone for User {
    fn clone(&self) -> (r: Self)
        ensures
            r == *self,
    {
        User {
            id: self.id,
            name: self.name.clone(),
            email: self.email.clone(),
            phone: self.phone.clone(),
            address: self.address.clone(),
            created_at: self.created_at,
            updated_at: self.updated_at,
        }
    }
}

// ========== ORDER STATUS ==========

#[derive(Clone, Copy, PartialEq, Eq, Structural, Debug)]
pub enum OrderStatus {
    Pending,
    Confirmed,
    Preparing,
    OutForDelivery,
    Delivered,
    Cancelled,
}

/// The wire label of each status.
pub open spec fn status_label(s: OrderStatus) -> Seq<char> {
    match s {
        OrderStatus::Pending => "pending"@,
        OrderStatus::Confirmed => "confirmed"@,
        OrderStatus::Preparing => "preparing"@,
        OrderStatus::OutForDelivery => "out_for_delivery"@,
        OrderStatus::Delivered => "delivered"@,
        OrderStatus::Cancelled => "cancelled"@,
    }
}

impl OrderStatus {
    /// The lower-case wire label of this status.
    pub fn label(&self) -> (r: String)
        ensures
            r@ == status_label(*self),
    {
        match self {
            OrderStatus::Pending => String::from_str("pending"),
            OrderStatus::Confirmed => String::from_str("confirmed"),
            OrderStatus::Preparing => String::from_str("preparing"),
            OrderStatus::OutForDelivery => String::from_str("out_for_delivery"),
            OrderStatus::Delivered => String::from_str("delivered"),
            OrderStatus::Cancelled => String::from_str("cancelled"),
        }
    }
}

// ========== ORDER ==========

/// A line of an order: the referenced item, the quantity asked for, and a
/// snapshot of the item's price and name at creation time.
#[derive(Debug)]
pub struct OrderItem {
    pub food_item_id: u128,
    pub quantity: u32,
    /// Price in cents at the time the order was created.
    pub price: u64,
    pub name: String,
}

impl Clone for OrderItem {
    fn clone(&self) -> (r: Self)
        ensures
            r == *self,
    {
        OrderItem {
            food_item_id: self.food_item_id,
            quantity: self.quantity,
            price: self.price,
            name: self.name.clone(),
        }
    }
}

/// The sum of `price * quantity` over the lines, in cents.
pub open spec fn items_subtotal(items: Seq<OrderItem>) -> int
    decreases items.len(),
{
    if items.len() == 0 {
        0
    } else {
        items_subtotal(items.drop_last()) + items.last().price * items.last().quantity
    }
}

pub proof fn lemma_items_subtotal_nonneg(items: Seq<OrderItem>)
    ensures
        items_subtotal(items) >= 0,
    decreases items.len(),
{
    if items.len() > 0 {
        lemma_items_subtotal_nonneg(items.drop_last());
        let p = items.last().price;
        let q = items.last().quantity;
        assert(p * q >= 0) by (nonlinear_arith)
            requires
                p >= 0,
                q >= 0,
        ;
    }
}

/// The subtotal of a prefix never exceeds the subtotal of the whole.
pub proof fn lemma_items_subtotal_prefix(items: Seq<OrderItem>, n: int)
    requires
        0 <= n <= items.len(),
    ensures
        items_subtotal(items.subrange(0, n)) <= items_subtotal(items),
    decreases items.len() - n,
{
    if n == items.len() {
        assert(items.subrange(0, n) =~= items);
    } else {
        lemma_items_subtotal_prefix(items, n + 1);
        let s = items.subrange(0, n + 1);
        assert(s.drop_last() =~= items.subrange(0, n));
        let p = items[n].price;
        let q = items[n].quantity;
        assert(p * q >= 0) by (nonlinear_arith)
            requires
                p >= 0,
                q >= 0,
        ;
    }
}

#[derive(Debug)]
pub struct Order {
    pub id: u128,
    pub user_id: u128,
    pub restaurant_id: u128,
    pub items: Vec<OrderItem>,
    /// Total in cents, frozen at creation.
    pub total_amount: u64,
    pub delivery_address: String,
    pub status: OrderStatus,
    pub notes: Option<String>,
    pub created_at: i64,
    pub updated_at: i64,
}

impl Keyed for Order {
    open spec fn key(&self) -> u128 {
        self.id
    }

    fn key_exec(&self) -> u128 {
        self.id
    }
}

/// Field-for-field agreement of two orders, with the lines compared as
/// sequences. This is what a clone of an order preserves.
pub open spec fn same_order(a: Order, b: Order) -> bool {
    &&& a.id == b.id
    &&& a.user_id == b.user_id
    &&& a.restaurant_id == b.restaurant_id
    &&& a.items@ == b.items@
    &&& a.total_amount == b.total_amount
    &&& a.delivery_address == b.delivery_address
    &&& a.status == b.status
    &&& a.notes == b.notes
    &&& a.created_at == b.created_at
    &&& a.updated_at == b.updated_at
}

impl Clone for Order {
    fn clone(&self) -> (r: Self)
        ensures
            same_order(r, *self),
    {
        let r = Order {
            id: self.id,
            user_id: self.user_id,
            restaurant_id: self.restaurant_id,
            items: self.items.clone(),
            total_amount: self.total_amount,
            delivery_address: self.delivery_address.clone(),
            status: self.status,
            notes: match &self.notes {
                Some(n) => Some(n.clone()),
                None => None,
            },
            created_at: self.created_at,
            updated_at: self.updated_at,
        };
        proof {
            assert forall|i: int| 0 <= i < self.items@.len() implies r.items@[i]
                == self.items@[i] by {
                assert(vstd::pervasive::cloned::<OrderItem>(self.items@[i], r.items@[i]));
            }
            assert(r.items@ =~= self.items@);
        }
        r
    }
}

/// Sum the lines' `price * quantity` in cents; exact when the total fits.
pub fn sum_items(items: &Vec<OrderItem>) -> (s: u64)
    requires
        items_subtotal(items@) <= u64::MAX,
    ensures
        s == items_subtotal(items@),
{
    let mut s: u64 = 0;
    let n = items.len();
    let mut i: usize = 0;
    proof {
        assert(items@.subrange(0, 0) =~= Seq::<OrderItem>::empty());
    }
    while i < n
        invariant
            n == items@.len(),
            i <= n,
            items_subtotal(items@) <= u64::MAX,
            s == items_subtotal(items@.subrange(0, i as int)),
        decreases n - i,
    {
        proof {
            let pre = items@.subrange(0, i as int);
            let post = items@.subrange(0, i as int + 1);
            assert(post.drop_last() =~= pre);
            lemma_items_subtotal_prefix(items@, i as int + 1);
            lemma_items_subtotal_nonneg(pre);
            let p = items@[i as int].price;
            let q = items@[i as int].quantity;
            assert(p * q >= 0) by (nonlinear_arith)
                requires
                    p >= 0,
                    q >= 0,
            ;
        }
        let line: u64 = items[i].price * (items[i].quantity as u64);
        s = s + line;
        i = i + 1;
    }
    proof {
        assert(items@.subrange(0, n as int) =~= items@);
    }
    s
}

impl Order {
    /// A fresh pending order over already-priced lines; the total is the
    /// lines' subtotal. The caller owes that the subtotal fits in cents.
    pub fn new(
        user_id: u128,
        restaurant_id: u128,
        items: Vec<OrderItem>,
        delivery_address: String,
        notes: Option<String>,
    ) -> (r: Self)
        requires
            items_subtotal(items@) <= u64::MAX,
        ensures
            r.user_id == user_id,
            r.restaurant_id == restaurant_id,
            r.items@ == items@,
            r.total_amount == items_subtotal(items@),
            r.delivery_address == delivery_address,
            r.status == OrderStatus::Pending,
            r.notes == notes,
            r.created_at == r.updated_at,
    {
        let now = now_millis();
        let total_amount = sum_items(&items);
        Order {
            id: fresh_id(),
            user_id,
            restaurant_id,
            items,
            total_amount,
            delivery_address,
            status: OrderStatus::Pending,
            notes,
            created_at: now,
            updated_at: now,
        }
    }
}

// ========== REQUESTS ==========

#[derive(Clone, Copy)]
pub struct OrderItemRequest {
    pub food_item_id: u128,
    pub quantity: u32,
}

pub struct CreateOrderRequest {
    pub restaurant_id: u128,
    pub items: Vec<OrderItemRequest>,
    pub delivery_address: String,
    pub notes: Option<String>,
}

pub struct CreateFoodItemRequest {
    pub name: String,
    pub description: String,
    /// Price in cents.
    pub price: u64,
    pub category: String,
    pub image_url: Option<String>,
}

pub struct CreateRestaurantRequest {
    pub name: String,
    pub description: String,
    pub address: String,
    pub phone: String,
    pub delivery_time: String,
    /// Delivery fee in cents.
    pub delivery_fee: u64,
    /// Minimum order amount in cents.
    pub minimum_order: u64,
    pub image_url: Option<String>,
}

pub struct UpdateOrderStatusRequest {
    pub status: OrderStatus,
}

pub struct CreateUserRequest {
    pub name: String,
    pub email: String,
    pub phone: String,
    pub address: String,
}

} // verus!
