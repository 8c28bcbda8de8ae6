//! The order workflow: validation and pricing of an incoming order
//! request, status transitions on stored orders, and the per-user order
//! listing. All resolution happens before any write, so a rejected
//! request leaves the store exactly as it was.
use vstd::prelude::*;

use crate::db::Database;
use crate::errors::OrderError;
use crate::fresh::{fresh_id, now_millis};
use crate::models::{
    items_subtotal, same_order, CreateOrderRequest, FoodItem, Order, OrderItem, OrderItemRequest,
    OrderStatus, UpdateOrderStatusRequest, sum_items,
};
use crate::table::{has_key, key_index};

verus! {

/// The requested line resolves: the referenced food item is stored and
/// currently available.
pub open spec fn item_ok(foods: Seq<FoodItem>, it: OrderItemRequest) -> bool {
    &&& has_key(foods, it.food_item_id)
    &&& foods[key_index(foods, it.food_item_id)].available
}

/// Every line before `n` resolves.
pub open spec fn items_ok_upto(foods: Seq<FoodItem>, items: Seq<OrderItemRequest>, n: int) -> bool {
    forall|i: int| 0 <= i < n ==> item_ok(foods, #[trigger] items[i])
}

/// Every requested line resolves.
pub open spec fn items_ok(foods: Seq<FoodItem>, items: Seq<OrderItemRequest>) -> bool {
    items_ok_upto(foods, items, items.len() as int)
}

/// `i` is the first line that fails to resolve.
pub open spec fn is_first_bad(foods: Seq<FoodItem>, items: Seq<OrderItemRequest>, i: int) -> bool {
    &&& 0 <= i < items.len()
    &&& items_ok_upto(foods, items, i)
    &&& !item_ok(foods, items[i])
}

/// The index of the first line that fails to resolve, when one does.
pub open spec fn first_bad(foods: Seq<FoodItem>, items: Seq<OrderItemRequest>) -> int {
    choose|i: int| is_first_bad(foods, items, i)
}

/// At most one index is the first bad one.
pub proof fn lemma_first_bad_unique(
    foods: Seq<FoodItem>,
    items: Seq<OrderItemRequest>,
    i: int,
)
    requires
        is_first_bad(foods, items, i),
    ensures
        first_bad(foods, items) == i,
        !items_ok(foods, items),
{
    let j = first_bad(foods, items);
    assert(is_first_bad(foods, items, j));
    if j < i {
        assert(item_ok(foods, items[j]));
    } else if i < j {
        assert(item_ok(foods, items[i]));
    }
    assert(!item_ok(foods, items[i]));
}

/// The price in cents of one requested line, at the stored item's
/// current price.
pub open spec fn line_cents(foods: Seq<FoodItem>, it: OrderItemRequest) -> int {
    foods[key_index(foods, it.food_item_id)].price * it.quantity
}

/// The pre-delivery-fee subtotal of the request, in cents, at the stored
/// items' current prices.
pub open spec fn request_subtotal(foods: Seq<FoodItem>, items: Seq<OrderItemRequest>) -> int
    decreases items.len(),
{
    if items.len() == 0 {
        0
    } else {
        request_subtotal(foods, items.drop_last()) + line_cents(foods, items.last())
    }
}

/// Lines snapshotted at the stored prices sum to the request's subtotal.
proof fn lemma_snapshot_subtotal(
    foods: Seq<FoodItem>,
    items: Seq<OrderItemRequest>,
    snap: Seq<OrderItem>,
)
    requires
        snap.len() == items.len(),
        forall|i: int|
            0 <= i < items.len() ==> (#[trigger] snap[i]).quantity == items[i].quantity
                && snap[i].price == foods[key_index(foods, items[i].food_item_id)].price,
    ensures
        items_subtotal(snap) == request_subtotal(foods, items),
    decreases items.len(),
{
    if items.len() > 0 {
        lemma_snapshot_subtotal(foods, items.drop_last(), snap.drop_last());
    }
}

/// The user, restaurant and every line of the request resolve, so the
/// request can be priced.
pub open spec fn priceable(db: Database, req: CreateOrderRequest) -> bool {
    &&& db.users.rows@.len() > 0
    &&& has_key(db.restaurants.rows@, req.restaurant_id)
    &&& items_ok(db.food_items.rows@, req.items@)
}

impl Database {
    /// Validate and price an order request against the store, and persist
    /// the resulting order.
    ///
    /// The request is resolved against the store in this fixed sequence:
    /// acting user (the first stored user), restaurant, then each line in
    /// request order; a failure anywhere rejects the whole request and
    /// leaves the store untouched. A persisted order freezes each line's
    /// price and name as they were at creation, and its total is the
    /// lines' subtotal plus the restaurant's delivery fee. The caller owes
    /// only that a fully resolvable request's subtotal fits in `u64`
    /// cents, with room for the fee once the subtotal meets the minimum.
    pub fn create_order(&mut self, req: CreateOrderRequest) -> (r: Result<Order, OrderError>)
        requires
            old(self).wf(),
            priceable(*old(self), req) ==> request_subtotal(
                old(self).food_items.rows@,
                req.items@,
            ) <= u64::MAX,
            (priceable(*old(self), req) && request_subtotal(
                old(self).food_items.rows@,
                req.items@,
            ) >= old(self).restaurants.rows@[
                key_index(old(self).restaurants.rows@, req.restaurant_id)
            ].minimum_order) ==> request_subtotal(old(self).food_items.rows@, req.items@) + old(
                self,
            ).restaurants.rows@[
                key_index(old(self).restaurants.rows@, req.restaurant_id)
            ].delivery_fee <= u64::MAX,
        ensures
            final(self).wf(),
            final(self).food_items == old(self).food_items,
            final(self).restaurants == old(self).restaurants,
            final(self).users == old(self).users,
            r is Err ==> *final(self) == *old(self),
            (r == Result::<Order, OrderError>::Err(OrderError::NoUsersAvailable)) <==> old(
                self,
            ).users.rows@.len() == 0,
            (r == Result::<Order, OrderError>::Err(OrderError::RestaurantNotFound)) <==> (old(
                self,
            ).users.rows@.len() > 0 && !has_key(old(self).restaurants.rows@, req.restaurant_id)),
            (old(self).users.rows@.len() > 0 && has_key(old(self).restaurants.rows@, req.restaurant_id)
                && !items_ok(old(self).food_items.rows@, req.items@)) ==> ({
                let foods = old(self).food_items.rows@;
                let bad = req.items@[first_bad(foods, req.items@)];
                if !has_key(foods, bad.food_item_id) {
                    r == Result::<Order, OrderError>::Err(
                        OrderError::FoodItemNotFound { food_item_id: bad.food_item_id },
                    )
                } else {
                    r == Result::<Order, OrderError>::Err(
                        OrderError::FoodItemUnavailable {
                            name: foods[key_index(foods, bad.food_item_id)].name,
                        },
                    )
                }
            }),
            (priceable(*old(self), req) && request_subtotal(old(self).food_items.rows@, req.items@)
                < old(self).restaurants.rows@[
                key_index(old(self).restaurants.rows@, req.restaurant_id)
            ].minimum_order) ==> r == Result::<Order, OrderError>::Err(
                OrderError::BelowMinimumOrder {
                    minimum: old(self).restaurants.rows@[
                        key_index(old(self).restaurants.rows@, req.restaurant_id)
                    ].minimum_order,
                },
            ),
            (r is Ok) <==> (priceable(*old(self), req) && request_subtotal(
                old(self).food_items.rows@,
                req.items@,
            ) >= old(self).restaurants.rows@[
                key_index(old(self).restaurants.rows@, req.restaurant_id)
            ].minimum_order),
            r matches Ok(o) ==> ({
                let foods = old(self).food_items.rows@;
                let items = req.items@;
                let rest = old(self).restaurants.rows@[
                    key_index(old(self).restaurants.rows@, req.restaurant_id)
                ];
                &&& o.user_id == old(self).users.rows@[0].id
                &&& o.restaurant_id == req.restaurant_id
                &&& o.items@.len() == items.len()
                &&& forall|i: int|
                    0 <= i < items.len() ==> {
                        let f = foods[key_index(foods, items[i].food_item_id)];
                        (#[trigger] o.items@[i]).food_item_id == items[i].food_item_id
                            && o.items@[i].quantity == items[i].quantity && o.items@[i].price
                            == f.price && o.items@[i].name == f.name
                    }
                &&& o.total_amount == request_subtotal(foods, items) + rest.delivery_fee
                &&& o.status == OrderStatus::Pending
                &&& o.delivery_address == req.delivery_address
                &&& o.notes == req.notes
                &&& o.created_at == o.updated_at
                &&& ({
                    let orows = old(self).orders.rows@;
                    if has_key(orows, o.id) {
                        exists|w: Order|
                            same_order(w, o) && final(self).orders.rows@ == orows.update(
                                key_index(orows, o.id),
                                w,
                            )
                    } else {
                        exists|w: Order|
                            same_order(w, o) && final(self).orders.rows@ == orows.push(w)
                    }
                })
            }),
    {
        // Resolve the acting user: the first stored user stands in for an
        // authenticated identity.
        if self.users.rows.len() == 0 {
            return Err(OrderError::NoUsersAvailable);
        }
        let user_id = self.users.rows[0].id;

        // Resolve the restaurant and keep its fee and minimum.
        let (delivery_fee, minimum_order) = match self.restaurants.get(req.restaurant_id) {
            Some(rest) => (rest.delivery_fee, rest.minimum_order),
            None => {
                return Err(OrderError::RestaurantNotFound);
            },
        };

        // Resolve every line before touching anything: snapshot price and
        // name of each referenced item.
        let ghost foods = self.food_items.rows@;
        let mut order_items: Vec<OrderItem> = Vec::new();
        let n = req.items.len();
        let mut i: usize = 0;
        #[verifier::loop_isolation(false)]
        while i < n
            invariant
                i <= n,
                items_ok_upto(foods, req.items@, i as int),
                order_items@.len() == i,
                forall|j: int|
                    0 <= j < i ==> {
                        let f = foods[key_index(foods, req.items@[j].food_item_id)];
                        (#[trigger] order_items@[j]).food_item_id == req.items@[j].food_item_id
                            && order_items@[j].quantity == req.items@[j].quantity
                            && order_items@[j].price == f.price && order_items@[j].name == f.name
                    },
            decreases n - i,
        {
            let line = req.items[i];
            match self.food_items.get(line.food_item_id) {
                None => {
                    proof {
                        lemma_first_bad_unique(foods, req.items@, i as int);
                    }
                    return Err(OrderError::FoodItemNotFound { food_item_id: line.food_item_id });
                },
                Some(f) => {
                    if !f.available {
                        proof {
                            lemma_first_bad_unique(foods, req.items@, i as int);
                        }
                        return Err(OrderError::FoodItemUnavailable { name: f.name.clone() });
                    }
                    order_items.push(
                        OrderItem {
                            food_item_id: line.food_item_id,
                            quantity: line.quantity,
                            price: f.price,
                            name: f.name.clone(),
                        },
                    );
                },
            }
            i = i + 1;
        }
        proof {
            lemma_snapshot_subtotal(foods, req.items@, order_items@);
        }

        // Price the request and hold it to the restaurant's minimum.
        let subtotal = sum_items(&order_items);
        if subtotal < minimum_order {
            return Err(OrderError::BelowMinimumOrder { minimum: minimum_order });
        }
        let total_amount = subtotal + delivery_fee;

        // Persist the order; this is the only write of the workflow.
        let now = now_millis();
        let order = Order {
            id: fresh_id(),
            user_id,
            restaurant_id: req.restaurant_id,
            items: order_items,
            total_amount,
            delivery_address: req.delivery_address,
            status: OrderStatus::Pending,
            notes: req.notes,
            created_at: now,
            updated_at: now,
        };
        let result = order.clone();
        let ghost w = order;
        self.orders.insert(order);
        proof {
            assert(same_order(w, result));
        }
        Ok(result)
    }

    /// Overwrite the status of the order stored under `id` and refresh its
    /// update timestamp; everything else about the order, and every other
    /// table, stays as it was. Any status may replace any other.
    pub fn update_order_status(&mut self, id: u128, req: UpdateOrderStatusRequest) -> (r: Result<
        Order,
        OrderError,
    >)
        requires
            old(self).wf(),
        ensures
            final(self).wf(),
            final(self).food_items == old(self).food_items,
            final(self).restaurants == old(self).restaurants,
            final(self).users == old(self).users,
            !has_key(old(self).orders.rows@, id) ==> r == Result::<Order, OrderError>::Err(
                OrderError::OrderNotFound,
            ) && *final(self) == *old(self),
            has_key(old(self).orders.rows@, id) ==> ({
                let orows = old(self).orders.rows@;
                let prev = orows[key_index(orows, id)];
                &&& r matches Ok(o) && {
                    &&& o.id == id
                    &&& o.user_id == prev.user_id
                    &&& o.restaurant_id == prev.restaurant_id
                    &&& o.items@ == prev.items@
                    &&& o.total_amount == prev.total_amount
                    &&& o.delivery_address == prev.delivery_address
                    &&& o.status == req.status
                    &&& o.notes == prev.notes
                    &&& o.created_at == prev.created_at
                    &&& exists|w: Order|
                        same_order(w, o) && final(self).orders.rows@ == orows.update(
                            key_index(orows, id),
                            w,
                        )
                }
            }),
    {
        let updated = match self.orders.get(id) {
            None => {
                return Err(OrderError::OrderNotFound);
            },
            Some(prev) => {
                let mut updated = prev.clone();
                updated.status = req.status;
                updated.updated_at = now_millis();
                updated
            },
        };
        let result = updated.clone();
        let ghost w = updated;
        self.orders.insert(updated);
        proof {
            let orows = old(self).orders.rows@;
            assert(same_order(w, result));
            assert(self.orders.rows@ == orows.update(key_index(orows, id), w));
        }
        Ok(result)
    }

    /// The orders placed by `user_id`: exactly the stored orders whose
    /// user id matches, in storage order.
    pub open spec fn orders_for(s: Seq<Order>, user_id: u128) -> Seq<Order>
        decreases s.len(),
    {
        if s.len() == 0 {
            Seq::empty()
        } else if s.last().user_id == user_id {
            Self::orders_for(s.drop_last(), user_id).push(s.last())
        } else {
            Self::orders_for(s.drop_last(), user_id)
        }
    }

    /// List the orders of one user; an empty result is not an error.
    pub fn get_user_orders(&self, user_id: u128) -> (r: Vec<Order>)
        ensures
            ({
                let f = Self::orders_for(self.orders.rows@, user_id);
                &&& r@.len() == f.len()
                &&& forall|i: int| 0 <= i < f.len() ==> same_order(#[trigger] r@[i], f[i])
            }),
    {
        let mut r: Vec<Order> = Vec::new();
        let n = self.orders.rows.len();
        let mut i: usize = 0;
        proof {
            assert(self.orders.rows@.subrange(0, 0) =~= Seq::<Order>::empty());
        }
        while i < n
            invariant
                n == self.orders.rows@.len(),
                i <= n,
                ({
                    let f = Self::orders_for(self.orders.rows@.subrange(0, i as int), user_id);
                    &&& r@.len() == f.len()
                    &&& forall|j: int| 0 <= j < f.len() ==> same_order(#[trigger] r@[j], f[j])
                }),
            decreases n - i,
        {
            proof {
                let pre = self.orders.rows@.subrange(0, i as int);
                let post = self.orders.rows@.subrange(0, i as int + 1);
                assert(post.drop_last() =~= pre);
            }
            if self.orders.rows[i].user_id == user_id {
                r.push(self.orders.rows[i].clone());
            }
            i = i + 1;
        }
        proof {
            assert(self.orders.rows@.subrange(0, n as int) =~= self.orders.rows@);
        }
        r
    }
}

/// Every order listed for a user carries that user's id; every stored
/// order with that id is listed; and nothing else is.
pub proof fn lemma_orders_for_exact(s: Seq<Order>, user_id: u128)
    ensures
        forall|i: int|
            0 <= i < Database::orders_for(s, user_id).len() ==> (#[trigger] Database::orders_for(
                s,
                user_id,
            )[i]).user_id == user_id,
        forall|i: int|
            0 <= i < Database::orders_for(s, user_id).len() ==> s.contains(
                #[trigger] Database::orders_for(s, user_id)[i],
            ),
        forall|j: int|
            0 <= j < s.len() && (#[trigger] s[j]).user_id == user_id ==> Database::orders_for(
                s,
                user_id,
            ).contains(s[j]),
    decreases s.len(),
{
    if s.len() > 0 {
        let pre = s.drop_last();
        lemma_orders_for_exact(pre, user_id);
        assert forall|i: int| 0 <= i < Database::orders_for(s, user_id).len() implies s.contains(
            #[trigger] Database::orders_for(s, user_id)[i],
        ) by {
            let f = Database::orders_for(s, user_id);
            let fp = Database::orders_for(pre, user_id);
            if i < fp.len() {
                assert(fp[i] == f[i]);
                let k = choose|k: int| 0 <= k < pre.len() && pre[k] == fp[i];
                assert(s[k] == fp[i]);
            } else {
                assert(f[i] == s.last());
                assert(s[s.len() - 1] == s.last());
            }
        }
        assert forall|j: int|
            0 <= j < s.len() && (#[trigger] s[j]).user_id == user_id implies Database::orders_for(
            s,
            user_id,
        ).contains(s[j]) by {
            let f = Database::orders_for(s, user_id);
            let fp = Database::orders_for(pre, user_id);
            if j < s.len() - 1 {
                assert(pre[j] == s[j]);
                assert(fp.contains(pre[j]));
                let k = choose|k: int| 0 <= k < fp.len() && fp[k] == pre[j];
                assert(f[k] == fp[k]);
            } else {
                assert(s[j] == s.last());
                assert(f[f.len() - 1] == s.last());
            }
        }
    }
}

} // verus!
