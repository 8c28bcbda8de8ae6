//! The ways an order operation can fail, each with the exact message the
//! API surfaces for it.
use vstd::prelude::*;

use crate::money::{dec_chars, dec_string, format_cents, money_chars};

verus! {

/// Rejections of the order workflow. `NoUsersAvailable`,
/// `FoodItemUnavailable` and `BelowMinimumOrder` are validation failures;
/// the others report an absent entity.
#[derive(Debug, PartialEq)]
pub enum OrderError {
    NoUsersAvailable,
    RestaurantNotFound,
    FoodItemNotFound { food_item_id: u128 },
    FoodItemUnavailable { name: String },
    BelowMinimumOrder { minimum: u64 },
    OrderNotFound,
}

/// The message surfaced for each rejection. A below-minimum rejection
/// cites the restaurant's configured minimum to two decimal places.
pub open spec fn error_message(e: OrderError) -> Seq<char> {
    match e {
        OrderError::NoUsersAvailable => "No users found"@,
        OrderError::RestaurantNotFound => "Restaurant not found"@,
        OrderError::FoodItemNotFound { food_item_id } => "Food item "@ + dec_chars(
            food_item_id as nat,
        ) + " not found"@,
        OrderError::FoodItemUnavailable { name } => "Food item "@ + name@ + " is not available"@,
        OrderError::BelowMinimumOrder { minimum } => "Minimum order amount is $"@ + money_chars(
            minimum as nat,
        ),
        OrderError::OrderNotFound => "Order not found"@,
    }
}

impl OrderError {
    /// The status-line message for this rejection.
    pub fn message(&self) -> (r: String)
        ensures
            r@ == error_message(*self),
    {
        match self {
            OrderError::NoUsersAvailable => String::from_str("No users found"),
            OrderError::RestaurantNotFound => String::from_str("Restaurant not found"),
            OrderError::FoodItemNotFound { food_item_id } => {
                let mut s = String::from_str("Food item ");
                let id_text = dec_string(*food_item_id);
                s.append(id_text.as_str());
                s.append(" not found");
                proof {
                    assert(s@ =~= error_message(*self));
                }
                s
            },
            OrderError::FoodItemUnavailable { name } => {
                let mut s = String::from_str("Food item ");
                s.append(name.as_str());
                s.append(" is not available");
                proof {
                    assert(s@ =~= error_message(*self));
                }
                s
            },
            OrderError::BelowMinimumOrder { minimum } => {
                let mut s = String::from_str("Minimum order amount is $");
                let amount = format_cents(*minimum);
                s.append(amount.as_str());
                proof {
                    assert(s@ =~= error_message(*self));
                }
                s
            },
            OrderError::OrderNotFound => String::from_str("Order not found"),
        }
    }
}

} // verus!
