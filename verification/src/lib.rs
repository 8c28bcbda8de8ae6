//! In-memory food-delivery ordering library: keyed entity tables, the
//! order validation and pricing workflow, and order lifecycle updates.
//! Money is carried as whole cents, identifiers as 128-bit integers and
//! timestamps as milliseconds since the epoch.
use vstd::prelude::*;

pub mod db;
pub mod errors;
mod fresh;
pub mod models;
pub mod money;
pub mod orders;
pub mod table;

verus! {

/// Fixed confirmation string for the liveness probe.
pub fn health_check() -> (r: &'static str)
    ensures
        r@ == "Food Delivery API is running! 🚀"@,
{
    "Food Delivery API is running! 🚀"
}

} // verus!
