//! Items: the rows and payloads of the item routes.

use vstd::prelude::*;

verus! {

/// The name column of a stored item.
#[derive(Debug)]
pub struct Item {
    pub name: String,
}

/// An item that is about to be stored.
#[derive(Debug)]
pub struct NewItem {
    pub id: Option<u128>,
    pub name: String,
}

/// The payload of an item creation.
#[derive(Debug)]
pub struct CreateItemPayload {
    pub name: String,
}

/// The payload of an item update.
#[derive(Debug)]
pub struct UpdateItemRequest {
    pub item_name: String,
}

/// The reply of a route that changed or deleted rows by id: a 200 with
/// `done` where a row was affected, a 404 with `missing` where none was.
pub fn affected_rows_reply(rows: usize, done: &'static str, missing: &'static str) -> (r: (
    u16,
    &'static str,
))
    ensures
        rows > 0 ==> r == (200u16, done),
        rows == 0 ==> r == (404u16, missing),
{
    if rows > 0 {
        (200, done)
    } else {
        (404, missing)
    }
}

} // verus!
