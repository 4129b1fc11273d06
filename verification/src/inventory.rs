//! What the bot carries, and which dropped objects it may still pick up.

use std::collections::HashMap;
use vstd::prelude::*;

verus! {

/// The most units of one item that a stack holds.
pub const STACK_LIMIT: u8 = 200;

/// One stack of the inventory.
#[derive(Debug, Clone, Copy, PartialEq, Eq, Structural)]
pub struct InventoryItem {
    pub id: u16,
    pub amount: u8,
}

/// The inventory: the number of slots, the number of distinct items that
/// fill them, and the stacks by item.
#[derive(Debug, Clone)]
pub struct Inventory {
    pub size: u32,
    pub item_count: u16,
    pub items: HashMap<u16, InventoryItem>,
}

/// The amount of the stack of item `id` among `items`.
pub open spec fn stack_of(items: Map<u16, InventoryItem>, id: u16) -> Option<u8> {
    if items.contains_key(id) {
        Some(items[id].amount)
    } else {
        None
    }
}

/// Whether one more object of item `id` may be picked up: a new item needs a
/// free slot, a known one a stack below the limit.
pub open spec fn collectible(
    size: u32,
    item_count: u16,
    items: Map<u16, InventoryItem>,
    id: u16,
) -> bool {
    match stack_of(items, id) {
        None => size > item_count,
        Some(amount) => amount < STACK_LIMIT,
    }
}

impl Inventory {
    /// An inventory without slots or stacks.
    pub fn new() -> (r: Inventory)
        ensures
            r.size == 0,
            r.item_count == 0,
            r.items@ == Map::<u16, InventoryItem>::empty(),
    {
        Inventory { size: 0, item_count: 0, items: HashMap::new() }
    }

    /// The amount of the stack of item `id`, if there is one.
    pub fn amount_of(&self, id: u16) -> (r: Option<u8>)
        ensures
            r == stack_of(self.items@, id),
    {
        match self.items.get(&id) {
            Some(item) => Some(item.amount),
            None => None,
        }
    }

    /// Whether one more object of item `id` may be picked up.
    pub fn can_collect(&self, id: u16) -> (r: bool)
        ensures
            r == collectible(self.size, self.item_count, self.items@, id),
    {
        match self.amount_of(id) {
            None => self.size > self.item_count as u32,
            Some(amount) => amount < STACK_LIMIT,
        }
    }
}

/// A stack one below the limit still takes an object, a full one does not,
/// and a new item is taken exactly while a slot is free.
pub proof fn law_collect_eligibility(
    size: u32,
    item_count: u16,
    items: Map<u16, InventoryItem>,
    id: u16,
)
    ensures
        stack_of(items, id) == Some(199u8) ==> collectible(size, item_count, items, id),
        stack_of(items, id) == Some(200u8) ==> !collectible(size, item_count, items, id),
        stack_of(items, id).is_none() ==> (collectible(size, item_count, items, id) <==> item_count
            < size),
{
}

} // verus!
