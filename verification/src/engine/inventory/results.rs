//! What the inventory actions report back to their callers.
use vstd::prelude::*;

verus! {

/// Report of an item bought.
#[derive(Clone, Debug)]
pub struct BuyResult {
    pub message: String,
    pub character: String,
    pub item: String,
    pub cost_gp: u32,
    pub gold_remaining: u32,
}

/// Report of an item dropped.
#[derive(Clone, Debug)]
pub struct DropResult {
    pub message: String,
    pub character: String,
    pub item: String,
}

/// Report of an item equipped or unequipped.
#[derive(Clone, Debug)]
pub struct EquipResult {
    pub message: String,
    pub character: String,
    pub item: String,
    /// `equips` or `unequips`.
    pub action: String,
    pub ac: i32,
}

/// Report of an item picked up.
#[derive(Clone, Debug)]
pub struct LootResult {
    pub message: String,
    pub character: String,
    pub item: String,
    pub value_gp: u32,
}

/// One entry of the price list.
#[derive(Clone, Debug)]
pub struct EquipmentItemSummary {
    pub name: String,
    pub cost_gp: u32,
    pub category: String,
}

/// The price list, table by table.
#[derive(Clone, Debug)]
pub struct ListEquipmentResult {
    pub weapons: Vec<EquipmentItemSummary>,
    pub armour: Vec<EquipmentItemSummary>,
    pub gear: Vec<EquipmentItemSummary>,
    pub ammunition: Vec<EquipmentItemSummary>,
}

} // verus!
