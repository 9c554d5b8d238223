//! The equipment lists besides weapons: armour, adventuring gear and
//! ammunition, with their prices.
use vstd::prelude::*;

use crate::rules::{WEAPON_COUNT, weapon_at, weapon_spec};
use crate::text::eq_ignore_case;

verus! {

/// A suit of armour or a shield.
#[derive(Clone, Copy, Debug)]
pub struct ArmourDef {
    pub name: &'static str,
    /// Descending armour class worn alone (a shield lowers AC by one).
    pub ac: i32,
    pub shield: bool,
    pub cost_gp: u32,
    pub weight: u32,
}

/// A piece of adventuring gear or of ammunition.
#[derive(Clone, Copy, Debug)]
pub struct GearDef {
    pub name: &'static str,
    pub cost_gp: u32,
}

/// Number of entries in the armour list.
pub const ARMOUR_COUNT: usize = 4;

/// Number of entries in the adventuring gear list.
pub const GEAR_COUNT: usize = 24;

/// Number of entries in the ammunition list.
pub const AMMUNITION_COUNT: usize = 4;

/// The armour list, by position.
pub open spec fn armour_spec(i: usize) -> ArmourDef {
    match i {
        0 => ArmourDef { name: "Leather", ac: 7, shield: false, cost_gp: 20, weight: 200 },
        1 => ArmourDef { name: "Chainmail", ac: 5, shield: false, cost_gp: 40, weight: 400 },
        2 => ArmourDef { name: "Plate mail", ac: 3, shield: false, cost_gp: 60, weight: 500 },
        _ => ArmourDef { name: "Shield", ac: 9, shield: true, cost_gp: 10, weight: 100 },
    }
}

/// The armour list, by position.
pub fn armour_at(i: usize) -> (r: ArmourDef)
    requires
        i < ARMOUR_COUNT,
    ensures
        r == armour_spec(i),
{
    match i {
        0 => ArmourDef { name: "Leather", ac: 7, shield: false, cost_gp: 20, weight: 200 },
        1 => ArmourDef { name: "Chainmail", ac: 5, shield: false, cost_gp: 40, weight: 400 },
        2 => ArmourDef { name: "Plate mail", ac: 3, shield: false, cost_gp: 60, weight: 500 },
        _ => ArmourDef { name: "Shield", ac: 9, shield: true, cost_gp: 10, weight: 100 },
    }
}

/// The adventuring gear list, by position.
pub open spec fn gear_spec(i: usize) -> GearDef {
    match i {
        0 => GearDef { name: "Backpack", cost_gp: 5 },
        1 => GearDef { name: "Crowbar", cost_gp: 10 },
        2 => GearDef { name: "Garlic", cost_gp: 5 },
        3 => GearDef { name: "Grappling hook", cost_gp: 25 },
        4 => GearDef { name: "Hammer (small)", cost_gp: 2 },
        5 => GearDef { name: "Holy symbol", cost_gp: 25 },
        6 => GearDef { name: "Holy water (vial)", cost_gp: 25 },
        7 => GearDef { name: "Iron spikes (12)", cost_gp: 1 },
        8 => GearDef { name: "Lantern", cost_gp: 10 },
        9 => GearDef { name: "Mirror (hand-sized, steel)", cost_gp: 5 },
        10 => GearDef { name: "Oil (1 flask)", cost_gp: 2 },
        11 => GearDef { name: "Pole (10' long, wooden)", cost_gp: 1 },
        12 => GearDef { name: "Rations (iron, 7 days)", cost_gp: 15 },
        13 => GearDef { name: "Rations (standard, 7 days)", cost_gp: 5 },
        14 => GearDef { name: "Rope (50')", cost_gp: 1 },
        15 => GearDef { name: "Sack (large)", cost_gp: 2 },
        16 => GearDef { name: "Sack (small)", cost_gp: 1 },
        17 => GearDef { name: "Stakes (3) and mallet", cost_gp: 3 },
        18 => GearDef { name: "Thieves' tools", cost_gp: 25 },
        19 => GearDef { name: "Tinder box (flint & steel)", cost_gp: 3 },
        20 => GearDef { name: "Torches (6)", cost_gp: 1 },
        21 => GearDef { name: "Waterskin", cost_gp: 1 },
        22 => GearDef { name: "Wine (2 pints)", cost_gp: 1 },
        _ => GearDef { name: "Wolfsbane (1 bunch)", cost_gp: 10 },
    }
}

/// The adventuring gear list, by position.
pub fn gear_at(i: usize) -> (r: GearDef)
    requires
        i < GEAR_COUNT,
    ensures
        r == gear_spec(i),
{
    match i {
        0 => GearDef { name: "Backpack", cost_gp: 5 },
        1 => GearDef { name: "Crowbar", cost_gp: 10 },
        2 => GearDef { name: "Garlic", cost_gp: 5 },
        3 => GearDef { name: "Grappling hook", cost_gp: 25 },
        4 => GearDef { name: "Hammer (small)", cost_gp: 2 },
        5 => GearDef { name: "Holy symbol", cost_gp: 25 },
        6 => GearDef { name: "Holy water (vial)", cost_gp: 25 },
        7 => GearDef { name: "Iron spikes (12)", cost_gp: 1 },
        8 => GearDef { name: "Lantern", cost_gp: 10 },
        9 => GearDef { name: "Mirror (hand-sized, steel)", cost_gp: 5 },
        10 => GearDef { name: "Oil (1 flask)", cost_gp: 2 },
        11 => GearDef { name: "Pole (10' long, wooden)", cost_gp: 1 },
        12 => GearDef { name: "Rations (iron, 7 days)", cost_gp: 15 },
        13 => GearDef { name: "Rations (standard, 7 days)", cost_gp: 5 },
        14 => GearDef { name: "Rope (50')", cost_gp: 1 },
        15 => GearDef { name: "Sack (large)", cost_gp: 2 },
        16 => GearDef { name: "Sack (small)", cost_gp: 1 },
        17 => GearDef { name: "Stakes (3) and mallet", cost_gp: 3 },
        18 => GearDef { name: "Thieves' tools", cost_gp: 25 },
        19 => GearDef { name: "Tinder box (flint & steel)", cost_gp: 3 },
        20 => GearDef { name: "Torches (6)", cost_gp: 1 },
        21 => GearDef { name: "Waterskin", cost_gp: 1 },
        22 => GearDef { name: "Wine (2 pints)", cost_gp: 1 },
        _ => GearDef { name: "Wolfsbane (1 bunch)", cost_gp: 10 },
    }
}

/// The ammunition list, by position.
pub open spec fn ammunition_spec(i: usize) -> GearDef {
    match i {
        0 => GearDef { name: "Arrows (quiver of 20)", cost_gp: 5 },
        1 => GearDef { name: "Crossbow bolts (case of 30)", cost_gp: 10 },
        2 => GearDef { name: "Silver tipped arrow (1)", cost_gp: 5 },
        _ => GearDef { name: "Sling stones", cost_gp: 0 },
    }
}

/// The ammunition list, by position.
pub fn ammunition_at(i: usize) -> (r: GearDef)
    requires
        i < AMMUNITION_COUNT,
    ensures
        r == ammunition_spec(i),
{
    match i {
        0 => GearDef { name: "Arrows (quiver of 20)", cost_gp: 5 },
        1 => GearDef { name: "Crossbow bolts (case of 30)", cost_gp: 10 },
        2 => GearDef { name: "Silver tipped arrow (1)", cost_gp: 5 },
        _ => GearDef { name: "Sling stones", cost_gp: 0 },
    }
}

/// The first armour of the list, from position `i` on, named `name`
/// (ASCII case ignored).
pub open spec fn armour_lookup_from(name: Seq<char>, i: nat) -> Option<ArmourDef>
    decreases ARMOUR_COUNT - i,
{
    if i >= ARMOUR_COUNT {
        None
    } else if eq_ignore_case(armour_spec(i as usize).name@, name) {
        Some(armour_spec(i as usize))
    } else {
        armour_lookup_from(name, i + 1)
    }
}

/// The armour of the list named `name` (ASCII case ignored).
pub open spec fn armour_lookup(name: Seq<char>) -> Option<ArmourDef> {
    armour_lookup_from(name, 0)
}

/// Looks armour up by name, ASCII letters without regard to case.
pub fn find_armour(name: &str) -> (r: Option<ArmourDef>)
    ensures
        r == armour_lookup(name@),
{
    let mut i: usize = 0;
    while i < ARMOUR_COUNT
        invariant
            i <= ARMOUR_COUNT,
            armour_lookup(name@) == armour_lookup_from(name@, i as nat),
        decreases ARMOUR_COUNT - i,
    {
        let a = armour_at(i);
        if crate::text::eq_ignore_ascii_case(a.name, name) {
            return Some(a);
        }
        i = i + 1;
    }
    None
}

/// The first gear of the list, from position `i` on, named `name` (ASCII
/// case ignored).
pub open spec fn gear_lookup_from(name: Seq<char>, i: nat) -> Option<GearDef>
    decreases GEAR_COUNT - i,
{
    if i >= GEAR_COUNT {
        None
    } else if eq_ignore_case(gear_spec(i as usize).name@, name) {
        Some(gear_spec(i as usize))
    } else {
        gear_lookup_from(name, i + 1)
    }
}

/// The gear of the list named `name` (ASCII case ignored).
pub open spec fn gear_lookup(name: Seq<char>) -> Option<GearDef> {
    gear_lookup_from(name, 0)
}

/// Looks gear up by name, ASCII letters without regard to case.
pub fn find_gear(name: &str) -> (r: Option<GearDef>)
    ensures
        r == gear_lookup(name@),
{
    let mut i: usize = 0;
    while i < GEAR_COUNT
        invariant
            i <= GEAR_COUNT,
            gear_lookup(name@) == gear_lookup_from(name@, i as nat),
        decreases GEAR_COUNT - i,
    {
        let g = gear_at(i);
        if crate::text::eq_ignore_ascii_case(g.name, name) {
            return Some(g);
        }
        i = i + 1;
    }
    None
}

/// The first ammunition of the list, from position `i` on, named `name`
/// (ASCII case ignored).
pub open spec fn ammunition_lookup_from(name: Seq<char>, i: nat) -> Option<GearDef>
    decreases AMMUNITION_COUNT - i,
{
    if i >= AMMUNITION_COUNT {
        None
    } else if eq_ignore_case(ammunition_spec(i as usize).name@, name) {
        Some(ammunition_spec(i as usize))
    } else {
        ammunition_lookup_from(name, i + 1)
    }
}

/// The ammunition of the list named `name` (ASCII case ignored).
pub open spec fn ammunition_lookup(name: Seq<char>) -> Option<GearDef> {
    ammunition_lookup_from(name, 0)
}

/// Looks ammunition up by name, ASCII letters without regard to case.
pub fn find_ammunition(name: &str) -> (r: Option<GearDef>)
    ensures
        r == ammunition_lookup(name@),
{
    let mut i: usize = 0;
    while i < AMMUNITION_COUNT
        invariant
            i <= AMMUNITION_COUNT,
            ammunition_lookup(name@) == ammunition_lookup_from(name@, i as nat),
        decreases AMMUNITION_COUNT - i,
    {
        let a = ammunition_at(i);
        if crate::text::eq_ignore_ascii_case(a.name, name) {
            return Some(a);
        }
        i = i + 1;
    }
    None
}

/// Number of entries in the whole price list: weapons, armour, gear and
/// ammunition, in that order.
pub const CATALOG_COUNT: usize = 51;

/// An entry of the price list.
#[derive(Clone, Copy, Debug)]
pub struct CatalogEntry {
    pub name: &'static str,
    pub cost_gp: u32,
    /// Weight in coins as bought (gear and ammunition count as none).
    pub weight: u32,
    /// Weapons and armour without a price are not for sale.
    pub for_sale: bool,
    pub category: &'static str,
}

/// The price list, by position: weapons, armour, gear, ammunition.
pub open spec fn catalog_spec(i: usize) -> CatalogEntry {
    if i < WEAPON_COUNT {
        let w = weapon_spec(i);
        CatalogEntry { name: w.name, cost_gp: w.cost_gp, weight: w.weight, for_sale: w.cost_gp > 0, category: "weapon" }
    } else if i < WEAPON_COUNT + ARMOUR_COUNT {
        let a = armour_spec((i - WEAPON_COUNT) as usize);
        CatalogEntry { name: a.name, cost_gp: a.cost_gp, weight: a.weight, for_sale: a.cost_gp > 0, category: "armour" }
    } else if i < WEAPON_COUNT + ARMOUR_COUNT + GEAR_COUNT {
        let g = gear_spec((i - WEAPON_COUNT - ARMOUR_COUNT) as usize);
        CatalogEntry { name: g.name, cost_gp: g.cost_gp, weight: 0, for_sale: true, category: "gear" }
    } else {
        let g = ammunition_spec((i - WEAPON_COUNT - ARMOUR_COUNT - GEAR_COUNT) as usize);
        CatalogEntry { name: g.name, cost_gp: g.cost_gp, weight: 0, for_sale: true, category: "ammunition" }
    }
}

/// The price list, by position.
pub fn catalog_at(i: usize) -> (r: CatalogEntry)
    requires
        i < CATALOG_COUNT,
    ensures
        r == catalog_spec(i),
{
    if i < WEAPON_COUNT {
        let w = weapon_at(i);
        CatalogEntry { name: w.name, cost_gp: w.cost_gp, weight: w.weight, for_sale: w.cost_gp > 0, category: "weapon" }
    } else if i < WEAPON_COUNT + ARMOUR_COUNT {
        let a = armour_at(i - WEAPON_COUNT);
        CatalogEntry { name: a.name, cost_gp: a.cost_gp, weight: a.weight, for_sale: a.cost_gp > 0, category: "armour" }
    } else if i < WEAPON_COUNT + ARMOUR_COUNT + GEAR_COUNT {
        let g = gear_at(i - WEAPON_COUNT - ARMOUR_COUNT);
        CatalogEntry { name: g.name, cost_gp: g.cost_gp, weight: 0, for_sale: true, category: "gear" }
    } else {
        let g = ammunition_at(i - WEAPON_COUNT - ARMOUR_COUNT - GEAR_COUNT);
        CatalogEntry { name: g.name, cost_gp: g.cost_gp, weight: 0, for_sale: true, category: "ammunition" }
    }
}

/// Every armour of the list has an armour class between 1 and 9.
pub proof fn lemma_armour_ac_range(name: Seq<char>)
    ensures
        armour_lookup(name) matches Some(a) ==> 1 <= a.ac <= 9,
{
    reveal_with_fuel(armour_lookup_from, 5);
}

} // verus!
