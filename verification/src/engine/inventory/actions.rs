//! Inventory actions on the game state.
use vstd::prelude::*;

use crate::engine::combat::actions::{invalid, no_member_text};
use crate::engine::combat::attack::join_text;
use crate::engine::combat::status::append_joined;
use crate::engine::gm::actions::member_replaced;
use crate::equipment::{
    ARMOUR_COUNT, AMMUNITION_COUNT, CATALOG_COUNT, GEAR_COUNT, armour_lookup, catalog_at, catalog_spec,
    find_armour,
};
use crate::rules::{WEAPON_COUNT, ac_of, calculate_ac, dex_ac_mod, standard_mod};
use crate::state::dungeon::{DungeonState, PlacedTreasureInstance, Room, room_index, room_replaced};
use crate::model::{Character, Item};
use crate::state::effect::texts;
use crate::state::{EngineError, GameState, member_index};
use crate::text::{
    append_nat, contains_text, eq_ignore_ascii_case, eq_ignore_case, lowercase, lowercase_text,
    nat_text, normalize_for_matching, normalized_text, str_eq, text_contains,
};

use super::results::{
    BuyResult, DropResult, EquipResult, EquipmentItemSummary, ListEquipmentResult, LootResult,
};

verus! {

fn no_party_member(name: &str) -> (e: EngineError)
    ensures
        invalid(e, no_member_text(name@)),
{
    let mut m = String::from_str("no party member named '");
    m.append(name);
    m.append("'.");
    EngineError::InvalidInput(m)
}

/// Position, from `i` on, of the first entry of the price list for sale
/// named `name` (ASCII case ignored).
pub open spec fn exact_index_from(name: Seq<char>, i: nat) -> Option<nat>
    decreases CATALOG_COUNT - i,
{
    if i >= CATALOG_COUNT {
        None
    } else if catalog_spec(i as usize).for_sale && eq_ignore_case(catalog_spec(i as usize).name@, name) {
        Some(i)
    } else {
        exact_index_from(name, i + 1)
    }
}

/// Position, from `i` on, of the first entry of the price list for sale
/// whose reduced name is `q`.
pub open spec fn loose_index_from(q: Seq<char>, i: nat) -> Option<nat>
    decreases CATALOG_COUNT - i,
{
    if i >= CATALOG_COUNT {
        None
    } else if catalog_spec(i as usize).for_sale && normalized_text(catalog_spec(i as usize).name@) == q {
        Some(i)
    } else {
        loose_index_from(q, i + 1)
    }
}

/// The entry of the price list that a request for `name` buys: the first
/// named so (ASCII case ignored), else the first whose reduced name equals
/// the reduced request, when that is not empty.
pub open spec fn buyable_index(name: Seq<char>) -> Option<nat> {
    match exact_index_from(name, 0) {
        Some(i) => Some(i),
        None => if normalized_text(name).len() == 0 {
            None
        } else {
            loose_index_from(normalized_text(name), 0)
        },
    }
}

/// Whether an item name and a request resemble each other: either holds
/// the other once lower-cased, or once both are reduced.
pub open spec fn suggestion_match(item: Seq<char>, query: Seq<char>) -> bool {
    let il = lowercase_text(item);
    let ql = lowercase_text(query);
    let inorm = normalized_text(item);
    let qnorm = normalized_text(query);
    contains_text(il, ql) || contains_text(ql, il) || contains_text(inorm, qnorm) || contains_text(
        qnorm,
        inorm,
    )
}

/// Names of the first `n` entries of the price list for sale that resemble
/// the request.
pub open spec fn resembling_names(query: Seq<char>, n: nat) -> Seq<Seq<char>>
    decreases n,
{
    if n == 0 {
        Seq::empty()
    } else {
        let rest = resembling_names(query, (n - 1) as nat);
        let e = catalog_spec((n - 1) as usize);
        if e.for_sale && suggestion_match(e.name@, query) {
            rest.push(e.name@)
        } else {
            rest
        }
    }
}

/// At most three names of the price list that resemble the request.
pub open spec fn suggestions(query: Seq<char>) -> Seq<Seq<char>> {
    let all = resembling_names(query, CATALOG_COUNT as nat);
    if all.len() > 3 {
        all.take(3)
    } else {
        all
    }
}

/// Refusal of a request that matches nothing for sale.
pub open spec fn unknown_item_text(query: Seq<char>, hints: Seq<Seq<char>>) -> Seq<char> {
    if hints.len() == 0 {
        "unknown item '"@ + query + "'. Check equipment tables."@
    } else {
        "unknown item '"@ + query + "'. Did you mean: "@ + join_text(hints, ", "@) + "?"@
    }
}

fn find_buyable(name: &str) -> (r: Option<usize>)
    ensures
        match r {
            Some(i) => buyable_index(name@) == Some(i as nat) && i < CATALOG_COUNT,
            None => buyable_index(name@) is None,
        },
{
    let mut i: usize = 0;
    while i < CATALOG_COUNT
        invariant
            i <= CATALOG_COUNT,
            exact_index_from(name@, 0) == exact_index_from(name@, i as nat),
        decreases CATALOG_COUNT - i,
    {
        let e = catalog_at(i);
        if e.for_sale && eq_ignore_ascii_case(e.name, name) {
            return Some(i);
        }
        i = i + 1;
    }
    let q = normalize_for_matching(name);
    if q.as_str().unicode_len() == 0 {
        return None;
    }
    let mut i: usize = 0;
    while i < CATALOG_COUNT
        invariant
            i <= CATALOG_COUNT,
            exact_index_from(name@, 0) is None,
            q@ == normalized_text(name@),
            q@.len() > 0,
            loose_index_from(q@, 0) == loose_index_from(q@, i as nat),
        decreases CATALOG_COUNT - i,
    {
        let e = catalog_at(i);
        if e.for_sale {
            let en = normalize_for_matching(e.name);
            if str_eq(en.as_str(), q.as_str()) {
                proof {
                    assert(loose_index_from(q@, i as nat) == Some(i as nat));
                    assert(normalized_text(name@).len() != 0);
                }
                return Some(i);
            }
        }
        i = i + 1;
    }
    None
}

fn names_match_for_suggestion(item: &str, query: &str) -> (r: bool)
    ensures
        r == suggestion_match(item@, query@),
{
    let il = lowercase(item);
    let ql = lowercase(query);
    if text_contains(il.as_str(), ql.as_str()) || text_contains(ql.as_str(), il.as_str()) {
        return true;
    }
    let inorm = normalize_for_matching(item);
    let qnorm = normalize_for_matching(query);
    text_contains(inorm.as_str(), qnorm.as_str()) || text_contains(qnorm.as_str(), inorm.as_str())
}

fn suggest_equipment(query: &str) -> (r: Vec<String>)
    ensures
        texts(r@) == suggestions(query@),
{
    let mut out: Vec<String> = Vec::new();
    let mut i: usize = 0;
    while i < CATALOG_COUNT
        invariant
            i <= CATALOG_COUNT,
            texts(out@) == resembling_names(query@, i as nat),
        decreases CATALOG_COUNT - i,
    {
        let e = catalog_at(i);
        if e.for_sale && names_match_for_suggestion(e.name, query) {
            let ghost before = texts(out@);
            out.push(String::from_str(e.name));
            proof {
                assert(texts(out@) =~= before.push(e.name@));
            }
        }
        i = i + 1;
    }
    let ghost all = texts(out@);
    if out.len() > 3 {
        out.truncate(3);
        proof {
            assert(texts(out@) =~= all.take(3));
        }
    }
    out
}

/// Refusal of a purchase the character cannot pay for.
pub open spec fn cannot_afford_text(who: Seq<char>, gold: u32, item: Seq<char>, cost: u32) -> Seq<char> {
    who + " has "@ + nat_text(gold as nat) + " gp but "@ + item + " costs "@ + nat_text(cost as nat)
        + " gp."@
}

/// Message of a purchase.
pub open spec fn bought_text(who: Seq<char>, item: Seq<char>, cost: u32, left: u32) -> Seq<char> {
    who + " buys "@ + item + " for "@ + nat_text(cost as nat) + " gp. ("@ + nat_text(left as nat)
        + " gp remaining)"@
}

/// `c2` is `c` after paying `cost` for a new item `item`.
pub open spec fn paid_for(c: Character, c2: Character, item: Item) -> bool {
    &&& c2 == Character { gold_gp: c2.gold_gp, inventory: c2.inventory, ..c }
    &&& c2.inventory@ == c.inventory@.push(item)
}

/// Buys the item of the price list that `item_name` names for a party
/// member, who pays its price in gold.
pub fn action_buy(state: &mut GameState, char_name: &str, item_name: &str) -> (r: Result<
    BuyResult,
    EngineError,
>)
    ensures
        match buyable_index(item_name@) {
            None => r matches Err(e) && invalid(e, unknown_item_text(item_name@, suggestions(item_name@)))
                && *final(state) == *old(state),
            Some(k) => {
                let entry = catalog_spec(k as usize);
                match member_index(old(state).party.members@, char_name@) {
                    None => r matches Err(e) && invalid(e, no_member_text(char_name@)) && *final(state)
                        == *old(state),
                    Some(i) => {
                        let c = old(state).party.members@[i];
                        if c.gold_gp < entry.cost_gp {
                            r matches Err(e) && invalid(
                                e,
                                cannot_afford_text(c.name@, c.gold_gp, entry.name@, entry.cost_gp),
                            ) && *final(state) == *old(state)
                        } else {
                            let left = (c.gold_gp - entry.cost_gp) as u32;
                            match r {
                                Ok(res) => {
                                    let c2 = final(state).party.members@[i];
                                    &&& member_replaced(*old(state), *final(state), i, c2)
                                    &&& c2.gold_gp == left
                                    &&& paid_for(c, c2, c2.inventory@.last())
                                    &&& c2.inventory@.last().name@ == entry.name@
                                    &&& c2.inventory@.last().weight == entry.weight
                                    &&& c2.inventory@.last().value_gp == entry.cost_gp
                                    &&& !c2.inventory@.last().equipped
                                    &&& res.character@ == c.name@
                                    &&& res.item@ == entry.name@
                                    &&& res.cost_gp == entry.cost_gp
                                    &&& res.gold_remaining == left
                                    &&& res.message@ == bought_text(c.name@, entry.name@, entry.cost_gp, left)
                                },
                                Err(_) => false,
                            }
                        }
                    },
                }
            },
        },
{
    let k = match find_buyable(item_name) {
        Some(k) => k,
        None => {
            let hints = suggest_equipment(item_name);
            let mut m = String::from_str("unknown item '");
            m.append(item_name);
            if hints.len() == 0 {
                m.append("'. Check equipment tables.");
            } else {
                m.append("'. Did you mean: ");
                append_joined(&mut m, &hints, ", ");
                m.append("?");
            }
            return Err(EngineError::InvalidInput(m));
        },
    };
    let entry = catalog_at(k);
    let ci = match state.party.find_index(char_name) {
        Some(i) => i,
        None => return Err(no_party_member(char_name)),
    };
    let ghost members0 = state.party.members@;
    if state.party.members[ci].gold_gp < entry.cost_gp {
        let c = &state.party.members[ci];
        let mut m = c.name.clone();
        m.append(" has ");
        append_nat(&mut m, c.gold_gp as u64);
        m.append(" gp but ");
        m.append(entry.name);
        m.append(" costs ");
        append_nat(&mut m, entry.cost_gp as u64);
        m.append(" gp.");
        return Err(EngineError::InvalidInput(m));
    }
    let c = &mut state.party.members[ci];
    c.gold_gp = c.gold_gp - entry.cost_gp;
    c.inventory.push(Item::new(entry.name, entry.weight, entry.cost_gp));
    let mut message = c.name.clone();
    message.append(" buys ");
    message.append(entry.name);
    message.append(" for ");
    append_nat(&mut message, entry.cost_gp as u64);
    message.append(" gp. (");
    append_nat(&mut message, c.gold_gp as u64);
    message.append(" gp remaining)");
    let res = BuyResult {
        message,
        character: c.name.clone(),
        item: String::from_str(entry.name),
        cost_gp: entry.cost_gp,
        gold_remaining: c.gold_gp,
    };
    proof {
        assert(state.party.members@ == members0.update(ci as int, state.party.members@[ci as int]));
    }
    Ok(res)
}

/// Position, from `i` on, of the first item of `inv` named `name` (ASCII
/// case ignored).
pub open spec fn item_index_from(inv: Seq<Item>, name: Seq<char>, i: int) -> Option<int>
    decreases inv.len() - i,
{
    if i < 0 || i >= inv.len() {
        None
    } else if eq_ignore_case(inv[i].name@, name) {
        Some(i)
    } else {
        item_index_from(inv, name, i + 1)
    }
}

/// Position of the first item of `inv` named `name` (ASCII case ignored).
pub open spec fn item_index(inv: Seq<Item>, name: Seq<char>) -> Option<int> {
    item_index_from(inv, name, 0)
}

fn item_position(inv: &Vec<Item>, name: &str) -> (r: Option<usize>)
    ensures
        match r {
            Some(k) => item_index(inv@, name@) == Some(k as int) && k < inv@.len(),
            None => item_index(inv@, name@) is None,
        },
{
    let mut i: usize = 0;
    while i < inv.len()
        invariant
            i <= inv@.len(),
            item_index(inv@, name@) == item_index_from(inv@, name@, i as int),
        decreases inv@.len() - i,
    {
        if eq_ignore_ascii_case(inv[i].name.as_str(), name) {
            return Some(i);
        }
        i = i + 1;
    }
    None
}

/// Refusal of an item the character does not carry.
pub open spec fn not_carried_text(who: Seq<char>, item: Seq<char>) -> Seq<char> {
    who + " does not have '"@ + item + "'."@
}

fn not_carried(who: &String, item: &str) -> (e: EngineError)
    ensures
        invalid(e, not_carried_text(who@, item@)),
{
    let mut m = who.clone();
    m.append(" does not have '");
    m.append(item);
    m.append("'.");
    EngineError::InvalidInput(m)
}

/// A party member drops the first item carried with the given name.
pub fn action_drop(state: &mut GameState, char_name: &str, item_name: &str) -> (r: Result<
    DropResult,
    EngineError,
>)
    ensures
        match member_index(old(state).party.members@, char_name@) {
            None => r matches Err(e) && invalid(e, no_member_text(char_name@)) && *final(state)
                == *old(state),
            Some(i) => {
                let c = old(state).party.members@[i];
                match item_index(c.inventory@, item_name@) {
                    None => r matches Err(e) && invalid(e, not_carried_text(c.name@, item_name@))
                        && *final(state) == *old(state),
                    Some(k) => {
                        let dropped = c.inventory@[k].name@;
                        match r {
                            Ok(res) => {
                                &&& member_replaced(
                                    *old(state),
                                    *final(state),
                                    i,
                                    Character { inventory: final(state).party.members@[i].inventory, ..c },
                                )
                                &&& final(state).party.members@[i].inventory@ == c.inventory@.remove(k)
                                &&& res.character@ == c.name@
                                &&& res.item@ == dropped
                                &&& res.message@ == c.name@ + " drops "@ + dropped + "."@
                            },
                            Err(_) => false,
                        }
                    },
                }
            },
        },
{
    let ci = match state.party.find_index(char_name) {
        Some(i) => i,
        None => return Err(no_party_member(char_name)),
    };
    let ghost members0 = state.party.members@;
    let k = match item_position(&state.party.members[ci].inventory, item_name) {
        Some(k) => k,
        None => return Err(not_carried(&state.party.members[ci].name, item_name)),
    };
    let c = &mut state.party.members[ci];
    let dropped = c.inventory.remove(k);
    let mut message = c.name.clone();
    message.append(" drops ");
    message.append(dropped.name.as_str());
    message.append(".");
    let res = DropResult { message, character: c.name.clone(), item: dropped.name };
    proof {
        assert(state.party.members@ == members0.update(ci as int, state.party.members@[ci as int]));
    }
    Ok(res)
}

/// The best (lowest) armour class among the first `n` items that are worn
/// armour other than shields, if any.
pub open spec fn worn_armour_ac(inv: Seq<Item>, n: int) -> Option<i32>
    decreases n,
{
    if n <= 0 {
        None
    } else {
        let rest = worn_armour_ac(inv, n - 1);
        let it = inv[n - 1];
        match armour_lookup(it.name@) {
            Some(a) => if it.equipped && !a.shield {
                match rest {
                    Some(m) => if m <= a.ac {
                        Some(m)
                    } else {
                        Some(a.ac)
                    },
                    None => Some(a.ac),
                }
            } else {
                rest
            },
            None => rest,
        }
    }
}

/// Whether the armour list names a shield so.
pub open spec fn is_shield_named(name: Seq<char>) -> bool {
    match armour_lookup(name) {
        Some(a) => a.shield,
        None => false,
    }
}

/// Whether one of the first `n` items is a worn shield.
pub open spec fn wears_shield(inv: Seq<Item>, n: int) -> bool
    decreases n,
{
    if n <= 0 {
        false
    } else {
        wears_shield(inv, n - 1) || (inv[n - 1].equipped && is_shield_named(inv[n - 1].name@))
    }
}

/// Armour class of a character wearing the worn items of `inv`: the best
/// worn armour (9 without), one better with a shield, adjusted by DEX.
pub open spec fn worn_ac(inv: Seq<Item>, dexterity: i32) -> int {
    let base = match worn_armour_ac(inv, inv.len() as int) {
        Some(a) => a as int,
        None => 9,
    };
    ac_of(base, wears_shield(inv, inv.len() as int), -standard_mod(dexterity as int))
}

fn worn_armour(inv: &Vec<Item>) -> (r: (i32, bool))
    ensures
        r.0 == match worn_armour_ac(inv@, inv@.len() as int) {
            Some(a) => a as int,
            None => 9,
        },
        r.1 == wears_shield(inv@, inv@.len() as int),
        1 <= r.0 <= 9,
{
    let mut best: Option<i32> = None;
    let mut shield = false;
    let mut i: usize = 0;
    while i < inv.len()
        invariant
            i <= inv@.len(),
            best == worn_armour_ac(inv@, i as int),
            shield == wears_shield(inv@, i as int),
            best matches Some(b) ==> 1 <= b <= 9,
        decreases inv@.len() - i,
    {
        let it = &inv[i];
        match find_armour(it.name.as_str()) {
            Some(a) => {
                proof {
                    crate::equipment::lemma_armour_ac_range(it.name@);
                }
                if it.equipped && !a.shield {
                    best = match best {
                        Some(m) => if m <= a.ac {
                            Some(m)
                        } else {
                            Some(a.ac)
                        },
                        None => Some(a.ac),
                    };
                }
                if it.equipped && a.shield {
                    shield = true;
                }
            },
            None => {},
        }
        i = i + 1;
    }
    match best {
        Some(b) => (b, shield),
        None => (9, shield),
    }
}

/// Message of an item equipped or unequipped.
pub open spec fn equip_text(who: Seq<char>, action: Seq<char>, item: Seq<char>, ac: int) -> Seq<char> {
    who + " "@ + action + " "@ + item + ". (AC "@ + crate::text::int_text(ac) + ")"@
}

/// A party member puts on, or takes off, the first item carried with the
/// given name; armour class follows what is worn.
pub fn action_equip(state: &mut GameState, char_name: &str, item_name: &str) -> (r: Result<
    EquipResult,
    EngineError,
>)
    ensures
        match member_index(old(state).party.members@, char_name@) {
            None => r matches Err(e) && invalid(e, no_member_text(char_name@)) && *final(state)
                == *old(state),
            Some(i) => {
                let c = old(state).party.members@[i];
                match item_index(c.inventory@, item_name@) {
                    None => r matches Err(e) && invalid(e, not_carried_text(c.name@, item_name@))
                        && *final(state) == *old(state),
                    Some(k) => {
                        let it = c.inventory@[k];
                        let inv2 = c.inventory@.update(k, Item { equipped: !it.equipped, ..it });
                        let ac = worn_ac(inv2, c.abilities.dexterity);
                        let action = if it.equipped {
                            "unequips"@
                        } else {
                            "equips"@
                        };
                        match r {
                            Ok(res) => {
                                let c2 = final(state).party.members@[i];
                                &&& member_replaced(*old(state), *final(state), i, c2)
                                &&& c2 == Character { inventory: c2.inventory, ac: c2.ac, ..c }
                                &&& c2.inventory@ == inv2
                                &&& c2.ac == ac
                                &&& res.character@ == c.name@
                                &&& res.item@ == it.name@
                                &&& res.action@ == action
                                &&& res.ac == ac
                                &&& res.message@ == equip_text(c.name@, action, it.name@, ac)
                            },
                            Err(_) => false,
                        }
                    },
                }
            },
        },
{
    let ci = match state.party.find_index(char_name) {
        Some(i) => i,
        None => return Err(no_party_member(char_name)),
    };
    let ghost members0 = state.party.members@;
    let k = match item_position(&state.party.members[ci].inventory, item_name) {
        Some(k) => k,
        None => return Err(not_carried(&state.party.members[ci].name, item_name)),
    };
    let c = &mut state.party.members[ci];
    let ghost inv0 = c.inventory@;
    let mut it = c.inventory.remove(k);
    let was_equipped = it.equipped;
    it.equipped = !was_equipped;
    let item_display = it.name.clone();
    c.inventory.insert(k, it);
    proof {
        assert(c.inventory@ =~= inv0.update(k as int, Item { equipped: !inv0[k as int].equipped, ..inv0[k as int] }));
    }
    let (armour_ac, has_shield) = worn_armour(&c.inventory);
    let dex_mod = dex_ac_mod(c.abilities.dexterity);
    c.ac = calculate_ac(armour_ac, has_shield, dex_mod);
    let action = if was_equipped {
        String::from_str("unequips")
    } else {
        String::from_str("equips")
    };
    let mut message = c.name.clone();
    message.append(" ");
    message.append(action.as_str());
    message.append(" ");
    message.append(item_display.as_str());
    message.append(". (AC ");
    crate::text::append_int(&mut message, c.ac as i64);
    message.append(")");
    let res = EquipResult { message, character: c.name.clone(), item: item_display, action, ac: c.ac };
    proof {
        assert(state.party.members@ == members0.update(ci as int, state.party.members@[ci as int]));
    }
    Ok(res)
}

/// Position, from `i` on, of the first treasure of `ts` not yet taken and
/// described as `name` (ASCII case ignored).
pub open spec fn treasure_index_from(ts: Seq<PlacedTreasureInstance>, name: Seq<char>, i: int) -> Option<int>
    decreases ts.len() - i,
{
    if i < 0 || i >= ts.len() {
        None
    } else if !ts[i].taken && eq_ignore_case(ts[i].description@, name) {
        Some(i)
    } else {
        treasure_index_from(ts, name, i + 1)
    }
}

/// Where in the dungeon the treasure described as `name` lies: the room the
/// party is in and the treasure's position there.
pub open spec fn loot_spot(d: Option<DungeonState>, name: Seq<char>) -> Option<(int, int)> {
    match d {
        Some(dg) => match dg.current_room {
            Some(id) => match room_index(dg.rooms@, id) {
                Some(k) => match treasure_index_from(dg.rooms@[k].placed_treasure@, name, 0) {
                    Some(t) => Some((k, t)),
                    None => None,
                },
                None => None,
            },
            None => None,
        },
        None => None,
    }
}

/// `d2` is `d` with treasure `t` of room `k` taken.
pub open spec fn treasure_taken(d: DungeonState, d2: DungeonState, k: int, t: int) -> bool {
    let ts = d.rooms@[k].placed_treasure@;
    &&& room_replaced(d, d2, k, Room { placed_treasure: d2.rooms@[k].placed_treasure, ..d.rooms@[k] })
    &&& d2.rooms@[k].placed_treasure@ == ts.update(t, PlacedTreasureInstance { taken: true, ..ts[t] })
}

/// Message of an item picked up.
pub open spec fn picked_up_text(who: Seq<char>, item: Seq<char>, value: u32) -> Seq<char> {
    who + " picks up "@ + item + "."@ + if value > 0 {
        " (worth "@ + nat_text(value as nat) + " gp)"@
    } else {
        Seq::<char>::empty()
    }
}

fn treasure_position(ts: &Vec<PlacedTreasureInstance>, name: &str) -> (r: Option<usize>)
    ensures
        match r {
            Some(t) => treasure_index_from(ts@, name@, 0) == Some(t as int) && t < ts@.len(),
            None => treasure_index_from(ts@, name@, 0) is None,
        },
{
    let mut i: usize = 0;
    while i < ts.len()
        invariant
            i <= ts@.len(),
            treasure_index_from(ts@, name@, 0) == treasure_index_from(ts@, name@, i as int),
        decreases ts@.len() - i,
    {
        if !ts[i].taken && eq_ignore_ascii_case(ts[i].description.as_str(), name) {
            return Some(i);
        }
        i = i + 1;
    }
    None
}

/// A party member picks up an item; treasure of that description lying in
/// the current room is taken and gives the item its value, unless a value is
/// given.
pub fn action_loot(state: &mut GameState, char_name: &str, item_name: &str, explicit_gp: Option<u32>) -> (r:
    Result<LootResult, EngineError>)
    ensures
        ({
            let spot = loot_spot(old(state).dungeon, item_name@);
            let value: u32 = match explicit_gp {
                Some(v) => v,
                None => match spot {
                    Some(p) => old(state).dungeon->0.rooms@[p.0].placed_treasure@[p.1].gp_value,
                    None => 0,
                },
            };
            &&& match spot {
                None => final(state).dungeon == old(state).dungeon,
                Some(p) => final(state).dungeon matches Some(d2) && treasure_taken(
                    old(state).dungeon->0,
                    d2,
                    p.0,
                    p.1,
                ),
            }
            &&& final(state).party.rations == old(state).party.rations
            &&& final(state).mode == old(state).mode
            &&& final(state).pre_combat_mode == old(state).pre_combat_mode
            &&& final(state).combat == old(state).combat
            &&& final(state).notes == old(state).notes
            &&& final(state).retainers == old(state).retainers
            &&& final(state).effects == old(state).effects
            &&& final(state).dungeon_level == old(state).dungeon_level
            &&& final(state).module_monsters == old(state).module_monsters
            &&& final(state).time == old(state).time
            &&& match member_index(old(state).party.members@, char_name@) {
                None => r matches Err(e) && invalid(e, no_member_text(char_name@))
                    && final(state).party.members == old(state).party.members,
                Some(i) => {
                    let c = old(state).party.members@[i];
                    match r {
                        Ok(res) => {
                            let c2 = final(state).party.members@[i];
                            let it = c2.inventory@.last();
                            &&& final(state).party.members@ == old(state).party.members@.update(i, c2)
                            &&& c2 == Character { inventory: c2.inventory, ..c }
                            &&& c2.inventory@ == c.inventory@.push(it)
                            &&& it.name@ == item_name@
                            &&& it.weight == 0
                            &&& it.value_gp == value
                            &&& !it.equipped
                            &&& res.character@ == c.name@
                            &&& res.item@ == item_name@
                            &&& res.value_gp == value
                            &&& res.message@ == picked_up_text(c.name@, item_name@, value)
                        },
                        Err(_) => false,
                    }
                },
            }
        }),
{
    let ghost s0 = *state;
    let mut room_gp: Option<u32> = None;
    match &mut state.dungeon {
        Some(d) => match d.current_room {
            Some(cur) => match d.room_position(cur) {
                Some(pos) => {
                    proof {
                        crate::state::dungeon::lemma_room_index(d.rooms@, cur);
                    }
                    match treasure_position(&d.rooms[pos].placed_treasure, item_name) {
                        Some(t) => {
                            room_gp = Some(d.rooms[pos].placed_treasure[t].gp_value);
                            d.take_treasure(pos, t);
                        },
                        None => {},
                    }
                },
                None => {},
            },
            None => {},
        },
        None => {},
    }
    let value_gp: u32 = match explicit_gp {
        Some(v) => v,
        None => match room_gp {
            Some(g) => g,
            None => 0,
        },
    };
    let ci = match state.party.find_index(char_name) {
        Some(i) => i,
        None => return Err(no_party_member(char_name)),
    };
    let ghost members0 = state.party.members@;
    let c = &mut state.party.members[ci];
    c.inventory.push(Item::new(item_name, 0, value_gp));
    let mut message = c.name.clone();
    message.append(" picks up ");
    message.append(item_name);
    message.append(".");
    if value_gp > 0 {
        message.append(" (worth ");
        append_nat(&mut message, value_gp as u64);
        message.append(" gp)");
    }
    let res = LootResult { message, character: c.name.clone(), item: String::from_str(item_name), value_gp };
    proof {
        assert(state.party.members@ == members0.update(ci as int, state.party.members@[ci as int]));
    }
    Ok(res)
}

/// Entries of the price list from `lo` up to `hi` that are for sale, as
/// name, price and table.
pub open spec fn listing(lo: nat, hi: nat) -> Seq<(Seq<char>, u32, Seq<char>)>
    decreases hi,
{
    if hi <= lo {
        Seq::empty()
    } else {
        let rest = listing(lo, (hi - 1) as nat);
        let e = catalog_spec((hi - 1) as usize);
        if e.for_sale {
            rest.push((e.name@, e.cost_gp, e.category@))
        } else {
            rest
        }
    }
}

/// Summaries as name, price and table.
pub open spec fn summaries(es: Seq<EquipmentItemSummary>) -> Seq<(Seq<char>, u32, Seq<char>)> {
    es.map_values(|e: EquipmentItemSummary| (e.name@, e.cost_gp, e.category@))
}

fn list_range(lo: usize, hi: usize) -> (r: Vec<EquipmentItemSummary>)
    requires
        lo <= hi <= CATALOG_COUNT,
    ensures
        summaries(r@) == listing(lo as nat, hi as nat),
{
    let mut out: Vec<EquipmentItemSummary> = Vec::new();
    let mut i: usize = lo;
    while i < hi
        invariant
            lo <= i <= hi <= CATALOG_COUNT,
            summaries(out@) == listing(lo as nat, i as nat),
        decreases hi - i,
    {
        let e = catalog_at(i);
        if e.for_sale {
            let ghost before = out@;
            out.push(
                EquipmentItemSummary {
                    name: String::from_str(e.name),
                    cost_gp: e.cost_gp,
                    category: String::from_str(e.category),
                },
            );
            proof {
                assert(summaries(out@) =~= summaries(before).push((e.name@, e.cost_gp, e.category@)));
            }
        }
        i = i + 1;
    }
    out
}

/// The price list, table by table, without weapons or armour that have no
/// price.
pub fn action_list_equipment() -> (r: ListEquipmentResult)
    ensures
        summaries(r.weapons@) == listing(0, WEAPON_COUNT as nat),
        summaries(r.armour@) == listing(WEAPON_COUNT as nat, (WEAPON_COUNT + ARMOUR_COUNT) as nat),
        summaries(r.gear@) == listing(
            (WEAPON_COUNT + ARMOUR_COUNT) as nat,
            (WEAPON_COUNT + ARMOUR_COUNT + GEAR_COUNT) as nat,
        ),
        summaries(r.ammunition@) == listing(
            (WEAPON_COUNT + ARMOUR_COUNT + GEAR_COUNT) as nat,
            CATALOG_COUNT as nat,
        ),
{
    ListEquipmentResult {
        weapons: list_range(0, WEAPON_COUNT),
        armour: list_range(WEAPON_COUNT, WEAPON_COUNT + ARMOUR_COUNT),
        gear: list_range(WEAPON_COUNT + ARMOUR_COUNT, WEAPON_COUNT + ARMOUR_COUNT + GEAR_COUNT),
        ammunition: list_range(WEAPON_COUNT + ARMOUR_COUNT + GEAR_COUNT, CATALOG_COUNT),
    }
}

} // verus!
