//! Monster definitions: the core bestiary and definitions supplied by an
//! adventure module.
use vstd::prelude::*;

use crate::model::{HitDice, MonsterAttackRoutine};
use crate::state::effect::texts;
use crate::text::{eq_ignore_case, eq_ignore_ascii_case};

verus! {

/// A kind of monster.
#[derive(Clone, Debug)]
pub struct MonsterDef {
    pub name: String,
    pub hit_dice: HitDice,
    pub ac: i32,
    pub attack_routines: Vec<MonsterAttackRoutine>,
    pub morale: u32,
    pub xp: u64,
    pub undead: bool,
    pub immune_to_normal_weapons: bool,
    pub special: String,
}

/// Names of a definition's attack routines.
pub open spec fn routine_names(rs: Seq<MonsterAttackRoutine>) -> Seq<Seq<char>> {
    rs.map_values(|r: MonsterAttackRoutine| r.name@)
}

/// Damage dice of a definition's attack routines.
pub open spec fn routine_damages(rs: Seq<MonsterAttackRoutine>) -> Seq<Seq<char>> {
    rs.map_values(|r: MonsterAttackRoutine| r.damage@)
}

impl MonsterDef {
    /// A monster kind with one weapon attack of 1d6 and no special abilities.
    pub fn new(name: &str, hit_dice: HitDice, ac: i32, morale: u32) -> (r: MonsterDef)
        ensures
            r.name@ == name@,
            r.hit_dice == hit_dice,
            r.ac == ac,
            r.morale == morale,
            r.xp == 0,
            !r.undead,
            !r.immune_to_normal_weapons,
            routine_names(r.attack_routines@) == seq!["weapon"@],
            routine_damages(r.attack_routines@) == seq!["1d6"@],
            r.special@ == Seq::<char>::empty(),
    {
        let mut routines: Vec<MonsterAttackRoutine> = Vec::new();
        routines.push(MonsterAttackRoutine { name: String::from_str("weapon"), damage: String::from_str("1d6") });
        proof {
            assert(routine_names(routines@) =~= seq!["weapon"@]);
            assert(routine_damages(routines@) =~= seq!["1d6"@]);
        }
        MonsterDef {
            name: String::from_str(name),
            hit_dice,
            ac,
            attack_routines: routines,
            morale,
            xp: 0,
            undead: false,
            immune_to_normal_weapons: false,
            special: String::new(),
        }
    }

    /// The names of the attacks.
    pub fn attack_names(&self) -> (r: Vec<String>)
        ensures
            texts(r@) == routine_names(self.attack_routines@),
    {
        let mut out: Vec<String> = Vec::new();
        let mut i: usize = 0;
        while i < self.attack_routines.len()
            invariant
                i <= self.attack_routines@.len(),
                texts(out@) == routine_names(self.attack_routines@.take(i as int)),
            decreases self.attack_routines@.len() - i,
        {
            let ghost before = out@;
            out.push(self.attack_routines[i].name.clone());
            proof {
                assert(texts(out@) =~= texts(before).push(self.attack_routines@[i as int].name@));
                assert(routine_names(self.attack_routines@.take(i as int + 1)) =~= routine_names(
                    self.attack_routines@.take(i as int),
                ).push(self.attack_routines@[i as int].name@));
            }
            i = i + 1;
        }
        proof {
            assert(self.attack_routines@.take(i as int) =~= self.attack_routines@);
        }
        out
    }

    /// The damage of the first attack routine (1d6 when there is none).
    pub fn damage(&self) -> (r: String)
        ensures
            r@ == primary_damage(routine_pairs(self.attack_routines@)),
    {
        if self.attack_routines.len() > 0 {
            self.attack_routines[0].damage.clone()
        } else {
            String::from_str("1d6")
        }
    }

    /// A copy of the attack routines.
    pub fn routines(&self) -> (r: Vec<MonsterAttackRoutine>)
        ensures
            routine_pairs(r@) == routine_pairs(self.attack_routines@),
    {
        let mut out: Vec<MonsterAttackRoutine> = Vec::new();
        let mut i: usize = 0;
        while i < self.attack_routines.len()
            invariant
                i <= self.attack_routines@.len(),
                routine_pairs(out@) == routine_pairs(self.attack_routines@.take(i as int)),
            decreases self.attack_routines@.len() - i,
        {
            let ghost before = out@;
            let r = &self.attack_routines[i];
            out.push(MonsterAttackRoutine { name: r.name.clone(), damage: r.damage.clone() });
            proof {
                let t = self.attack_routines@.take(i as int + 1);
                assert(t.drop_last() =~= self.attack_routines@.take(i as int));
                assert(routine_pairs(out@) =~= routine_pairs(before).push((r.name@, r.damage@)));
                assert(routine_pairs(t) =~= routine_pairs(t.drop_last()).push((r.name@, r.damage@)));
            }
            i = i + 1;
        }
        proof {
            assert(self.attack_routines@.take(i as int) =~= self.attack_routines@);
        }
        out
    }
}

/// The attack routines of a definition as (name, damage) pairs.
pub open spec fn routine_pairs(rs: Seq<MonsterAttackRoutine>) -> Seq<(Seq<char>, Seq<char>)> {
    rs.map_values(|r: MonsterAttackRoutine| (r.name@, r.damage@))
}

/// The damage of the first of a list of attack routines, 1d6 when it is empty.
pub open spec fn primary_damage(routines: Seq<(Seq<char>, Seq<char>)>) -> Seq<char> {
    if routines.len() > 0 {
        routines[0].1
    } else {
        "1d6"@
    }
}

/// Number of kinds in the core bestiary.
pub const BESTIARY_COUNT: usize = 14;

/// The core bestiary's names, by position.
pub open spec fn bestiary_name(i: int) -> Seq<char> {
    if i == 0 {
        "Goblin"@
    } else if i == 1 {
        "Kobold"@
    } else if i == 2 {
        "Orc"@
    } else if i == 3 {
        "Hobgoblin"@
    } else if i == 4 {
        "Gnoll"@
    } else if i == 5 {
        "Bugbear"@
    } else if i == 6 {
        "Ogre"@
    } else if i == 7 {
        "Skeleton"@
    } else if i == 8 {
        "Zombie"@
    } else if i == 9 {
        "Ghoul"@
    } else if i == 10 {
        "Wight"@
    } else if i == 11 {
        "Giant Rat"@
    } else if i == 12 {
        "Wolf"@
    } else {
        "Cave Bear"@
    }
}

/// The core bestiary's numbers, by position: hit dice, hit dice modifier,
/// armour class, morale, experience value, undead, immune to normal weapons.
pub open spec fn bestiary_stats(i: int) -> (u32, i32, i32, u32, u64, bool, bool) {
    if i == 0 {
        (1u32, -1i32, 6i32, 7u32, 5u64, false, false)
    } else if i == 1 {
        (0u32, 0i32, 7i32, 6u32, 5u64, false, false)
    } else if i == 2 {
        (1u32, 0i32, 6i32, 8u32, 10u64, false, false)
    } else if i == 3 {
        (1u32, 1i32, 6i32, 8u32, 15u64, false, false)
    } else if i == 4 {
        (2u32, 0i32, 5i32, 8u32, 20u64, false, false)
    } else if i == 5 {
        (3u32, 1i32, 5i32, 9u32, 75u64, false, false)
    } else if i == 6 {
        (4u32, 1i32, 5i32, 10u32, 125u64, false, false)
    } else if i == 7 {
        (1u32, 0i32, 7i32, 12u32, 10u64, true, false)
    } else if i == 8 {
        (2u32, 0i32, 8i32, 12u32, 20u64, true, false)
    } else if i == 9 {
        (2u32, 0i32, 6i32, 9u32, 25u64, true, false)
    } else if i == 10 {
        (3u32, 0i32, 5i32, 12u32, 50u64, true, true)
    } else if i == 11 {
        (0u32, 0i32, 7i32, 8u32, 5u64, false, false)
    } else if i == 12 {
        (2u32, 2i32, 7i32, 8u32, 25u64, false, false)
    } else {
        (7u32, 0i32, 5i32, 9u32, 450u64, false, false)
    }
}

/// The core bestiary's attack routines (name and damage), by position.
pub open spec fn bestiary_routines(i: int) -> Seq<(Seq<char>, Seq<char>)> {
    if i == 0 {
        seq![("weapon"@, "1d6"@)]
    } else if i == 1 {
        seq![("weapon"@, "1d4"@)]
    } else if i == 2 {
        seq![("weapon"@, "1d6"@)]
    } else if i == 3 {
        seq![("weapon"@, "1d6"@)]
    } else if i == 4 {
        seq![("weapon"@, "2d4"@)]
    } else if i == 5 {
        seq![("weapon"@, "2d4"@)]
    } else if i == 6 {
        seq![("club"@, "1d10"@)]
    } else if i == 7 {
        seq![("weapon"@, "1d6"@)]
    } else if i == 8 {
        seq![("weapon"@, "1d8"@)]
    } else if i == 9 {
        seq![("claw"@, "1d3"@), ("claw"@, "1d3"@), ("bite"@, "1d3"@)]
    } else if i == 10 {
        seq![("touch"@, "1d6"@)]
    } else if i == 11 {
        seq![("bite"@, "1d3"@)]
    } else if i == 12 {
        seq![("bite"@, "1d6"@)]
    } else {
        seq![("claw"@, "1d8"@), ("claw"@, "1d8"@), ("bite"@, "2d6"@)]
    }
}

/// The core bestiary's notes on special abilities, by position.
pub open spec fn bestiary_special(i: int) -> Seq<char> {
    if i == 0 {
        ""@
    } else if i == 1 {
        ""@
    } else if i == 2 {
        ""@
    } else if i == 3 {
        ""@
    } else if i == 4 {
        ""@
    } else if i == 5 {
        "Surprise on 1-3."@
    } else if i == 6 {
        ""@
    } else if i == 7 {
        "Undead: immune to sleep, charm and hold."@
    } else if i == 8 {
        "Undead: immune to sleep, charm and hold. Always acts last."@
    } else if i == 9 {
        "Paralysing touch."@
    } else if i == 10 {
        "Energy drain. Hit only by silver or magic weapons."@
    } else if i == 11 {
        "Bite may cause disease."@
    } else if i == 12 {
        ""@
    } else {
        "Hug: 2d8 if both claws hit."@
    }
}

/// Definition `d` is kind `i` of the core bestiary.
pub open spec fn is_bestiary_entry(d: MonsterDef, i: int) -> bool {
    let st = bestiary_stats(i);
    &&& d.name@ == bestiary_name(i)
    &&& d.hit_dice == HitDice { dice: st.0, modifier: st.1 }
    &&& d.ac == st.2
    &&& d.morale == st.3
    &&& d.xp == st.4
    &&& d.undead == st.5
    &&& d.immune_to_normal_weapons == st.6
    &&& routine_pairs(d.attack_routines@) == bestiary_routines(i)
    &&& d.special@ == bestiary_special(i)
}

/// Position in the core bestiary, from `i` on, of the kind named `name`
/// (ASCII case ignored).
pub open spec fn bestiary_index_from(name: Seq<char>, i: int) -> Option<int>
    decreases BESTIARY_COUNT - i,
{
    if i < 0 || i >= BESTIARY_COUNT {
        None
    } else if eq_ignore_case(bestiary_name(i), name) {
        Some(i)
    } else {
        bestiary_index_from(name, i + 1)
    }
}

/// Position in the core bestiary of the kind named `name`.
pub open spec fn bestiary_index(name: Seq<char>) -> Option<int> {
    bestiary_index_from(name, 0)
}

fn routine(name: &str, damage: &str) -> (r: MonsterAttackRoutine)
    ensures
        r.name@ == name@,
        r.damage@ == damage@,
{
    MonsterAttackRoutine { name: String::from_str(name), damage: String::from_str(damage) }
}

fn def(
    name: &str,
    hit_dice: HitDice,
    ac: i32,
    routines: Vec<MonsterAttackRoutine>,
    morale: u32,
    xp: u64,
    undead: bool,
    immune: bool,
    special: &str,
) -> (r: MonsterDef)
    ensures
        r.name@ == name@,
        r.hit_dice == hit_dice,
        r.ac == ac,
        r.attack_routines@ == routines@,
        r.morale == morale,
        r.xp == xp,
        r.undead == undead,
        r.immune_to_normal_weapons == immune,
        r.special@ == special@,
{
    MonsterDef {
        name: String::from_str(name),
        hit_dice,
        ac,
        attack_routines: routines,
        morale,
        xp,
        undead,
        immune_to_normal_weapons: immune,
        special: String::from_str(special),
    }
}

/// Kind `i` of the core bestiary.
pub fn bestiary_entry(i: usize) -> (r: MonsterDef)
    requires
        i < BESTIARY_COUNT,
    ensures
        is_bestiary_entry(r, i as int),
{
    let r = bestiary_entry_raw(i);
    proof {
        assert(routine_pairs(r.attack_routines@) =~= bestiary_routines(i as int));
    }
    r
}

fn bestiary_entry_raw(i: usize) -> (r: MonsterDef)
    requires
        i < BESTIARY_COUNT,
    ensures
        r.name@ == bestiary_name(i as int),
        r.hit_dice == (HitDice { dice: bestiary_stats(i as int).0, modifier: bestiary_stats(i as int).1 }),
        r.ac == bestiary_stats(i as int).2,
        r.morale == bestiary_stats(i as int).3,
        r.xp == bestiary_stats(i as int).4,
        r.undead == bestiary_stats(i as int).5,
        r.immune_to_normal_weapons == bestiary_stats(i as int).6,
        r.special@ == bestiary_special(i as int),
        r.attack_routines@.len() == bestiary_routines(i as int).len(),
        forall|k: int| 0 <= k < r.attack_routines@.len() ==> (#[trigger] r.attack_routines@[k]).name@ == bestiary_routines(i as int)[k].0
            && r.attack_routines@[k].damage@ == bestiary_routines(i as int)[k].1,
{
    if i == 0 {
        def("Goblin", HitDice::new(1, -1), 6, vec![routine("weapon", "1d6")], 7, 5, false, false, "")
    } else if i == 1 {
        def("Kobold", HitDice::new(0, 0), 7, vec![routine("weapon", "1d4")], 6, 5, false, false, "")
    } else if i == 2 {
        def("Orc", HitDice::new(1, 0), 6, vec![routine("weapon", "1d6")], 8, 10, false, false, "")
    } else if i == 3 {
        def("Hobgoblin", HitDice::new(1, 1), 6, vec![routine("weapon", "1d6")], 8, 15, false, false, "")
    } else if i == 4 {
        def("Gnoll", HitDice::new(2, 0), 5, vec![routine("weapon", "2d4")], 8, 20, false, false, "")
    } else if i == 5 {
        def("Bugbear", HitDice::new(3, 1), 5, vec![routine("weapon", "2d4")], 9, 75, false, false,
            "Surprise on 1-3.")
    } else if i == 6 {
        def("Ogre", HitDice::new(4, 1), 5, vec![routine("club", "1d10")], 10, 125, false, false, "")
    } else if i == 7 {
        def("Skeleton", HitDice::new(1, 0), 7, vec![routine("weapon", "1d6")], 12, 10, true, false,
            "Undead: immune to sleep, charm and hold.")
    } else if i == 8 {
        def("Zombie", HitDice::new(2, 0), 8, vec![routine("weapon", "1d8")], 12, 20, true, false,
            "Undead: immune to sleep, charm and hold. Always acts last.")
    } else if i == 9 {
        def("Ghoul", HitDice::new(2, 0), 6, vec![routine("claw", "1d3"), routine("claw", "1d3"), routine("bite", "1d3")],
            9, 25, true, false, "Paralysing touch.")
    } else if i == 10 {
        def("Wight", HitDice::new(3, 0), 5, vec![routine("touch", "1d6")], 12, 50, true, true,
            "Energy drain. Hit only by silver or magic weapons.")
    } else if i == 11 {
        def("Giant Rat", HitDice::new(0, 0), 7, vec![routine("bite", "1d3")], 8, 5, false, false,
            "Bite may cause disease.")
    } else if i == 12 {
        def("Wolf", HitDice::new(2, 2), 7, vec![routine("bite", "1d6")], 8, 25, false, false, "")
    } else {
        def("Cave Bear", HitDice::new(7, 0), 5, vec![routine("claw", "1d8"), routine("claw", "1d8"), routine("bite", "2d6")],
            9, 450, false, false, "Hug: 2d8 if both claws hit.")
    }
}

/// The core bestiary's kind named `name` (ASCII case ignored).
pub fn find_monster(name: &str) -> (r: Option<MonsterDef>)
    ensures
        match r {
            Some(d) => bestiary_index(name@) matches Some(i) && is_bestiary_entry(d, i),
            None => bestiary_index(name@) is None,
        },
{
    let mut i: usize = 0;
    while i < BESTIARY_COUNT
        invariant
            i <= BESTIARY_COUNT,
            bestiary_index(name@) == bestiary_index_from(name@, i as int),
        decreases BESTIARY_COUNT - i,
    {
        let d = bestiary_entry(i);
        if eq_ignore_ascii_case(d.name.as_str(), name) {
            return Some(d);
        }
        i = i + 1;
    }
    None
}

/// A kind of monster seen as values: what a definition says of it.
pub struct MonsterKind {
    pub name: Seq<char>,
    pub hit_dice: HitDice,
    pub ac: i32,
    pub morale: u32,
    pub xp: u64,
    pub routines: Seq<(Seq<char>, Seq<char>)>,
    pub undead: bool,
    pub immune: bool,
    pub special: Seq<char>,
}

/// What definition `d` says of its kind.
pub open spec fn kind_of(d: MonsterDef) -> MonsterKind {
    MonsterKind {
        name: d.name@,
        hit_dice: d.hit_dice,
        ac: d.ac,
        morale: d.morale,
        xp: d.xp,
        routines: routine_pairs(d.attack_routines@),
        undead: d.undead,
        immune: d.immune_to_normal_weapons,
        special: d.special@,
    }
}

/// Kind `i` of the core bestiary.
pub open spec fn bestiary_kind(i: int) -> MonsterKind {
    let st = bestiary_stats(i);
    MonsterKind {
        name: bestiary_name(i),
        hit_dice: HitDice { dice: st.0, modifier: st.1 },
        ac: st.2,
        morale: st.3,
        xp: st.4,
        routines: bestiary_routines(i),
        undead: st.5,
        immune: st.6,
        special: bestiary_special(i),
    }
}

/// Whether a list of special abilities marks a monster as undead: one of
/// them begins with `Undead` (ASCII case ignored).
pub open spec fn undead_listed(specials: Seq<String>) -> bool {
    exists|i: int|
        0 <= i < specials.len() && crate::text::starts_with_ignore_case(#[trigger] specials[i]@, "undead"@)
}

/// Whether a module monster's special abilities mark it as undead.
pub fn lists_undead(specials: &Vec<String>) -> (r: bool)
    ensures
        r == undead_listed(specials@),
{
    let mut i: usize = 0;
    while i < specials.len()
        invariant
            i <= specials@.len(),
            forall|j: int|
                0 <= j < i ==> !crate::text::starts_with_ignore_case(#[trigger] specials@[j]@, "undead"@),
        decreases specials@.len() - i,
    {
        if crate::text::starts_with_ignore_ascii_case(specials[i].as_str(), "undead") {
            return true;
        }
        i = i + 1;
    }
    false
}

/// Monster definitions supplied by an adventure module, each under a key
/// (the lower-cased name).
#[derive(Clone, Debug)]
pub struct ModuleMonsters {
    pub entries: Vec<(String, MonsterDef)>,
}

/// Position of the first entry from `i` on with key `key`.
pub open spec fn entry_index_from(entries: Seq<(String, MonsterDef)>, key: Seq<char>, i: int) -> Option<int>
    decreases entries.len() - i,
{
    if i < 0 || i >= entries.len() {
        None
    } else if entries[i].0@ == key {
        Some(i)
    } else {
        entry_index_from(entries, key, i + 1)
    }
}

/// The definition filed under `key`.
pub open spec fn module_lookup(entries: Seq<(String, MonsterDef)>, key: Seq<char>) -> Option<MonsterDef> {
    match entry_index_from(entries, key, 0) {
        Some(i) => Some(entries[i].1),
        None => None,
    }
}

/// Where the search for a key from `i` on stops.
pub proof fn lemma_entry_index_from(entries: Seq<(String, MonsterDef)>, key: Seq<char>, i: int)
    requires
        0 <= i <= entries.len(),
    ensures
        match entry_index_from(entries, key, i) {
            Some(k) => i <= k < entries.len() && entries[k].0@ == key && forall|j: int|
                i <= j < k ==> (#[trigger] entries[j]).0@ != key,
            None => forall|j: int| i <= j < entries.len() ==> (#[trigger] entries[j]).0@ != key,
        },
    decreases entries.len() - i,
{
    if i < entries.len() && entries[i].0@ != key {
        lemma_entry_index_from(entries, key, i + 1);
    }
}

/// `entry_index_from` depends only on the entries' keys from `i` on.
proof fn lemma_entry_index_same_keys(
    a: Seq<(String, MonsterDef)>,
    b: Seq<(String, MonsterDef)>,
    key: Seq<char>,
    i: int,
)
    requires
        0 <= i <= a.len(),
        a.len() == b.len(),
        forall|j: int| i <= j < a.len() ==> (#[trigger] a[j]).0@ == b[j].0@,
    ensures
        entry_index_from(a, key, i) == entry_index_from(b, key, i),
    decreases a.len() - i,
{
    if i < a.len() {
        lemma_entry_index_same_keys(a, b, key, i + 1);
    }
}

impl ModuleMonsters {
    /// No definitions.
    pub fn new() -> (r: ModuleMonsters)
        ensures
            r.entries@.len() == 0,
    {
        ModuleMonsters { entries: Vec::new() }
    }

    fn position(&self, key: &str) -> (r: Option<usize>)
        ensures
            match r {
                Some(k) => entry_index_from(self.entries@, key@, 0) == Some(k as int),
                None => entry_index_from(self.entries@, key@, 0) is None,
            },
    {
        let mut i: usize = 0;
        while i < self.entries.len()
            invariant
                i <= self.entries@.len(),
                entry_index_from(self.entries@, key@, 0) == entry_index_from(self.entries@, key@, i as int),
            decreases self.entries@.len() - i,
        {
            if crate::text::str_eq(self.entries[i].0.as_str(), key) {
                return Some(i);
            }
            i = i + 1;
        }
        None
    }

    /// The definition filed under `key`.
    pub fn get(&self, key: &str) -> (r: Option<&MonsterDef>)
        ensures
            match module_lookup(self.entries@, key@) {
                Some(d) => r == Some(&d),
                None => r is None,
            },
    {
        proof {
            lemma_entry_index_from(self.entries@, key@, 0);
        }
        match self.position(key) {
            Some(k) => {
                assert(entry_index_from(self.entries@, key@, 0) == Some(k as int));
                let e = &self.entries[k];
                assert(*e == self.entries@[k as int]);
                assert(module_lookup(self.entries@, key@) == Some(e.1));
                Some(&e.1)
            },
            None => None,
        }
    }

    /// Whether a definition is filed under `key`.
    pub fn contains_key(&self, key: &str) -> (r: bool)
        ensures
            r == module_lookup(self.entries@, key@) is Some,
    {
        self.position(key).is_some()
    }

    /// Files `def` under `key`, replacing what was filed there.
    pub fn insert(&mut self, key: String, def: MonsterDef)
        ensures
            module_lookup(final(self).entries@, key@) == Some(def),
            forall|other: Seq<char>|
                other != key@ ==> #[trigger] module_lookup(final(self).entries@, other) == module_lookup(
                    old(self).entries@,
                    other,
                ),
    {
        proof {
            lemma_entry_index_from(self.entries@, key@, 0);
        }
        match self.position(key.as_str()) {
            Some(k) => {
                let ghost before = self.entries@;
                let ghost kv = key@;
                self.entries.set(k, (key, def));
                proof {
                    let after = self.entries@;
                    assert(before[k as int].0@ == kv);
                    assert forall|j: int| 0 <= j < before.len() implies (#[trigger] before[j]).0@ == after[j].0@ by {
                        if j != k {
                            assert(after[j] == before[j]);
                        }
                    };
                    lemma_entry_index_same_keys(before, after, key@, 0);
                    assert forall|other: Seq<char>| other != key@ implies #[trigger] module_lookup(
                        after,
                        other,
                    ) == module_lookup(before, other) by {
                        lemma_entry_index_same_keys(before, after, other, 0);
                        lemma_entry_index_from(before, other, 0);
                    };
                }
            },
            None => {
                let ghost before = self.entries@;
                let ghost kv = key@;
                self.entries.push((key, def));
                proof {
                    let after = self.entries@;
                    assert(after[before.len() as int].0@ == kv);
                    assert forall|j: int| 0 <= j < before.len() implies #[trigger] after[j] == before[j] by {};
                    lemma_entry_index_from(after, kv, 0);
                    assert(entry_index_from(after, kv, 0) == Some(before.len() as int)) by {
                        match entry_index_from(after, kv, 0) {
                            Some(k) => {
                                if k < before.len() {
                                    assert(after[k] == before[k]);
                                }
                            },
                            None => {
                                assert(after[before.len() as int].0@ != kv);
                            },
                        }
                    };
                    assert forall|other: Seq<char>| other != kv implies #[trigger] module_lookup(
                        after,
                        other,
                    ) == module_lookup(before, other) by {
                        lemma_entry_index_from(before, other, 0);
                        lemma_entry_index_from(after, other, 0);
                        match entry_index_from(after, other, 0) {
                            Some(k) => {
                                if k < before.len() {
                                    assert(after[k] == before[k]);
                                    match entry_index_from(before, other, 0) {
                                        Some(k2) => {
                                            assert(after[k2] == before[k2]);
                                        },
                                        None => {},
                                    }
                                }
                            },
                            None => {
                                match entry_index_from(before, other, 0) {
                                    Some(k2) => {
                                        assert(after[k2] == before[k2]);
                                    },
                                    None => {},
                                }
                            },
                        }
                    };
                }
            },
        }
    }
}

/// What is filed under a key after filing `def` under it is `def`, and
/// every other key keeps what it had.
pub proof fn lemma_insert_then_get(
    before: Seq<(String, MonsterDef)>,
    after: Seq<(String, MonsterDef)>,
    key: Seq<char>,
    def: MonsterDef,
    other: Seq<char>,
)
    requires
        module_lookup(after, key) == Some(def),
        forall|o: Seq<char>| o != key ==> #[trigger] module_lookup(after, o) == module_lookup(before, o),
    ensures
        module_lookup(after, other) == if other == key {
            Some(def)
        } else {
            module_lookup(before, other)
        },
{
}

} // verus!
