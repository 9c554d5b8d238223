//! Turning an adventure module into a dungeon and loading it.
use vstd::prelude::*;

use crate::bestiary::{MonsterDef, ModuleMonsters, module_lookup};
use crate::engine::combat::actions::{invalid, wrong_state};
use crate::rules::module::{
    ModuleDef, ModuleExit, ModuleLevel, ModuleRoom, PlacedMonster, PlacedTreasure, module_wf,
};
use crate::state::dungeon::{
    Door, DoorState, DungeonState, PlacedMonsterInstance, PlacedTreasureInstance, Room, no_room_text,
    self_door_text,
};
use crate::state::effect::texts;
use crate::state::{EngineError, GameMode, GameState};
use crate::text::{
    append_nat, lemma_text_order, lowercase, lowercase_text, nat_text, str_eq, text_less, text_lt,
};

use super::results::LoadModuleResult;

verus! {

/// Key of the module room at position `p` of `ord`.
pub open spec fn key_at(m: ModuleDef, ord: Seq<usize>, p: int) -> Seq<char> {
    m.rooms@[ord[p] as int].0@
}

/// `ord` lists the module's rooms in increasing key order, each once (the
/// keys are distinct, so a strictly increasing list of `n` of them is a
/// permutation).
pub open spec fn key_order(m: ModuleDef, ord: Seq<usize>) -> bool {
    &&& ord.len() == m.rooms@.len()
    &&& forall|p: int| 0 <= p < ord.len() ==> (#[trigger] ord[p]) < m.rooms@.len()
    &&& forall|p: int, q: int|
        0 <= p < q < ord.len() ==> text_less(#[trigger] key_at(m, ord, p), #[trigger] key_at(m, ord, q))
}

/// The positions of the module's rooms, sorted by key.
fn sort_rooms(module: &ModuleDef) -> (ord: Vec<usize>)
    requires
        module_wf(*module),
    ensures
        key_order(*module, ord@),
{
    let n = module.rooms.len();
    let mut ord: Vec<usize> = Vec::new();
    let mut i: usize = 0;
    while i < n
        invariant
            n == module.rooms@.len(),
            module_wf(*module),
            i <= n,
            ord@.len() == i,
            forall|p: int| 0 <= p < ord@.len() ==> (#[trigger] ord@[p]) < i,
            forall|p: int, q: int|
                0 <= p < q < ord@.len() ==> text_less(
                    #[trigger] key_at(*module, ord@, p),
                    #[trigger] key_at(*module, ord@, q),
                ),
        decreases n - i,
    {
        let key = module.rooms[i].0.as_str();
        let mut p: usize = 0;
        while p < ord.len()
            invariant
                n == module.rooms@.len(),
                i < n,
                key@ == module.rooms@[i as int].0@,
                p <= ord@.len(),
                forall|q: int| 0 <= q < ord@.len() ==> (#[trigger] ord@[q]) < i,
                forall|q: int| 0 <= q < p ==> text_less(#[trigger] key_at(*module, ord@, q), key@),
            ensures
                p <= ord@.len(),
                forall|q: int| 0 <= q < p ==> text_less(#[trigger] key_at(*module, ord@, q), key@),
                p < ord@.len() ==> !text_less(key_at(*module, ord@, p as int), key@),
            decreases ord@.len() - p,
        {
            if !text_lt(module.rooms[ord[p]].0.as_str(), key) {
                break;
            }
            p = p + 1;
        }
        let ghost before = ord@;
        proof {
            if p < before.len() {
                let kp = key_at(*module, before, p as int);
                assert(!text_less(kp, key@));
                assert(kp != key@) by {
                    assert(before[p as int] < i);
                    assert(module.rooms@[before[p as int] as int] == module.rooms@[before[p as int] as int]);
                }
                lemma_text_order(kp, key@, kp);
            }
        }
        ord.insert(p, i);
        proof {
            assert(ord@ =~= before.insert(p as int, i));
            assert forall|a: int, b: int| 0 <= a < b < ord@.len() implies text_less(
                #[trigger] key_at(*module, ord@, a),
                #[trigger] key_at(*module, ord@, b),
            ) by {
                let ka = key_at(*module, ord@, a);
                let kb = key_at(*module, ord@, b);
                if b < p {
                    assert(ka == key_at(*module, before, a));
                    assert(kb == key_at(*module, before, b));
                } else if b == p {
                    assert(ka == key_at(*module, before, a));
                } else if a < p {
                    assert(ka == key_at(*module, before, a));
                    assert(kb == key_at(*module, before, b - 1));
                    let kp = key_at(*module, before, p as int);
                    if b - 1 > p {
                        assert(text_less(kp, kb));
                    }
                    lemma_text_order(ka, key@, kp);
                    lemma_text_order(key@, kp, kb);
                    lemma_text_order(ka, key@, kb);
                } else if a == p {
                    assert(kb == key_at(*module, before, b - 1));
                    let kp = key_at(*module, before, p as int);
                    if b - 1 > p {
                        assert(text_less(kp, kb));
                        lemma_text_order(key@, kp, kb);
                    }
                } else {
                    assert(ka == key_at(*module, before, a - 1));
                    assert(kb == key_at(*module, before, b - 1));
                }
            }
        }
        i = i + 1;
    }
    ord
}

// ── Room ids ───────────────────────────────────────────────────

/// Position in `ord`, from `p` on, of the room with key `k`.
pub open spec fn pos_of_key_from(m: ModuleDef, ord: Seq<usize>, k: Seq<char>, p: int) -> Option<int>
    decreases ord.len() - p,
{
    if p < 0 || p >= ord.len() {
        None
    } else if key_at(m, ord, p) == k {
        Some(p)
    } else {
        pos_of_key_from(m, ord, k, p + 1)
    }
}

/// Position in `ord` of the room with key `k`.
pub open spec fn pos_of_key(m: ModuleDef, ord: Seq<usize>, k: Seq<char>) -> Option<int> {
    pos_of_key_from(m, ord, k, 0)
}

/// Position in `ord` of the entry room, when the module has it.
pub open spec fn entry_pos(m: ModuleDef, ord: Seq<usize>) -> Option<int> {
    pos_of_key(m, ord, m.entry_room@)
}

/// Room id of the room at position `p`: the entry room gets 0, the others
/// count up from 1 in key order.
pub open spec fn id_at(m: ModuleDef, ord: Seq<usize>, p: int) -> int {
    if key_at(m, ord, p) == m.entry_room@ {
        0
    } else {
        match entry_pos(m, ord) {
            Some(e) => if e < p {
                p
            } else {
                p + 1
            },
            None => p + 1,
        }
    }
}

/// Room id of a key: the entry key has 0, whether or not the module has
/// that room.
pub open spec fn key_id(m: ModuleDef, ord: Seq<usize>, k: Seq<char>) -> Option<int> {
    if k == m.entry_room@ {
        Some(0)
    } else {
        match pos_of_key(m, ord, k) {
            Some(p) => Some(id_at(m, ord, p)),
            None => None,
        }
    }
}

proof fn lemma_pos_of_key_from(m: ModuleDef, ord: Seq<usize>, k: Seq<char>, p: int)
    requires
        0 <= p <= ord.len(),
    ensures
        match pos_of_key_from(m, ord, k, p) {
            Some(q) => p <= q < ord.len() && key_at(m, ord, q) == k && forall|j: int|
                p <= j < q ==> #[trigger] key_at(m, ord, j) != k,
            None => forall|j: int| p <= j < ord.len() ==> #[trigger] key_at(m, ord, j) != k,
        },
    decreases ord.len() - p,
{
    if p < ord.len() && key_at(m, ord, p) != k {
        lemma_pos_of_key_from(m, ord, k, p + 1);
    }
}

/// Where the room with a key stands in a key order.
pub proof fn lemma_pos_of_key(m: ModuleDef, ord: Seq<usize>, k: Seq<char>)
    ensures
        match pos_of_key(m, ord, k) {
            Some(q) => 0 <= q < ord.len() && key_at(m, ord, q) == k,
            None => forall|j: int| 0 <= j < ord.len() ==> #[trigger] key_at(m, ord, j) != k,
        },
{
    lemma_pos_of_key_from(m, ord, k, 0);
}

/// In a key order each key stands at one position.
proof fn lemma_key_unique(m: ModuleDef, ord: Seq<usize>, p: int, q: int)
    requires
        key_order(m, ord),
        0 <= p < ord.len(),
        0 <= q < ord.len(),
        key_at(m, ord, p) == key_at(m, ord, q),
    ensures
        p == q,
{
    if p < q {
        lemma_text_order(key_at(m, ord, p), key_at(m, ord, q), key_at(m, ord, q));
    } else if q < p {
        lemma_text_order(key_at(m, ord, q), key_at(m, ord, p), key_at(m, ord, p));
    }
}

fn find_key(module: &ModuleDef, ord: &Vec<usize>, k: &str) -> (r: Option<usize>)
    requires
        key_order(*module, ord@),
    ensures
        match r {
            Some(p) => pos_of_key(*module, ord@, k@) == Some(p as int) && p < ord@.len(),
            None => pos_of_key(*module, ord@, k@) is None,
        },
{
    proof {
        lemma_pos_of_key(*module, ord@, k@);
    }
    let mut p: usize = 0;
    while p < ord.len()
        invariant
            key_order(*module, ord@),
            p <= ord@.len(),
            pos_of_key(*module, ord@, k@) == pos_of_key_from(*module, ord@, k@, p as int),
        decreases ord@.len() - p,
    {
        if str_eq(module.rooms[ord[p]].0.as_str(), k) {
            return Some(p);
        }
        p = p + 1;
    }
    None
}

fn room_id_at(module: &ModuleDef, ord: &Vec<usize>, p: usize, entry: Option<usize>) -> (r: u32)
    requires
        key_order(*module, ord@),
        ord@.len() < u32::MAX,
        p < ord@.len(),
        match entry {
            Some(e) => entry_pos(*module, ord@) == Some(e as int),
            None => entry_pos(*module, ord@) is None,
        },
    ensures
        r as int == id_at(*module, ord@, p as int),
        r <= ord@.len(),
{
    if str_eq(module.rooms[ord[p]].0.as_str(), module.entry_room.as_str()) {
        0
    } else {
        match entry {
            Some(e) => if e < p {
                p as u32
            } else {
                (p + 1) as u32
            },
            None => (p + 1) as u32,
        }
    }
}

fn key_target(module: &ModuleDef, ord: &Vec<usize>, entry: Option<usize>, k: &str) -> (r: Option<u32>)
    requires
        key_order(*module, ord@),
        ord@.len() < u32::MAX,
        match entry {
            Some(e) => entry_pos(*module, ord@) == Some(e as int),
            None => entry_pos(*module, ord@) is None,
        },
    ensures
        match r {
            Some(v) => key_id(*module, ord@, k@) == Some(v as int) && v <= ord@.len(),
            None => key_id(*module, ord@, k@) is None,
        },
{
    if str_eq(k, module.entry_room.as_str()) {
        return Some(0);
    }
    match find_key(module, ord, k) {
        Some(p) => Some(room_id_at(module, ord, p, entry)),
        None => None,
    }
}

// ── Rooms ──────────────────────────────────────────────────────

/// A text or nothing, as a text value.
pub open spec fn opt_text(o: Option<String>) -> Option<Seq<char>> {
    match o {
        Some(s) => Some(s@),
        None => None,
    }
}

/// Key of the last module level listing room key `k`.
pub open spec fn level_key_for(levels: Seq<(String, ModuleLevel)>, k: Seq<char>) -> Option<Seq<char>>
    decreases levels.len(),
{
    if levels.len() == 0 {
        None
    } else if texts(levels.last().1.rooms@).contains(k) {
        Some(levels.last().0@)
    } else {
        level_key_for(levels.drop_last(), k)
    }
}

/// Description of placed treasure.
pub open spec fn treasure_description(t: PlacedTreasure) -> Seq<char> {
    match t {
        PlacedTreasure::Coins { gp } => nat_text(gp as nat) + " gold pieces"@,
        PlacedTreasure::Item { item, .. } => item@,
    }
}

/// Value of placed treasure in gold pieces.
pub open spec fn treasure_value(t: PlacedTreasure) -> u32 {
    match t {
        PlacedTreasure::Coins { gp } => gp,
        PlacedTreasure::Item { value_gp, .. } => value_gp,
    }
}

/// `r` is the dungeon room made from the module room at position `p`.
pub open spec fn room_built(r: Room, m: ModuleDef, ord: Seq<usize>, p: int) -> bool {
    let e = m.rooms@[ord[p] as int];
    let mr = e.1;
    &&& r.id == id_at(m, ord, p)
    &&& r.name@ == mr.name@
    &&& r.description@ == mr.description@
    &&& opt_text(r.trap) == opt_text(mr.trap)
    &&& r.trap_trigger == mr.trap_trigger
    &&& !r.trap_triggered
    &&& !r.searched
    &&& !r.treasure_looted
    &&& !r.monsters_cleared
    &&& opt_text(r.key) == Some(e.0@)
    &&& opt_text(r.level_key) == level_key_for(m.levels@, e.0@)
    &&& r.placed_monsters@.len() == mr.monsters@.len()
    &&& forall|j: int|
        0 <= j < mr.monsters@.len() ==> {
            &&& (#[trigger] r.placed_monsters@[j]).name@ == mr.monsters@[j].name@
            &&& r.placed_monsters@[j].count == mr.monsters@[j].count
            &&& !r.placed_monsters@[j].spawned
            &&& r.placed_monsters@[j].undead == mr.monsters@[j].undead
        }
    &&& r.placed_treasure@.len() == mr.treasure@.len()
    &&& forall|j: int|
        0 <= j < mr.treasure@.len() ==> {
            &&& (#[trigger] r.placed_treasure@[j]).description@ == treasure_description(mr.treasure@[j])
            &&& r.placed_treasure@[j].gp_value == treasure_value(mr.treasure@[j])
            &&& !r.placed_treasure@[j].taken
        }
}

fn clone_opt_text(o: &Option<String>) -> (r: Option<String>)
    ensures
        opt_text(r) == opt_text(*o),
{
    match o {
        Some(s) => Some(s.clone()),
        None => None,
    }
}

fn level_key_lookup(levels: &Vec<(String, ModuleLevel)>, k: &str) -> (r: Option<String>)
    ensures
        opt_text(r) == level_key_for(levels@, k@),
{
    let mut j: usize = levels.len();
    proof {
        assert(levels@.take(j as int) =~= levels@);
    }
    while j > 0
        invariant
            j <= levels@.len(),
            level_key_for(levels@, k@) == level_key_for(levels@.take(j as int), k@),
        decreases j,
    {
        let level = &levels[j - 1].1;
        proof {
            assert(levels@.take(j as int).drop_last() =~= levels@.take(j - 1));
            assert(levels@.take(j as int).last() == levels@[j - 1]);
        }
        let mut i: usize = 0;
        while i < level.rooms.len()
            invariant
                0 < j <= levels@.len(),
                *level == levels@[j - 1].1,
                level_key_for(levels@, k@) == level_key_for(levels@.take(j as int), k@),
                levels@.take(j as int).last() == levels@[j - 1],
                i <= level.rooms@.len(),
                forall|q: int| 0 <= q < i ==> texts(level.rooms@)[q] != k@,
            decreases level.rooms@.len() - i,
        {
            if str_eq(level.rooms[i].as_str(), k) {
                proof {
                    assert(texts(level.rooms@)[i as int] == k@);
                }
                return Some(levels[j - 1].0.clone());
            }
            i = i + 1;
        }
        proof {
            assert(!texts(level.rooms@).contains(k@));
        }
        j = j - 1;
    }
    None
}

fn build_room(module: &ModuleDef, ord: &Vec<usize>, p: usize, entry: Option<usize>) -> (r: Room)
    requires
        key_order(*module, ord@),
        ord@.len() < u32::MAX,
        p < ord@.len(),
        match entry {
            Some(e) => entry_pos(*module, ord@) == Some(e as int),
            None => entry_pos(*module, ord@) is None,
        },
    ensures
        room_built(r, *module, ord@, p as int),
{
    let e = &module.rooms[ord[p]];
    let mr = &e.1;
    let id = room_id_at(module, ord, p, entry);
    let mut monsters: Vec<PlacedMonsterInstance> = Vec::new();
    let mut j: usize = 0;
    while j < mr.monsters.len()
        invariant
            j <= mr.monsters@.len(),
            monsters@.len() == j,
            forall|q: int|
                0 <= q < j ==> {
                    &&& (#[trigger] monsters@[q]).name@ == mr.monsters@[q].name@
                    &&& monsters@[q].count == mr.monsters@[q].count
                    &&& !monsters@[q].spawned
                    &&& monsters@[q].undead == mr.monsters@[q].undead
                },
        decreases mr.monsters@.len() - j,
    {
        let pm = &mr.monsters[j];
        let mut inst = PlacedMonsterInstance::new(pm.name.as_str(), pm.count);
        inst.undead = pm.undead;
        monsters.push(inst);
        j = j + 1;
    }
    let mut treasure: Vec<PlacedTreasureInstance> = Vec::new();
    let mut j: usize = 0;
    while j < mr.treasure.len()
        invariant
            j <= mr.treasure@.len(),
            treasure@.len() == j,
            forall|q: int|
                0 <= q < j ==> {
                    &&& (#[trigger] treasure@[q]).description@ == treasure_description(mr.treasure@[q])
                    &&& treasure@[q].gp_value == treasure_value(mr.treasure@[q])
                    &&& !treasure@[q].taken
                },
        decreases mr.treasure@.len() - j,
    {
        let t = match &mr.treasure[j] {
            PlacedTreasure::Coins { gp } => {
                let mut d = String::new();
                append_nat(&mut d, *gp as u64);
                d.append(" gold pieces");
                PlacedTreasureInstance::new(d.as_str(), *gp)
            },
            PlacedTreasure::Item { item, value_gp } => PlacedTreasureInstance::new(item.as_str(), *value_gp),
        };
        treasure.push(t);
        j = j + 1;
    }
    Room {
        id,
        name: mr.name.clone(),
        description: mr.description.clone(),
        placed_monsters: monsters,
        placed_treasure: treasure,
        trap: clone_opt_text(&mr.trap),
        trap_trigger: mr.trap_trigger,
        trap_triggered: false,
        searched: false,
        treasure_looted: false,
        monsters_cleared: false,
        key: Some(e.0.clone()),
        level_key: level_key_lookup(&module.levels, e.0.as_str()),
    }
}

// ── Doors ──────────────────────────────────────────────────────

/// One exit to turn into a door: the id and key of the room it leaves from,
/// and the exit.
pub type ExitStep = (int, Seq<char>, ModuleExit);

/// The exits of the room at position `p`, as steps.
pub open spec fn room_exits(m: ModuleDef, ord: Seq<usize>, p: int) -> Seq<ExitStep> {
    m.rooms@[ord[p] as int].1.exits@.map_values(|x: ModuleExit| (id_at(m, ord, p), key_at(m, ord, p), x))
}

/// The exits of the first `n` rooms in key order, each room's in its order.
pub open spec fn exit_steps(m: ModuleDef, ord: Seq<usize>, n: int) -> Seq<ExitStep>
    decreases n,
{
    if n <= 0 || n > ord.len() {
        Seq::empty()
    } else {
        exit_steps(m, ord, n - 1) + room_exits(m, ord, n - 1)
    }
}

/// Refusal of an exit to a room the module lacks.
pub open spec fn unknown_exit_text(from: Seq<char>, to: Seq<char>) -> Seq<char> {
    "room '"@ + from + "' has exit to unknown room '"@ + to + "'"@
}

/// Whether a door already joins rooms `lo` and `hi`.
pub open spec fn pair_made(ds: Seq<Door>, lo: int, hi: int) -> bool {
    exists|j: int| 0 <= j < ds.len() && (#[trigger] ds[j]).room_a == lo && ds[j].room_b == hi
}

/// The door made for an exit between rooms `lo` and `hi`, numbered after
/// the doors made so far; a module's open passage stays open.
pub open spec fn door_made(ds: Seq<Door>, lo: int, hi: int, x: ModuleExit) -> Door {
    Door {
        id: ds.len() as u32,
        room_a: lo as u32,
        room_b: hi as u32,
        state: x.door,
        discovered: false,
        module_open: x.door == DoorState::Open,
        connection_type: x.connection_type,
    }
}

/// The doors made from the first `n` steps: one door per pair of rooms, in
/// the order the pairs first come up; an exit to an unknown room, to its own
/// room, or to an entry room the module lacks is refused.
pub open spec fn doors_after(m: ModuleDef, ord: Seq<usize>, steps: Seq<ExitStep>, n: int) -> Result<
    Seq<Door>,
    Seq<char>,
>
    decreases n,
{
    if n <= 0 {
        Ok(Seq::empty())
    } else {
        match doors_after(m, ord, steps, n - 1) {
            Err(t) => Err(t),
            Ok(ds) => {
                let a = steps[n - 1].0;
                let x = steps[n - 1].2;
                match key_id(m, ord, x.to@) {
                    None => Err(unknown_exit_text(steps[n - 1].1, x.to@)),
                    Some(b) => {
                        let lo = if a < b {
                            a
                        } else {
                            b
                        };
                        let hi = if a < b {
                            b
                        } else {
                            a
                        };
                        if pair_made(ds, lo, hi) {
                            Ok(ds)
                        } else if lo == hi {
                            Err(self_door_text(ds.len()))
                        } else if lo == 0 && entry_pos(m, ord) is None {
                            Err(no_room_text(0))
                        } else {
                            Ok(ds.push(door_made(ds, lo, hi, x)))
                        }
                    },
                }
            },
        }
    }
}

proof fn lemma_doors_after_prefix(m: ModuleDef, ord: Seq<usize>, s1: Seq<ExitStep>, s2: Seq<ExitStep>, n: int)
    requires
        0 <= n <= s1.len(),
        n <= s2.len(),
        s1.take(n) == s2.take(n),
    ensures
        doors_after(m, ord, s1, n) == doors_after(m, ord, s2, n),
    decreases n,
{
    if n > 0 {
        assert(s1[n - 1] == s1.take(n)[n - 1]);
        assert(s2[n - 1] == s2.take(n)[n - 1]);
        assert(s1.take(n - 1) =~= s1.take(n).take(n - 1));
        assert(s2.take(n - 1) =~= s2.take(n).take(n - 1));
        lemma_doors_after_prefix(m, ord, s1, s2, n - 1);
    }
}

proof fn lemma_doors_after_err(m: ModuleDef, ord: Seq<usize>, s: Seq<ExitStep>, k: int, n: int)
    requires
        0 <= k <= n,
        doors_after(m, ord, s, k) is Err,
    ensures
        doors_after(m, ord, s, n) == doors_after(m, ord, s, k),
    decreases n - k,
{
    if n > k {
        lemma_doors_after_err(m, ord, s, k, n - 1);
    }
}

proof fn lemma_doors_after_len(m: ModuleDef, ord: Seq<usize>, s: Seq<ExitStep>, n: int)
    requires
        0 <= n,
    ensures
        doors_after(m, ord, s, n) matches Ok(ds) ==> ds.len() <= n,
    decreases n,
{
    if n > 0 {
        lemma_doors_after_len(m, ord, s, n - 1);
    }
}

proof fn lemma_exit_steps_prefix(m: ModuleDef, ord: Seq<usize>, p: int, n: int)
    requires
        0 <= p <= n <= ord.len(),
    ensures
        exit_steps(m, ord, p).len() <= exit_steps(m, ord, n).len(),
        exit_steps(m, ord, n).take(exit_steps(m, ord, p).len() as int) == exit_steps(m, ord, p),
    decreases n - p,
{
    if p < n {
        lemma_exit_steps_prefix(m, ord, p, n - 1);
        let a = exit_steps(m, ord, p);
        let b = exit_steps(m, ord, n - 1);
        assert(exit_steps(m, ord, n) == b + room_exits(m, ord, n - 1));
        assert((b + room_exits(m, ord, n - 1)).take(a.len() as int) =~= b.take(a.len() as int));
    } else {
        assert(exit_steps(m, ord, n).take(exit_steps(m, ord, n).len() as int) =~= exit_steps(m, ord, n));
    }
}

/// Exits of the first `k` rooms of the module's list, leaving out the rooms
/// at positions listed in `used`.
pub open spec fn exits_outside(m: ModuleDef, used: Seq<usize>, k: int) -> int
    decreases k,
{
    if k <= 0 {
        0
    } else {
        exits_outside(m, used, k - 1) + if used.contains((k - 1) as usize) {
            0
        } else {
            m.rooms@[k - 1].1.exits@.len() as int
        }
    }
}

/// Number of exits of all the module's rooms.
pub open spec fn exit_total(m: ModuleDef) -> int {
    exits_outside(m, Seq::empty(), m.rooms@.len() as int)
}

proof fn lemma_exits_outside_nonneg(m: ModuleDef, used: Seq<usize>, k: int)
    ensures
        exits_outside(m, used, k) >= 0,
    decreases k,
{
    if k > 0 {
        lemma_exits_outside_nonneg(m, used, k - 1);
    }
}

proof fn lemma_exits_outside_push(m: ModuleDef, used: Seq<usize>, v: usize, k: int)
    requires
        !used.contains(v),
        k <= m.rooms@.len(),
    ensures
        exits_outside(m, used, k) == exits_outside(m, used.push(v), k) + if 0 <= v < k {
            m.rooms@[v as int].1.exits@.len() as int
        } else {
            0
        },
    decreases k,
{
    if k > 0 {
        lemma_exits_outside_push(m, used, v, k - 1);
        let u2 = used.push(v);
        assert(u2.contains((k - 1) as usize) <==> (used.contains((k - 1) as usize) || v == (k - 1) as usize)) by {
            if used.contains((k - 1) as usize) {
                let j = choose|j: int| 0 <= j < used.len() && used[j] == (k - 1) as usize;
                assert(u2[j] == used[j]);
            }
            if v == (k - 1) as usize {
                assert(u2[used.len() as int] == v);
            }
            if u2.contains((k - 1) as usize) {
                let j = choose|j: int| 0 <= j < u2.len() && u2[j] == (k - 1) as usize;
                if j < used.len() {
                    assert(used[j] == u2[j]);
                }
            }
        }
        assert(m.rooms@.len() == m.rooms.len());
        assert((k - 1) as usize as int == k - 1);
        assert(v == (k - 1) as usize <==> v == k - 1);
    }
}

/// The exits of the rooms taken so far in key order, and those of the rooms
/// not yet taken, make up all the module's exits.
proof fn lemma_exit_steps_total(m: ModuleDef, ord: Seq<usize>, p: int)
    requires
        key_order(m, ord),
        0 <= p <= ord.len(),
    ensures
        exit_steps(m, ord, p).len() + exits_outside(m, ord.take(p), m.rooms@.len() as int) == exit_total(m),
    decreases p,
{
    if p == 0 {
        assert(ord.take(0) =~= Seq::<usize>::empty());
    } else {
        lemma_exit_steps_total(m, ord, p - 1);
        let prev = ord.take(p - 1);
        let v = ord[p - 1];
        assert(ord.take(p) =~= prev.push(v));
        assert(!prev.contains(v)) by {
            if prev.contains(v) {
                let j = choose|j: int| 0 <= j < prev.len() && prev[j] == v;
                assert(ord[j] == v);
                assert(text_less(key_at(m, ord, j), key_at(m, ord, p - 1)));
                lemma_text_order(key_at(m, ord, j), key_at(m, ord, j), key_at(m, ord, j));
            }
        }
        lemma_exits_outside_push(m, prev, v, m.rooms@.len() as int);
    }
}

/// The exits taken in key order are no more than all the module's exits.
proof fn lemma_exit_steps_len(m: ModuleDef, ord: Seq<usize>, p: int)
    requires
        key_order(m, ord),
        0 <= p <= ord.len(),
    ensures
        exit_steps(m, ord, p).len() <= exit_total(m),
{
    lemma_exit_steps_total(m, ord, p);
    lemma_exits_outside_nonneg(m, ord.take(p), m.rooms@.len() as int);
}

/// Each room of a module gets its own id: the entry room 0, the others
/// distinct ids from 1 on.
pub proof fn lemma_module_room_ids_distinct(m: ModuleDef, ord: Seq<usize>, p: int, q: int)
    requires
        key_order(m, ord),
        0 <= p < ord.len(),
        0 <= q < ord.len(),
        p != q,
    ensures
        id_at(m, ord, p) != id_at(m, ord, q),
        id_at(m, ord, p) >= 0,
{
    lemma_pos_of_key(m, ord, m.entry_room@);
    if key_at(m, ord, p) == m.entry_room@ && key_at(m, ord, q) == m.entry_room@ {
        lemma_key_unique(m, ord, p, q);
    }
    match entry_pos(m, ord) {
        Some(e) => {
            if key_at(m, ord, p) == m.entry_room@ {
                lemma_key_unique(m, ord, p, e);
            }
            if key_at(m, ord, q) == m.entry_room@ {
                lemma_key_unique(m, ord, q, e);
            }
        },
        None => {},
    }
}

proof fn lemma_ids_in_range(m: ModuleDef, ord: Seq<usize>, p: int)
    requires
        0 <= p < ord.len(),
    ensures
        0 <= id_at(m, ord, p) <= ord.len(),
{
    lemma_pos_of_key(m, ord, m.entry_room@);
}

proof fn lemma_exit_steps_ids(m: ModuleDef, ord: Seq<usize>, n: int)
    requires
        0 <= n <= ord.len(),
    ensures
        forall|k: int|
            0 <= k < exit_steps(m, ord, n).len() ==> 0 <= (#[trigger] exit_steps(m, ord, n)[k]).0 <= ord.len(),
    decreases n,
{
    if n > 0 {
        lemma_exit_steps_ids(m, ord, n - 1);
        lemma_ids_in_range(m, ord, n - 1);
        let a = exit_steps(m, ord, n - 1);
        let b = room_exits(m, ord, n - 1);
        assert forall|k: int| 0 <= k < (a + b).len() implies 0 <= (#[trigger] (a + b)[k]).0 <= ord.len() by {
            if k >= a.len() {
                assert((a + b)[k] == b[k - a.len()]);
            } else {
                assert((a + b)[k] == a[k]);
            }
        }
    }
}

proof fn lemma_doors_one_per_pair_steps(m: ModuleDef, ord: Seq<usize>, steps: Seq<ExitStep>, n: int)
    requires
        0 <= n <= steps.len(),
        n <= u32::MAX,
        ord.len() < u32::MAX,
        forall|k: int| 0 <= k < steps.len() ==> 0 <= (#[trigger] steps[k]).0 <= ord.len(),
    ensures
        doors_after(m, ord, steps, n) matches Ok(ds) ==> {
            &&& forall|i: int| 0 <= i < ds.len() ==> (#[trigger] ds[i]).id == i && ds[i].room_a < ds[i].room_b
            &&& forall|i: int, j: int|
                0 <= i < j < ds.len() ==> !((#[trigger] ds[i]).room_a == (#[trigger] ds[j]).room_a && ds[i].room_b
                    == ds[j].room_b)
        },
    decreases n,
{
    if n > 0 {
        lemma_doors_one_per_pair_steps(m, ord, steps, n - 1);
        lemma_doors_after_len(m, ord, steps, n - 1);
        match doors_after(m, ord, steps, n - 1) {
            Ok(ds) => {
                let x = steps[n - 1].2;
                let a = steps[n - 1].0;
                match key_id(m, ord, x.to@) {
                    Some(b) => {
                        if x.to@ != m.entry_room@ {
                            lemma_pos_of_key(m, ord, x.to@);
                            lemma_ids_in_range(m, ord, pos_of_key(m, ord, x.to@)->0);
                        }
                        let lo = if a < b {
                            a
                        } else {
                            b
                        };
                        let hi = if a < b {
                            b
                        } else {
                            a
                        };
                        if !pair_made(ds, lo, hi) && lo != hi && !(lo == 0 && entry_pos(m, ord) is None) {
                            let nd = ds.push(door_made(ds, lo, hi, x));
                            assert forall|i: int, j: int| 0 <= i < j < nd.len() implies !((#[trigger] nd[i]).room_a
                                == (#[trigger] nd[j]).room_a && nd[i].room_b == nd[j].room_b) by {
                                if j == ds.len() {
                                    if nd[i].room_a == nd[j].room_a && nd[i].room_b == nd[j].room_b {
                                        assert(ds[i].room_a == lo && ds[i].room_b == hi);
                                        assert(pair_made(ds, lo, hi));
                                    }
                                }
                            }
                        }
                    },
                    None => {},
                }
            },
            Err(_) => {},
        }
    }
}

/// The doors made from a module join each pair of rooms once, lower id
/// first, and are numbered 0, 1, 2, ... in order.
pub proof fn lemma_module_doors_one_per_pair(m: ModuleDef, ord: Seq<usize>)
    requires
        key_order(m, ord),
        m.rooms@.len() < u32::MAX,
        exit_total(m) <= u32::MAX,
    ensures
        ({
            let steps = exit_steps(m, ord, ord.len() as int);
            doors_after(m, ord, steps, steps.len() as int) matches Ok(ds) ==> {
                &&& forall|i: int| 0 <= i < ds.len() ==> (#[trigger] ds[i]).id == i && ds[i].room_a < ds[i].room_b
                &&& forall|i: int, j: int|
                    0 <= i < j < ds.len() ==> !((#[trigger] ds[i]).room_a == (#[trigger] ds[j]).room_a
                        && ds[i].room_b == ds[j].room_b)
            }
        }),
{
    let steps = exit_steps(m, ord, ord.len() as int);
    lemma_exit_steps_ids(m, ord, ord.len() as int);
    lemma_exit_steps_len(m, ord, ord.len() as int);
    lemma_doors_one_per_pair_steps(m, ord, steps, steps.len() as int);
}

fn has_pair(doors: &Vec<Door>, lo: u32, hi: u32) -> (r: bool)
    ensures
        r == pair_made(doors@, lo as int, hi as int),
{
    let mut j: usize = 0;
    while j < doors.len()
        invariant
            j <= doors@.len(),
            forall|q: int| 0 <= q < j ==> !((#[trigger] doors@[q]).room_a == lo && doors@[q].room_b == hi),
        decreases doors@.len() - j,
    {
        if doors[j].room_a == lo && doors[j].room_b == hi {
            proof {
                assert(doors@[j as int].room_a == lo);
            }
            return true;
        }
        j = j + 1;
    }
    false
}

fn unknown_exit(from: &str, to: &str) -> (r: String)
    ensures
        r@ == unknown_exit_text(from@, to@),
{
    let mut t = String::from_str("room '");
    t.append(from);
    t.append("' has exit to unknown room '");
    t.append(to);
    t.append("'");
    t
}

// ── The dungeon ────────────────────────────────────────────────

/// Log line of a loaded module.
pub open spec fn loaded_text(name: Seq<char>) -> Seq<char> {
    "Module '"@ + name + "' loaded."@
}

/// `d` is the dungeon made from the module, with the doors `ds`.
pub open spec fn dungeon_built(m: ModuleDef, ord: Seq<usize>, ds: Seq<Door>, d: DungeonState) -> bool {
    &&& d.level == m.level_range.0
    &&& d.rooms@.len() == ord.len()
    &&& forall|p: int| 0 <= p < ord.len() ==> room_built(#[trigger] d.rooms@[p], m, ord, p)
    &&& d.doors@ == ds
    &&& d.current_room == Some(0u32)
    &&& d.explored@ == seq![0u32]
    &&& texts(d.log@) == seq![loaded_text(m.name@)]
    &&& d.level_map@.len() == m.levels@.len()
    &&& forall|j: int|
        0 <= j < m.levels@.len() ==> (#[trigger] d.level_map@[j]).0@ == m.levels@[j].0@ && d.level_map@[j].1
            == m.levels@[j].1.dungeon_level
    &&& opt_text(d.current_level_key) == if entry_pos(m, ord) is Some {
        level_key_for(m.levels@, m.entry_room@)
    } else {
        None
    }
}

/// What loading the module gives, with the rooms in the key order `ord`.
pub open spec fn module_loaded(m: ModuleDef, ord: Seq<usize>, r: Result<DungeonState, String>) -> bool {
    let steps = exit_steps(m, ord, ord.len() as int);
    match doors_after(m, ord, steps, steps.len() as int) {
        Err(t) => r matches Err(e) && e@ == t,
        Ok(ds) => r matches Ok(d) && dungeon_built(m, ord, ds, d),
    }
}

/// Turns a module into a dungeon. Rooms are taken in key order; the entry
/// room gets id 0 and the others ids from 1 in that order. Each pair of rooms
/// joined by exits gets one door, numbered in the order the exits come up;
/// an exit to an unknown room is refused. Room and level keys are kept, the
/// party starts in the entry room, and the load is logged.
pub fn module_to_dungeon(module: &ModuleDef) -> (r: Result<DungeonState, String>)
    requires
        module_wf(*module),
        module.rooms@.len() < u32::MAX,
        exit_total(*module) <= u32::MAX,
    ensures
        exists|ord: Seq<usize>| key_order(*module, ord) && module_loaded(*module, ord, r),
{
    let ord = sort_rooms(module);
    let n = ord.len();
    let entry = find_key(module, &ord, module.entry_room.as_str());
    let ghost m = *module;
    let ghost o = ord@;
    let mut rooms: Vec<Room> = Vec::new();
    let mut p: usize = 0;
    while p < n
        invariant
            m == *module,
            o == ord@,
            key_order(m, o),
            n == o.len(),
            n < u32::MAX,
            match entry {
                Some(e) => entry_pos(m, o) == Some(e as int),
                None => entry_pos(m, o) is None,
            },
            p <= n,
            rooms@.len() == p,
            forall|q: int| 0 <= q < p ==> room_built(#[trigger] rooms@[q], m, o, q),
        decreases n - p,
    {
        let room = build_room(module, &ord, p, entry);
        rooms.push(room);
        p = p + 1;
    }
    let ghost all = exit_steps(m, o, n as int);
    let mut doors: Vec<Door> = Vec::new();
    let mut p: usize = 0;
    while p < n
        invariant
            m == *module,
            o == ord@,
            key_order(m, o),
            n == o.len(),
            n < u32::MAX,
            exit_total(m) <= u32::MAX,
            match entry {
                Some(e) => entry_pos(m, o) == Some(e as int),
                None => entry_pos(m, o) is None,
            },
            all == exit_steps(m, o, n as int),
            p <= n,
            doors_after(m, o, exit_steps(m, o, p as int), exit_steps(m, o, p as int).len() as int) == Ok::<
                Seq<Door>,
                Seq<char>,
            >(doors@),
        decreases n - p,
    {
        let from = &module.rooms[ord[p]].0;
        let exits = &module.rooms[ord[p]].1.exits;
        let a = room_id_at(module, &ord, p, entry);
        let ghost base = exit_steps(m, o, p as int);
        let ghost next = exit_steps(m, o, p as int + 1);
        proof {
            assert(next == base + room_exits(m, o, p as int));
            assert(next.take(base.len() as int) =~= base.take(base.len() as int));
            assert(base.take(base.len() as int) =~= base);
            lemma_doors_after_prefix(m, o, next, base, base.len() as int);
            lemma_exit_steps_len(m, o, p as int + 1);
            assert(ord@[p as int] < m.rooms@.len());
        }
        let mut x: usize = 0;
        while x < exits.len()
            invariant
                m == *module,
                o == ord@,
                key_order(m, o),
                n == o.len(),
                n < u32::MAX,
                p < n,
                match entry {
                    Some(e) => entry_pos(m, o) == Some(e as int),
                    None => entry_pos(m, o) is None,
                },
                all == exit_steps(m, o, n as int),
                base == exit_steps(m, o, p as int),
                next == exit_steps(m, o, p as int + 1),
                next == base + room_exits(m, o, p as int),
                next.len() <= exit_total(m),
                *exits == m.rooms@[ord@[p as int] as int].1.exits,
                from@ == key_at(m, o, p as int),
                a as int == id_at(m, o, p as int),
                x <= exits@.len(),
                doors_after(m, o, next, base.len() + x) == Ok::<Seq<Door>, Seq<char>>(doors@),
            decreases exits@.len() - x,
        {
            let ex = &exits[x];
            let ghost k: int = base.len() + x as int;
            proof {
                assert(next[k] == (id_at(m, o, p as int), key_at(m, o, p as int), exits@[x as int]));
                lemma_doors_after_len(m, o, next, k);
            }
            let b = match key_target(module, &ord, entry, ex.to.as_str()) {
                None => {
                    let t = unknown_exit(from.as_str(), ex.to.as_str());
                    proof {
                        lemma_exit_steps_prefix(m, o, p as int + 1, n as int);
                        assert(all.take(k + 1) =~= all.take(next.len() as int).take(k + 1));
                        assert(next.take(k + 1) =~= next.take(k + 1));
                        lemma_doors_after_prefix(m, o, all, next, k + 1);
                        lemma_exit_steps_prefix(m, o, n as int, n as int);
                        lemma_doors_after_err(m, o, all, k + 1, all.len() as int);
                    }
                    return Err(t);
                },
                Some(b) => b,
            };
            let lo = if a < b {
                a
            } else {
                b
            };
            let hi = if a < b {
                b
            } else {
                a
            };
            if !has_pair(&doors, lo, hi) {
                if lo == hi {
                    let mut t = String::from_str("door ");
                    append_nat(&mut t, doors.len() as u64);
                    t.append(" cannot connect a room to itself.");
                    proof {
                        lemma_exit_steps_prefix(m, o, p as int + 1, n as int);
                        assert(all.take(k + 1) =~= all.take(next.len() as int).take(k + 1));
                        assert(next.take(k + 1) =~= next.take(k + 1));
                        lemma_doors_after_prefix(m, o, all, next, k + 1);
                        lemma_doors_after_err(m, o, all, k + 1, all.len() as int);
                    }
                    return Err(t);
                }
                if lo == 0 && entry.is_none() {
                    let mut t = String::from_str("room ");
                    append_nat(&mut t, 0);
                    t.append(" does not exist.");
                    proof {
                        lemma_exit_steps_prefix(m, o, p as int + 1, n as int);
                        assert(all.take(k + 1) =~= all.take(next.len() as int).take(k + 1));
                        assert(next.take(k + 1) =~= next.take(k + 1));
                        lemma_doors_after_prefix(m, o, all, next, k + 1);
                        lemma_doors_after_err(m, o, all, k + 1, all.len() as int);
                    }
                    return Err(t);
                }
                let door = Door {
                    id: doors.len() as u32,
                    room_a: lo,
                    room_b: hi,
                    state: ex.door,
                    discovered: false,
                    module_open: ex.door == DoorState::Open,
                    connection_type: ex.connection_type,
                };
                doors.push(door);
            }
            x = x + 1;
        }
        proof {
            assert(base.len() + exits@.len() == next.len());
        }
        p = p + 1;
    }
    let mut level_map: Vec<(String, u32)> = Vec::new();
    let mut j: usize = 0;
    while j < module.levels.len()
        invariant
            j <= module.levels@.len(),
            level_map@.len() == j,
            forall|q: int|
                0 <= q < j ==> (#[trigger] level_map@[q]).0@ == module.levels@[q].0@ && level_map@[q].1
                    == module.levels@[q].1.dungeon_level,
        decreases module.levels@.len() - j,
    {
        level_map.push((module.levels[j].0.clone(), module.levels[j].1.dungeon_level));
        j = j + 1;
    }
    let current_level_key = match entry {
        Some(_) => level_key_lookup(&module.levels, module.entry_room.as_str()),
        None => None,
    };
    let mut log: Vec<String> = Vec::new();
    let mut line = String::from_str("Module '");
    line.append(module.name.as_str());
    line.append("' loaded.");
    log.push(line);
    let mut explored: Vec<u32> = Vec::new();
    explored.push(0);
    let d = DungeonState {
        level: module.level_range.0,
        rooms,
        doors,
        current_room: Some(0),
        explored,
        log,
        level_map,
        current_level_key,
    };
    proof {
        assert(exit_steps(m, o, n as int).len() as int == all.len());
        assert(texts(d.log@) =~= seq![loaded_text(m.name@)]);
        assert(d.explored@ =~= seq![0u32]);
        assert(module_loaded(m, o, Ok::<DungeonState, String>(d)));
    }
    Ok(d)
}

// ── Loading ────────────────────────────────────────────────────

/// Refusal of a load while exploring or fighting.
pub open spec fn busy_text() -> Seq<char> {
    "Cannot load module while in Exploration mode. Save and exit exploration first."@
}

/// The definition filed under `key` after filing `defs` in order by their
/// lower-cased names: the last one with that name.
pub open spec fn filed_monster(defs: Seq<MonsterDef>, key: Seq<char>) -> Option<MonsterDef>
    decreases defs.len(),
{
    if defs.len() == 0 {
        None
    } else if lowercase_text(defs.last().name@) == key {
        Some(defs.last())
    } else {
        filed_monster(defs.drop_last(), key)
    }
}

/// Report line of a loaded module.
pub open spec fn load_text(m: ModuleDef, rooms: nat) -> Seq<char> {
    "loaded module: "@ + m.name@ + " (levels "@ + nat_text(m.level_range.0 as nat) + "-"@ + nat_text(
        m.level_range.1 as nat,
    ) + "). "@ + nat_text(rooms) + " rooms."@
}

/// `s` is `s0` after loading module `m` with the dungeon `d` and the
/// monster definitions `defs`.
pub open spec fn module_entered(
    s0: GameState,
    s: GameState,
    m: ModuleDef,
    d: DungeonState,
    defs: Seq<MonsterDef>,
) -> bool {
    &&& s.dungeon == Some(d)
    &&& s.time matches Some(t) && t.total_turns == 0 && t.turns_since_rest == 0 && t.lights@.len() == 0
    &&& s.dungeon_level == m.level_range.0
    &&& s.mode == GameMode::Exploration
    &&& s.combat == s0.combat
    &&& s.pre_combat_mode == s0.pre_combat_mode
    &&& s.party == s0.party
    &&& s.notes == s0.notes
    &&& s.retainers == s0.retainers
    &&& s.effects == s0.effects
    &&& forall|key: Seq<char>| #[trigger] module_lookup(s.module_monsters.entries@, key) == filed_monster(defs, key)
}

/// What loading gives, with the module's rooms in the key order `ord`.
pub open spec fn load_outcome(
    s0: GameState,
    s: GameState,
    m: ModuleDef,
    ord: Seq<usize>,
    defs: Seq<MonsterDef>,
    r: Result<LoadModuleResult, EngineError>,
) -> bool {
    let steps = exit_steps(m, ord, ord.len() as int);
    match doors_after(m, ord, steps, steps.len() as int) {
        Err(t) => r matches Err(e) && invalid(e, t) && s == s0,
        Ok(ds) => r matches Ok(res) && s.dungeon matches Some(d) && dungeon_built(m, ord, ds, d)
            && module_entered(s0, s, m, d, defs) && res.module_name@ == m.name@ && res.level_range
            == m.level_range && res.room_count == m.rooms@.len() && res.message@ == load_text(
            m,
            m.rooms@.len(),
        ),
    }
}

/// Loads a module that has been read (or failed to be read), with the
/// monster definitions that came with it. Refused while exploring or
/// fighting; a read failure, or a module that does not make a dungeon, is
/// invalid input. Otherwise the definitions are filed by lower-cased name
/// and exploration starts in the module's dungeon at its lowest level.
pub fn load_module(state: &mut GameState, read: Result<ModuleDef, String>, monsters: Vec<MonsterDef>) -> (r: Result<
    LoadModuleResult,
    EngineError,
>)
    requires
        read matches Ok(m) ==> module_wf(m) && m.rooms@.len() < u32::MAX && exit_total(m) <= u32::MAX,
    ensures
        if old(state).mode == GameMode::Exploration || old(state).mode == GameMode::Combat {
            r matches Err(e) && wrong_state(e, busy_text()) && *final(state) == *old(state)
        } else {
            match read {
                Err(t) => r matches Err(e) && invalid(e, t@) && *final(state) == *old(state),
                Ok(m) => exists|ord: Seq<usize>|
                    key_order(m, ord) && load_outcome(*old(state), *final(state), m, ord, monsters@, r),
            }
        },
{
    if state.mode == GameMode::Exploration || state.mode == GameMode::Combat {
        return Err(
            EngineError::WrongState(
                String::from_str("Cannot load module while in Exploration mode. Save and exit exploration first."),
            ),
        );
    }
    let module = match read {
        Err(t) => return Err(EngineError::InvalidInput(t)),
        Ok(m) => m,
    };
    let dungeon = match module_to_dungeon(&module) {
        Err(t) => return Err(EngineError::InvalidInput(t)),
        Ok(d) => d,
    };
    let room_count = dungeon.rooms.len();
    let ghost s0 = *state;
    let mut filed = ModuleMonsters::new();
    let ghost defs = monsters@;
    let mut rest = monsters;
    let total = rest.len();
    let mut i: usize = 0;
    while rest.len() > 0
        invariant
            defs.len() == total,
            i <= defs.len(),
            rest@ == defs.skip(i as int),
            forall|key: Seq<char>|
                #[trigger] module_lookup(filed.entries@, key) == filed_monster(defs.take(i as int), key),
        decreases rest@.len(),
    {
        let def = rest.remove(0);
        proof {
            assert(def == defs[i as int]);
            assert(defs.take(i as int + 1).drop_last() =~= defs.take(i as int));
            assert(defs.take(i as int + 1).last() == defs[i as int]);
            assert(rest@ =~= defs.skip(i as int + 1));
        }
        let key = lowercase(def.name.as_str());
        filed.insert(key, def);
        i = i + 1;
    }
    proof {
        assert(defs.take(i as int) =~= defs);
    }
    state.module_monsters = filed;
    let ghost d = dungeon;
    state.enter_exploration(dungeon, module.level_range.0);
    let mut message = String::from_str("loaded module: ");
    message.append(module.name.as_str());
    message.append(" (levels ");
    append_nat(&mut message, module.level_range.0 as u64);
    message.append("-");
    append_nat(&mut message, module.level_range.1 as u64);
    message.append("). ");
    append_nat(&mut message, room_count as u64);
    message.append(" rooms.");
    Ok(LoadModuleResult { message, module_name: module.name.clone(), level_range: module.level_range, room_count })
}

} // verus!
