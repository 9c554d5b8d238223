//! The dungeon being explored: its rooms, the monsters placed in them and
//! where the party stands.
use vstd::prelude::*;

use crate::rules::module::ConnectionType;
use crate::state::effect::texts;
use crate::text::append_nat;

verus! {

/// Monsters that an adventure places in a room, waiting to be met.
#[derive(Clone, Debug)]
pub struct PlacedMonsterInstance {
    pub name: String,
    pub count: u32,
    /// Whether these monsters have already been brought into a combat.
    pub spawned: bool,
    /// Overrides the definition's undead flag when given.
    pub undead: Option<bool>,
}

impl PlacedMonsterInstance {
    /// `count` monsters named `name`, not yet met.
    pub fn new(name: &str, count: u32) -> (r: PlacedMonsterInstance)
        ensures
            r.name@ == name@,
            r.count == count,
            !r.spawned,
            r.undead is None,
    {
        PlacedMonsterInstance { name: String::from_str(name), count, spawned: false, undead: None }
    }
}

/// Treasure that an adventure places in a room.
#[derive(Clone, Debug)]
pub struct PlacedTreasureInstance {
    pub description: String,
    pub gp_value: u32,
    /// Whether the party has already taken it.
    pub taken: bool,
}

impl PlacedTreasureInstance {
    /// Treasure worth `gp_value`, not yet taken.
    pub fn new(description: &str, gp_value: u32) -> (r: PlacedTreasureInstance)
        ensures
            r.description@ == description@,
            r.gp_value == gp_value,
            !r.taken,
    {
        PlacedTreasureInstance { description: String::from_str(description), gp_value, taken: false }
    }
}

/// When a room's trap goes off.
#[derive(Clone, Copy, Debug, PartialEq, Eq, Structural)]
pub enum TrapTrigger {
    /// On entering the room (1-2 on d6).
    Entry,
    /// Only when a character does something in the room.
    Action,
}

/// A room of the dungeon.
#[derive(Clone, Debug)]
pub struct Room {
    pub id: u32,
    pub name: String,
    pub description: String,
    pub placed_monsters: Vec<PlacedMonsterInstance>,
    pub placed_treasure: Vec<PlacedTreasureInstance>,
    /// Description of the room's trap, if it has one.
    pub trap: Option<String>,
    pub trap_trigger: TrapTrigger,
    pub trap_triggered: bool,
    pub searched: bool,
    /// Whether the placed treasure has been found by a search.
    pub treasure_looted: bool,
    /// Whether the room's monsters have been dealt with.
    pub monsters_cleared: bool,
    /// The room's key in the adventure module it comes from.
    pub key: Option<String>,
    /// Key of the module level the room belongs to.
    pub level_key: Option<String>,
}

/// `r` is an empty room with an id and a name: no description, monsters,
/// treasure or trap, not yet searched.
pub open spec fn fresh_room(r: Room, id: u32, name: Seq<char>) -> bool {
    &&& r.id == id
    &&& r.name@ == name
    &&& r.description@ == Seq::<char>::empty()
    &&& r.placed_monsters@.len() == 0
    &&& r.placed_treasure@.len() == 0
    &&& r.trap is None
    &&& r.trap_trigger == TrapTrigger::Entry
    &&& !r.trap_triggered
    &&& !r.searched
    &&& !r.treasure_looted
    &&& !r.monsters_cleared
    &&& r.key is None
    &&& r.level_key is None
}

impl Room {
    /// An empty room with an id and a name.
    pub fn new(id: u32, name: &str) -> (r: Room)
        ensures
            fresh_room(r, id, name@),
    {
        Room {
            id,
            name: String::from_str(name),
            description: String::new(),
            placed_monsters: Vec::new(),
            placed_treasure: Vec::new(),
            trap: None,
            trap_trigger: TrapTrigger::Entry,
            trap_triggered: false,
            searched: false,
            treasure_looted: false,
            monsters_cleared: false,
            key: None,
            level_key: None,
        }
    }

    /// The same room with a trap that goes off on entry.
    pub fn with_trap(self, trap: &str) -> (r: Room)
        ensures
            r == (Room { trap: r.trap, trap_trigger: TrapTrigger::Entry, ..self }),
            r.trap matches Some(t) && t@ == trap@,
    {
        Room { trap: Some(String::from_str(trap)), trap_trigger: TrapTrigger::Entry, ..self }
    }

    /// The same room holding the given treasure.
    pub fn with_placed_treasure(self, treasure: Vec<PlacedTreasureInstance>) -> (r: Room)
        ensures
            r == (Room { placed_treasure: treasure, ..self }),
    {
        Room { placed_treasure: treasure, ..self }
    }

    /// The same room holding the given monsters.
    pub fn with_placed_monsters(self, monsters: Vec<PlacedMonsterInstance>) -> (r: Room)
        ensures
            r == (Room { placed_monsters: monsters, ..self }),
    {
        Room { placed_monsters: monsters, ..self }
    }

    /// The same room with its trap going off as `trigger` says.
    pub fn with_trap_trigger(self, trigger: TrapTrigger) -> (r: Room)
        ensures
            r == (Room { trap_trigger: trigger, ..self }),
    {
        Room { trap_trigger: trigger, ..self }
    }
}

/// Position of the first room of `rooms` from `i` on with id `id`.
pub open spec fn room_index_from(rooms: Seq<Room>, id: u32, i: int) -> Option<int>
    decreases rooms.len() - i,
{
    if i < 0 || i >= rooms.len() {
        None
    } else if rooms[i].id == id {
        Some(i)
    } else {
        room_index_from(rooms, id, i + 1)
    }
}

/// Position of the room with id `id`.
pub open spec fn room_index(rooms: Seq<Room>, id: u32) -> Option<int> {
    room_index_from(rooms, id, 0)
}

proof fn lemma_room_index_from(rooms: Seq<Room>, id: u32, i: int)
    requires
        0 <= i <= rooms.len(),
    ensures
        match room_index_from(rooms, id, i) {
            Some(k) => i <= k < rooms.len() && rooms[k].id == id && forall|j: int|
                i <= j < k ==> (#[trigger] rooms[j]).id != id,
            None => forall|j: int| i <= j < rooms.len() ==> (#[trigger] rooms[j]).id != id,
        },
    decreases rooms.len() - i,
{
    if i < rooms.len() && rooms[i].id != id {
        lemma_room_index_from(rooms, id, i + 1);
    }
}

/// What room `id` is, when there is one.
pub proof fn lemma_room_index(rooms: Seq<Room>, id: u32)
    ensures
        match room_index(rooms, id) {
            Some(k) => 0 <= k < rooms.len() && rooms[k].id == id && forall|j: int|
                0 <= j < k ==> (#[trigger] rooms[j]).id != id,
            None => forall|j: int| 0 <= j < rooms.len() ==> (#[trigger] rooms[j]).id != id,
        },
{
    lemma_room_index_from(rooms, id, 0);
}

/// How a door stands.
#[derive(Clone, Copy, Debug, PartialEq, Eq, Structural)]
pub enum DoorState {
    Open,
    Closed,
    Locked,
    /// Must be forced open.
    Stuck,
    /// Hidden until found by searching.
    Secret,
}

/// Name of a door state.
pub open spec fn door_state_text(s: DoorState) -> Seq<char> {
    match s {
        DoorState::Open => "open"@,
        DoorState::Closed => "closed"@,
        DoorState::Locked => "locked"@,
        DoorState::Stuck => "stuck"@,
        DoorState::Secret => "secret"@,
    }
}

impl DoorState {
    /// Name of the state.
    pub fn name(&self) -> (r: &'static str)
        ensures
            r@ == door_state_text(*self),
    {
        match self {
            DoorState::Open => "open",
            DoorState::Closed => "closed",
            DoorState::Locked => "locked",
            DoorState::Stuck => "stuck",
            DoorState::Secret => "secret",
        }
    }
}

/// A door between two rooms.
#[derive(Clone, Copy, Debug, PartialEq, Eq, Structural)]
pub struct Door {
    pub id: u32,
    pub room_a: u32,
    pub room_b: u32,
    pub state: DoorState,
    /// Whether a secret door has been found.
    pub discovered: bool,
    /// An open door that the adventure keeps open: it does not swing shut.
    pub module_open: bool,
    pub connection_type: ConnectionType,
}

/// Refusal of a door that joins a room to itself.
pub open spec fn self_door_text(id: nat) -> Seq<char> {
    "door "@ + crate::text::nat_text(id) + " cannot connect a room to itself."@
}

impl Door {
    /// A door between two different rooms.
    pub fn new(id: u32, room_a: u32, room_b: u32, state: DoorState) -> (r: Result<Door, String>)
        ensures
            if room_a == room_b {
                r matches Err(t) && t@ == self_door_text(id as nat)
            } else {
                r == Ok::<Door, String>(
                    Door {
                        id,
                        room_a,
                        room_b,
                        state,
                        discovered: false,
                        module_open: false,
                        connection_type: ConnectionType::Door,
                    },
                )
            },
    {
        if room_a == room_b {
            let mut t = String::from_str("door ");
            append_nat(&mut t, id as u64);
            t.append(" cannot connect a room to itself.");
            return Err(t);
        }
        Ok(
            Door {
                id,
                room_a,
                room_b,
                state,
                discovered: false,
                module_open: false,
                connection_type: ConnectionType::Door,
            },
        )
    }

    /// Whether the party can walk through.
    pub fn is_passable(&self) -> (r: bool)
        ensures
            r == (self.state == DoorState::Open),
    {
        self.state == DoorState::Open
    }
}

/// The dungeon: its rooms and doors, the room the party is in and the rooms
/// seen.
#[derive(Clone, Debug)]
pub struct DungeonState {
    pub level: u32,
    pub rooms: Vec<Room>,
    pub doors: Vec<Door>,
    pub current_room: Option<u32>,
    pub explored: Vec<u32>,
    /// What happened in the dungeon, oldest first.
    pub log: Vec<String>,
    /// The dungeon level of each module level key.
    pub level_map: Vec<(String, u32)>,
    /// Key of the module level the party is on.
    pub current_level_key: Option<String>,
}

/// `d2` is `d` with room `k` replaced by `room`.
pub open spec fn room_replaced(d: DungeonState, d2: DungeonState, k: int, room: Room) -> bool {
    &&& d2 == DungeonState { rooms: d2.rooms, ..d }
    &&& 0 <= k < d.rooms@.len()
    &&& d2.rooms@ == d.rooms@.update(k, room)
}

/// Position of the first door of `doors` from `i` on with id `id`.
pub open spec fn door_index_from(doors: Seq<Door>, id: u32, i: int) -> Option<int>
    decreases doors.len() - i,
{
    if i < 0 || i >= doors.len() {
        None
    } else if doors[i].id == id {
        Some(i)
    } else {
        door_index_from(doors, id, i + 1)
    }
}

/// Position of the door with id `id`.
pub open spec fn door_index(doors: Seq<Door>, id: u32) -> Option<int> {
    door_index_from(doors, id, 0)
}

/// What door `id` is, when there is one.
pub proof fn lemma_door_index(doors: Seq<Door>, id: u32)
    ensures
        match door_index(doors, id) {
            Some(k) => 0 <= k < doors.len() && doors[k].id == id,
            None => forall|j: int| 0 <= j < doors.len() ==> (#[trigger] doors[j]).id != id,
        },
{
    lemma_door_index_from(doors, id, 0);
}

proof fn lemma_door_index_from(doors: Seq<Door>, id: u32, i: int)
    requires
        0 <= i <= doors.len(),
    ensures
        match door_index_from(doors, id, i) {
            Some(k) => i <= k < doors.len() && doors[k].id == id,
            None => forall|j: int| i <= j < doors.len() ==> (#[trigger] doors[j]).id != id,
        },
    decreases doors.len() - i,
{
    if i < doors.len() && doors[i].id != id {
        lemma_door_index_from(doors, id, i + 1);
    }
}

/// The search for a door id gives the same answer on doors with the same ids.
pub proof fn lemma_door_index_same_ids(a: Seq<Door>, b: Seq<Door>, id: u32)
    requires
        a.len() == b.len(),
        forall|j: int| 0 <= j < a.len() ==> (#[trigger] a[j]).id == b[j].id,
    ensures
        door_index(a, id) == door_index(b, id),
{
    lemma_door_index_same_ids_from(a, b, id, 0);
}

proof fn lemma_door_index_same_ids_from(a: Seq<Door>, b: Seq<Door>, id: u32, i: int)
    requires
        0 <= i <= a.len(),
        a.len() == b.len(),
        forall|j: int| 0 <= j < a.len() ==> (#[trigger] a[j]).id == b[j].id,
    ensures
        door_index_from(a, id, i) == door_index_from(b, id, i),
    decreases a.len() - i,
{
    if i < a.len() {
        lemma_door_index_same_ids_from(a, b, id, i + 1);
    }
}

/// Refusal of a door id already in use.
pub open spec fn door_exists_text(id: nat) -> Seq<char> {
    "door "@ + crate::text::nat_text(id) + " already exists."@
}

/// Refusal of a room that the dungeon lacks.
pub open spec fn no_room_text(id: nat) -> Seq<char> {
    "room "@ + crate::text::nat_text(id) + " does not exist."@
}

/// Whether door `d` can be seen from room `room`: it touches the room and
/// is not a secret door still hidden.
pub open spec fn door_visible_from(d: Door, room: u32) -> bool {
    &&& (d.room_a == room || d.room_b == room)
    &&& !(d.state == DoorState::Secret && !d.discovered)
}

/// The doors of the first `n` that can be seen from room `room`, in order.
pub open spec fn doors_from(doors: Seq<Door>, room: u32, n: int) -> Seq<Door>
    decreases n,
{
    if n <= 0 {
        Seq::empty()
    } else {
        let rest = doors_from(doors, room, n - 1);
        if door_visible_from(doors[n - 1], room) {
            rest.push(doors[n - 1])
        } else {
            rest
        }
    }
}

/// The doors that can be seen from the party's room.
pub open spec fn doors_from_current_spec(d: DungeonState) -> Seq<Door> {
    match d.current_room {
        Some(room) => doors_from(d.doors@, room, d.doors@.len() as int),
        None => Seq::empty(),
    }
}

/// `d2` is `d` with the party's room marked as explored, once.
pub open spec fn explored_current(d: DungeonState, d2: DungeonState) -> bool {
    &&& d2 == DungeonState { explored: d2.explored, ..d }
    &&& match d.current_room {
        Some(id) => if d.explored@.contains(id) {
            d2.explored@ == d.explored@
        } else {
            d2.explored@ == d.explored@.push(id)
        },
        None => d2.explored@ == d.explored@,
    }
}

/// Name of the party's room, or `unknown area`.
pub open spec fn current_room_name(d: DungeonState) -> Seq<char> {
    match d.current_room {
        Some(id) => match room_index(d.rooms@, id) {
            Some(k) => d.rooms@[k].name@,
            None => "unknown area"@,
        },
        None => "unknown area"@,
    }
}

/// Status of the dungeon.
pub open spec fn dungeon_status_text(d: DungeonState) -> Seq<char> {
    "Level: "@ + crate::text::nat_text(d.level as nat) + match d.current_level_key {
        Some(k) => " ("@ + k@ + ")"@,
        None => Seq::empty(),
    } + "\n"@ + match d.current_room {
        Some(id) => match room_index(d.rooms@, id) {
            Some(k) => "Room: "@ + d.rooms@[k].name@ + " ("@ + crate::text::nat_text(id as nat) + ")"@,
            None => "Room: "@ + crate::text::nat_text(id as nat),
        },
        None => "Room: none"@,
    } + "\nRooms explored: "@ + crate::text::nat_text(d.explored@.len() as nat) + "/"@
        + crate::text::nat_text(d.rooms@.len() as nat)
}

/// The dungeon level of a module level key: the first entry of the map with
/// that key.
pub open spec fn level_of_key(map: Seq<(String, u32)>, k: Seq<char>) -> Option<u32>
    decreases map.len(),
{
    if map.len() == 0 {
        None
    } else {
        match level_of_key(map.drop_last(), k) {
            Some(l) => Some(l),
            None => if map.last().0@ == k {
                Some(map.last().1)
            } else {
                None
            },
        }
    }
}

/// The dungeon level after entering `room`: that of the room's level key
/// when the map knows it, else unchanged.
pub open spec fn level_after(d: DungeonState, room: Room) -> u32 {
    match room.level_key {
        Some(k) => match level_of_key(d.level_map@, k@) {
            Some(l) => l,
            None => d.level,
        },
        None => d.level,
    }
}

/// The current level key after entering `room`.
pub open spec fn level_key_after(d: DungeonState, room: Room) -> Option<String> {
    match room.level_key {
        Some(k) => Some(k),
        None => d.current_level_key,
    }
}

fn level_in_map(map: &Vec<(String, u32)>, k: &str) -> (r: Option<u32>)
    ensures
        r == level_of_key(map@, k@),
{
    let mut i: usize = 0;
    while i < map.len()
        invariant
            i <= map@.len(),
            level_of_key(map@.take(i as int), k@) is None,
        decreases map@.len() - i,
    {
        proof {
            assert(map@.take(i as int + 1).drop_last() =~= map@.take(i as int));
        }
        if crate::text::str_eq(map[i].0.as_str(), k) {
            proof {
                lemma_level_of_key_prefix(map@, k@, i as int + 1);
            }
            return Some(map[i].1);
        }
        i = i + 1;
    }
    proof {
        assert(map@.take(map@.len() as int) =~= map@);
    }
    None
}

/// Once a prefix of the map has an answer, the whole map gives it.
proof fn lemma_level_of_key_prefix(map: Seq<(String, u32)>, k: Seq<char>, n: int)
    requires
        0 <= n <= map.len(),
        level_of_key(map.take(n), k) is Some,
    ensures
        level_of_key(map, k) == level_of_key(map.take(n), k),
    decreases map.len() - n,
{
    if n < map.len() {
        assert(map.take(n + 1).drop_last() =~= map.take(n));
        lemma_level_of_key_prefix(map, k, n + 1);
    } else {
        assert(map.take(n) =~= map);
    }
}

impl DungeonState {
    /// A dungeon level with no rooms yet.
    pub fn new(level: u32) -> (r: DungeonState)
        ensures
            r.level == level,
            r.rooms@.len() == 0,
            r.doors@.len() == 0,
            r.current_room is None,
            r.explored@.len() == 0,
            r.log@.len() == 0,
            r.level_map@.len() == 0,
            r.current_level_key is None,
    {
        DungeonState {
            level,
            rooms: Vec::new(),
            doors: Vec::new(),
            current_room: None,
            explored: Vec::new(),
            log: Vec::new(),
            level_map: Vec::new(),
            current_level_key: None,
        }
    }

    /// Position of the room with id `id`.
    pub fn room_position(&self, id: u32) -> (r: Option<usize>)
        ensures
            match r {
                Some(k) => room_index(self.rooms@, id) == Some(k as int) && k < self.rooms@.len(),
                None => room_index(self.rooms@, id) is None,
            },
    {
        proof {
            lemma_room_index(self.rooms@, id);
        }
        let mut i: usize = 0;
        while i < self.rooms.len()
            invariant
                i <= self.rooms@.len(),
                room_index(self.rooms@, id) == room_index_from(self.rooms@, id, i as int),
            decreases self.rooms@.len() - i,
        {
            if self.rooms[i].id == id {
                return Some(i);
            }
            i = i + 1;
        }
        None
    }

    /// The room with id `id`.
    pub fn find_room(&self, id: u32) -> (r: Option<&Room>)
        ensures
            match room_index(self.rooms@, id) {
                Some(k) => r == Some(&self.rooms@[k]),
                None => r is None,
            },
    {
        match self.room_position(id) {
            Some(k) => Some(&self.rooms[k]),
            None => None,
        }
    }

    /// Position of the door with id `id`.
    pub fn door_position(&self, id: u32) -> (r: Option<usize>)
        ensures
            match r {
                Some(k) => door_index(self.doors@, id) == Some(k as int) && k < self.doors@.len(),
                None => door_index(self.doors@, id) is None,
            },
    {
        proof {
            lemma_door_index(self.doors@, id);
        }
        let mut i: usize = 0;
        while i < self.doors.len()
            invariant
                i <= self.doors@.len(),
                door_index(self.doors@, id) == door_index_from(self.doors@, id, i as int),
            decreases self.doors@.len() - i,
        {
            if self.doors[i].id == id {
                return Some(i);
            }
            i = i + 1;
        }
        None
    }

    /// The door with id `id`.
    pub fn find_door(&self, id: u32) -> (r: Option<Door>)
        ensures
            match door_index(self.doors@, id) {
                Some(k) => r == Some(self.doors@[k]),
                None => r is None,
            },
    {
        match self.door_position(id) {
            Some(k) => Some(self.doors[k]),
            None => None,
        }
    }

    /// Sets the state of door `pos`.
    pub fn set_door_state(&mut self, pos: usize, state: DoorState)
        requires
            pos < old(self).doors@.len(),
        ensures
            *final(self) == (DungeonState { doors: final(self).doors, ..*old(self) }),
            final(self).doors@ == old(self).doors@.update(pos as int, Door { state, ..old(self).doors@[pos as int] }),
    {
        let d = self.doors[pos];
        self.doors.set(pos, Door { state, ..d });
    }

    /// Marks door `pos` as discovered.
    pub fn discover_door(&mut self, pos: usize)
        requires
            pos < old(self).doors@.len(),
        ensures
            *final(self) == (DungeonState { doors: final(self).doors, ..*old(self) }),
            final(self).doors@ == old(self).doors@.update(pos as int, Door { discovered: true, ..old(self).doors@[pos as int] }),
    {
        let d = self.doors[pos];
        self.doors.set(pos, Door { discovered: true, ..d });
    }

    /// Adds a room; an id already in use is refused. The first room added
    /// becomes the party's room.
    pub fn add_room(&mut self, room: Room) -> (r: Result<(), String>)
        ensures
            match room_index(old(self).rooms@, room.id) {
                Some(_) => r matches Err(t) && t@ == room_exists_text(room.id as nat) && *final(self)
                    == *old(self),
                None => {
                    &&& r is Ok
                    &&& *final(self) == (DungeonState { rooms: final(self).rooms, current_room: final(self).current_room, ..*old(self) })
                    &&& final(self).rooms@ == old(self).rooms@.push(room)
                    &&& final(self).current_room == match old(self).current_room {
                        Some(c) => Some(c),
                        None => Some(room.id),
                    }
                },
            },
    {
        match self.room_position(room.id) {
            Some(_) => {
                let mut t = String::from_str("room ");
                append_nat(&mut t, room.id as u64);
                t.append(" already exists.");
                Err(t)
            },
            None => {
                if self.current_room.is_none() {
                    self.current_room = Some(room.id);
                }
                self.rooms.push(room);
                Ok(())
            },
        }
    }

    /// Adds a door; an id already in use, or a room the dungeon lacks, is
    /// refused.
    pub fn add_door(&mut self, door: Door) -> (r: Result<(), String>)
        ensures
            if door_index(old(self).doors@, door.id) is Some {
                r matches Err(t) && t@ == door_exists_text(door.id as nat) && *final(self) == *old(self)
            } else if room_index(old(self).rooms@, door.room_a) is None {
                r matches Err(t) && t@ == no_room_text(door.room_a as nat) && *final(self) == *old(self)
            } else if room_index(old(self).rooms@, door.room_b) is None {
                r matches Err(t) && t@ == no_room_text(door.room_b as nat) && *final(self) == *old(self)
            } else {
                r is Ok && *final(self) == (DungeonState { doors: final(self).doors, ..*old(self) })
                    && final(self).doors@ == old(self).doors@.push(door)
            },
    {
        if self.door_position(door.id).is_some() {
            let mut t = String::from_str("door ");
            append_nat(&mut t, door.id as u64);
            t.append(" already exists.");
            return Err(t);
        }
        if self.room_position(door.room_a).is_none() {
            return Err(no_room(door.room_a));
        }
        if self.room_position(door.room_b).is_none() {
            return Err(no_room(door.room_b));
        }
        self.doors.push(door);
        Ok(())
    }

    /// The doors that can be seen from the party's room.
    pub fn doors_from_current(&self) -> (r: Vec<Door>)
        ensures
            r@ == doors_from_current_spec(*self),
    {
        let room = match self.current_room {
            Some(id) => id,
            None => return Vec::new(),
        };
        let mut out: Vec<Door> = Vec::new();
        let mut i: usize = 0;
        while i < self.doors.len()
            invariant
                i <= self.doors@.len(),
                out@ == doors_from(self.doors@, room, i as int),
            decreases self.doors@.len() - i,
        {
            let d = self.doors[i];
            if (d.room_a == room || d.room_b == room) && !(d.state == DoorState::Secret && !d.discovered) {
                out.push(d);
            }
            i = i + 1;
        }
        out
    }

    /// Marks the party's room as explored, once.
    pub fn explore_current(&mut self)
        ensures
            explored_current(*old(self), *final(self)),
    {
        match self.current_room {
            Some(id) => {
                let mut i: usize = 0;
                while i < self.explored.len()
                    invariant
                        *self == *old(self),
                        old(self).current_room == Some(id),
                        i <= self.explored@.len(),
                        forall|j: int| 0 <= j < i ==> self.explored@[j] != id,
                    decreases self.explored@.len() - i,
                {
                    if self.explored[i] == id {
                        proof {
                            assert(self.explored@[i as int] == id);
                        }
                        return;
                    }
                    i = i + 1;
                }
                self.explored.push(id);
            },
            None => {},
        }
    }

    /// Moves the party into room `dest` and marks it explored. A room of
    /// another module level takes the party to that level.
    pub fn move_to(&mut self, dest: u32) -> (r: Result<(), String>)
        ensures
            match room_index(old(self).rooms@, dest) {
                None => r matches Err(t) && t@ == no_room_text(dest as nat) && *final(self) == *old(self),
                Some(q) => {
                    &&& r is Ok
                    &&& *final(self) == (DungeonState {
                        current_room: Some(dest),
                        explored: final(self).explored,
                        level: level_after(*old(self), old(self).rooms@[q]),
                        current_level_key: level_key_after(*old(self), old(self).rooms@[q]),
                        ..*old(self)
                    })
                    &&& if old(self).explored@.contains(dest) {
                        final(self).explored@ == old(self).explored@
                    } else {
                        final(self).explored@ == old(self).explored@.push(dest)
                    }
                },
            },
    {
        let q = match self.room_position(dest) {
            None => return Err(no_room(dest)),
            Some(q) => q,
        };
        match &self.rooms[q].level_key {
            Some(k) => {
                let key = k.clone();
                match level_in_map(&self.level_map, key.as_str()) {
                    Some(l) => {
                        self.level = l;
                    },
                    None => {},
                }
                self.current_level_key = Some(key);
            },
            None => {},
        }
        self.current_room = Some(dest);
        self.explore_current();
        Ok(())
    }

    /// Status of the dungeon: level, room and rooms explored.
    pub fn status(&self) -> (r: String)
        ensures
            r@ == dungeon_status_text(*self),
    {
        let mut s = String::from_str("Level: ");
        append_nat(&mut s, self.level as u64);
        match &self.current_level_key {
            Some(k) => {
                s.append(" (");
                s.append(k.as_str());
                s.append(")");
            },
            None => {},
        }
        s.append("\n");
        match self.current_room {
            Some(id) => match self.find_room(id) {
                Some(room) => {
                    s.append("Room: ");
                    s.append(room.name.as_str());
                    s.append(" (");
                    append_nat(&mut s, id as u64);
                    s.append(")");
                },
                None => {
                    s.append("Room: ");
                    append_nat(&mut s, id as u64);
                },
            },
            None => {
                s.append("Room: none");
            },
        }
        s.append("\nRooms explored: ");
        append_nat(&mut s, self.explored.len() as u64);
        s.append("/");
        append_nat(&mut s, self.rooms.len() as u64);
        s
    }
}

fn no_room(id: u32) -> (r: String)
    ensures
        r@ == no_room_text(id as nat),
{
    let mut t = String::from_str("room ");
    append_nat(&mut t, id as u64);
    t.append(" does not exist.");
    t
}

/// Refusal of a room id already in use.
pub open spec fn room_exists_text(id: nat) -> Seq<char> {
    "room "@ + crate::text::nat_text(id) + " already exists."@
}

/// `after` is `before` with every entry named in `names` marked as met;
/// nothing else changes.
pub open spec fn placed_marked(
    before: Seq<PlacedMonsterInstance>,
    after: Seq<PlacedMonsterInstance>,
    names: Seq<Seq<char>>,
) -> bool {
    &&& after.len() == before.len()
    &&& forall|q: int|
        0 <= q < before.len() ==> {
            &&& (#[trigger] after[q]).name@ == before[q].name@
            &&& after[q].count == before[q].count
            &&& after[q].undead == before[q].undead
            &&& after[q].spawned == (before[q].spawned || names.contains(before[q].name@))
        }
}

fn names_contain(names: &Vec<String>, name: &String) -> (r: bool)
    ensures
        r == texts(names@).contains(name@),
{
    let mut i: usize = 0;
    while i < names.len()
        invariant
            i <= names@.len(),
            forall|j: int| 0 <= j < i ==> texts(names@)[j] != name@,
        decreases names@.len() - i,
    {
        if names[i] == *name {
            proof {
                assert(texts(names@)[i as int] == name@);
            }
            return true;
        }
        i = i + 1;
    }
    false
}

impl DungeonState {
    /// Marks the placed monsters of room `pos` named in `names` as met.
    pub fn mark_spawned(&mut self, pos: usize, names: &Vec<String>)
        requires
            pos < old(self).rooms@.len(),
        ensures
            room_replaced(
                *old(self),
                *final(self),
                pos as int,
                Room { placed_monsters: final(self).rooms@[pos as int].placed_monsters, ..old(self).rooms@[pos as int] },
            ),
            placed_marked(
                old(self).rooms@[pos as int].placed_monsters@,
                final(self).rooms@[pos as int].placed_monsters@,
                texts(names@),
            ),
    {
        let ghost before = self.rooms@;
        let mut room = self.rooms.remove(pos);
        let ghost pms0 = room.placed_monsters@;
        let mut q: usize = 0;
        while q < room.placed_monsters.len()
            invariant
                room.placed_monsters@.len() == pms0.len(),
                q <= pms0.len(),
                forall|j: int|
                    q <= j < pms0.len() ==> #[trigger] room.placed_monsters@[j] == pms0[j],
                forall|j: int|
                    0 <= j < q ==> {
                        &&& (#[trigger] room.placed_monsters@[j]).name@ == pms0[j].name@
                        &&& room.placed_monsters@[j].count == pms0[j].count
                        &&& room.placed_monsters@[j].undead == pms0[j].undead
                        &&& room.placed_monsters@[j].spawned == (pms0[j].spawned || texts(
                            names@,
                        ).contains(pms0[j].name@))
                    },
                room == (Room { placed_monsters: room.placed_monsters, ..before[pos as int] }),
            decreases pms0.len() - q,
        {
            let ghost mid = room.placed_monsters@;
            let mut pm = room.placed_monsters.remove(q);
            if !pm.spawned && names_contain(names, &pm.name) {
                pm.spawned = true;
            }
            room.placed_monsters.insert(q, pm);
            proof {
                assert forall|j: int| 0 <= j < pms0.len() && j != q implies #[trigger] room.placed_monsters@[j]
                    == mid[j] by {};
            }
            q = q + 1;
        }
        self.rooms.insert(pos, room);
        proof {
            assert(self.rooms@ =~= before.update(pos as int, room));
        }
    }

    /// Marks treasure `t` of room `pos` as taken.
    pub fn take_treasure(&mut self, pos: usize, t: usize)
        requires
            pos < old(self).rooms@.len(),
            t < old(self).rooms@[pos as int].placed_treasure@.len(),
        ensures
            room_replaced(
                *old(self),
                *final(self),
                pos as int,
                Room { placed_treasure: final(self).rooms@[pos as int].placed_treasure, ..old(self).rooms@[pos as int] },
            ),
            final(self).rooms@[pos as int].placed_treasure@ == old(self).rooms@[pos as int].placed_treasure@.update(
                t as int,
                PlacedTreasureInstance { taken: true, ..old(self).rooms@[pos as int].placed_treasure@[t as int] },
            ),
    {
        let ghost before = self.rooms@;
        let mut room = self.rooms.remove(pos);
        let ghost ts0 = room.placed_treasure@;
        let mut item = room.placed_treasure.remove(t);
        item.taken = true;
        room.placed_treasure.insert(t, item);
        proof {
            assert(room.placed_treasure@ =~= ts0.update(t as int, item));
        }
        self.rooms.insert(pos, room);
        proof {
            assert(self.rooms@ =~= before.update(pos as int, room));
        }
    }

    /// Sets flags of room `pos`: searched, treasure found, trap set off.
    pub fn set_room_flags(&mut self, pos: usize, searched: bool, treasure_looted: bool, trap_triggered: bool)
        requires
            pos < old(self).rooms@.len(),
        ensures
            room_replaced(
                *old(self),
                *final(self),
                pos as int,
                Room { searched, treasure_looted, trap_triggered, ..old(self).rooms@[pos as int] },
            ),
    {
        let ghost before = self.rooms@;
        let mut room = self.rooms.remove(pos);
        room.searched = searched;
        room.treasure_looted = treasure_looted;
        room.trap_triggered = trap_triggered;
        self.rooms.insert(pos, room);
        proof {
            assert(self.rooms@ =~= before.update(pos as int, room));
        }
    }
}

/// The dungeon after the monsters of its current room were dealt with: that
/// room, when it exists, is marked cleared; nothing else changes.
pub open spec fn current_room_cleared(d: DungeonState, d2: DungeonState) -> bool {
    match d.current_room {
        Some(id) => match room_index(d.rooms@, id) {
            Some(k) => room_replaced(d, d2, k, Room { monsters_cleared: true, ..d.rooms@[k] }),
            None => d2 == d,
        },
        None => d2 == d,
    }
}

impl DungeonState {
    /// Marks the monsters of the current room, if there is one, as cleared.
    pub fn clear_current_room(&mut self)
        ensures
            current_room_cleared(*old(self), *final(self)),
    {
        if let Some(id) = self.current_room {
            if let Some(pos) = self.room_position(id) {
                let ghost before = self.rooms@;
                let mut room = self.rooms.remove(pos);
                room.monsters_cleared = true;
                self.rooms.insert(pos, room);
                proof {
                    assert(self.rooms@ =~= before.update(pos as int, room));
                }
            }
        }
    }
}

/// The placed monsters, all marked as met.
pub open spec fn all_met(pms: Seq<PlacedMonsterInstance>) -> Seq<PlacedMonsterInstance> {
    pms.map_values(|p: PlacedMonsterInstance| PlacedMonsterInstance { spawned: true, ..p })
}

impl DungeonState {
    /// Marks every placed monster of room `pos` as met.
    pub fn mark_all_spawned(&mut self, pos: usize)
        requires
            pos < old(self).rooms@.len(),
        ensures
            room_replaced(
                *old(self),
                *final(self),
                pos as int,
                Room { placed_monsters: final(self).rooms@[pos as int].placed_monsters, ..old(self).rooms@[pos as int] },
            ),
            final(self).rooms@[pos as int].placed_monsters@ == all_met(old(self).rooms@[pos as int].placed_monsters@),
    {
        let ghost before = self.rooms@;
        let mut room = self.rooms.remove(pos);
        let ghost pms0 = room.placed_monsters@;
        let mut q: usize = 0;
        while q < room.placed_monsters.len()
            invariant
                room.placed_monsters@.len() == pms0.len(),
                q <= pms0.len(),
                forall|j: int| q <= j < pms0.len() ==> #[trigger] room.placed_monsters@[j] == pms0[j],
                forall|j: int| 0 <= j < q ==> #[trigger] room.placed_monsters@[j] == all_met(pms0)[j],
                room == (Room { placed_monsters: room.placed_monsters, ..before[pos as int] }),
            decreases pms0.len() - q,
        {
            let ghost mid = room.placed_monsters@;
            let mut pm = room.placed_monsters.remove(q);
            pm.spawned = true;
            room.placed_monsters.insert(q, pm);
            proof {
                assert forall|j: int| 0 <= j < pms0.len() && j != q implies #[trigger] room.placed_monsters@[j]
                    == mid[j] by {};
            }
            q = q + 1;
        }
        proof {
            assert(room.placed_monsters@ =~= all_met(pms0));
        }
        self.rooms.insert(pos, room);
        proof {
            assert(self.rooms@ =~= before.update(pos as int, room));
        }
    }
}

} // verus!
