//! Thief skills.
use vstd::prelude::*;

use crate::model::Class;
use crate::rules::open_locks_of;

verus! {

/// The skills of a thief.
#[derive(Clone, Copy, Debug, PartialEq, Eq, Structural)]
pub enum ThiefSkill {
    ClimbWalls,
    FindTraps,
    HearNoise,
    HideShadows,
    MoveSilently,
    OpenLocks,
    PickPockets,
    ReadLanguages,
}

/// Whether characters of a class have thief skills.
pub open spec fn thief_class(c: Class) -> bool {
    c == Class::Thief
}

pub fn has_thief_skills(c: Class) -> (r: bool)
    ensures
        r == thief_class(c),
{
    match c {
        Class::Thief => true,
        _ => false,
    }
}

/// Row of the skill table for a level: level 0 reads as level 1, levels past
/// 14 keep the 14th row.
pub open spec fn skill_row(level: nat) -> int {
    if level <= 1 {
        0
    } else if level >= 14 {
        13
    } else {
        level - 1
    }
}

pub open spec fn climb_column() -> Seq<u32> {
    seq![87u32, 88, 89, 90, 91, 92, 93, 94, 95, 96, 97, 98, 99, 99]
}

pub open spec fn traps_column() -> Seq<u32> {
    seq![10u32, 15, 20, 25, 30, 40, 50, 60, 70, 80, 90, 95, 97, 99]
}

pub open spec fn hear_column() -> Seq<u32> {
    seq![2u32, 2, 3, 3, 3, 3, 4, 4, 4, 4, 5, 5, 5, 5]
}

pub open spec fn hide_column() -> Seq<u32> {
    seq![10u32, 15, 20, 25, 30, 36, 45, 55, 65, 75, 85, 90, 95, 99]
}

pub open spec fn silent_column() -> Seq<u32> {
    seq![20u32, 25, 30, 35, 40, 45, 55, 65, 75, 85, 95, 96, 98, 99]
}

pub open spec fn pockets_column() -> Seq<u32> {
    seq![20u32, 25, 30, 35, 40, 45, 55, 65, 75, 85, 95, 105, 115, 125]
}

/// The chance of a skill at a level: a percentage, or for hearing noise a
/// number of chances in six. Languages can be read from level 4 on.
pub open spec fn skill_chance_of(skill: ThiefSkill, level: nat) -> u32 {
    match skill {
        ThiefSkill::ClimbWalls => climb_column()[skill_row(level)],
        ThiefSkill::FindTraps => traps_column()[skill_row(level)],
        ThiefSkill::HearNoise => hear_column()[skill_row(level)],
        ThiefSkill::HideShadows => hide_column()[skill_row(level)],
        ThiefSkill::MoveSilently => silent_column()[skill_row(level)],
        ThiefSkill::OpenLocks => open_locks_of(level),
        ThiefSkill::PickPockets => pockets_column()[skill_row(level)],
        ThiefSkill::ReadLanguages => if level >= 4 {
            80
        } else {
            0
        },
    }
}

fn row_index(level: u32) -> (r: usize)
    ensures
        r == skill_row(level as nat),
        r < 14,
{
    if level <= 1 {
        0
    } else if level >= 14 {
        13
    } else {
        (level - 1) as usize
    }
}

/// The chance of a skill at a level.
pub fn skill_chance(skill: ThiefSkill, level: u32) -> (r: u32)
    ensures
        r == skill_chance_of(skill, level as nat),
{
    let row = row_index(level);
    match skill {
        ThiefSkill::ClimbWalls => {
            let t: [u32; 14] = [87, 88, 89, 90, 91, 92, 93, 94, 95, 96, 97, 98, 99, 99];
            assert(t@ =~= climb_column());
            t[row]
        },
        ThiefSkill::FindTraps => {
            let t: [u32; 14] = [10, 15, 20, 25, 30, 40, 50, 60, 70, 80, 90, 95, 97, 99];
            assert(t@ =~= traps_column());
            t[row]
        },
        ThiefSkill::HearNoise => {
            let t: [u32; 14] = [2, 2, 3, 3, 3, 3, 4, 4, 4, 4, 5, 5, 5, 5];
            assert(t@ =~= hear_column());
            t[row]
        },
        ThiefSkill::HideShadows => {
            let t: [u32; 14] = [10, 15, 20, 25, 30, 36, 45, 55, 65, 75, 85, 90, 95, 99];
            assert(t@ =~= hide_column());
            t[row]
        },
        ThiefSkill::MoveSilently => {
            let t: [u32; 14] = [20, 25, 30, 35, 40, 45, 55, 65, 75, 85, 95, 96, 98, 99];
            assert(t@ =~= silent_column());
            t[row]
        },
        ThiefSkill::OpenLocks => crate::rules::open_locks_chance(level),
        ThiefSkill::PickPockets => {
            let t: [u32; 14] = [20, 25, 30, 35, 40, 45, 55, 65, 75, 85, 95, 105, 115, 125];
            assert(t@ =~= pockets_column());
            t[row]
        },
        ThiefSkill::ReadLanguages => if level >= 4 {
            80
        } else {
            0
        },
    }
}

/// Whether a skill is rolled on a d6 (hearing noise) rather than d%.
pub open spec fn rolled_on_d6(skill: ThiefSkill) -> bool {
    skill == ThiefSkill::HearNoise
}

impl ThiefSkill {
    pub fn is_d6(self) -> (r: bool)
        ensures
            r == rolled_on_d6(self),
    {
        match self {
            ThiefSkill::HearNoise => true,
            _ => false,
        }
    }

    pub fn name(self) -> (r: &'static str)
        ensures
            r@ == skill_name_text(self),
    {
        match self {
            ThiefSkill::ClimbWalls => "Climb Walls",
            ThiefSkill::FindTraps => "Find Traps",
            ThiefSkill::HearNoise => "Hear Noise",
            ThiefSkill::HideShadows => "Hide in Shadows",
            ThiefSkill::MoveSilently => "Move Silently",
            ThiefSkill::OpenLocks => "Open Locks",
            ThiefSkill::PickPockets => "Pick Pockets",
            ThiefSkill::ReadLanguages => "Read Languages",
        }
    }
}

/// Display name of a skill.
pub open spec fn skill_name_text(s: ThiefSkill) -> Seq<char> {
    match s {
        ThiefSkill::ClimbWalls => "Climb Walls"@,
        ThiefSkill::FindTraps => "Find Traps"@,
        ThiefSkill::HearNoise => "Hear Noise"@,
        ThiefSkill::HideShadows => "Hide in Shadows"@,
        ThiefSkill::MoveSilently => "Move Silently"@,
        ThiefSkill::OpenLocks => "Open Locks"@,
        ThiefSkill::PickPockets => "Pick Pockets"@,
        ThiefSkill::ReadLanguages => "Read Languages"@,
    }
}

/// A skill check succeeds when the roll is at most the chance.
pub open spec fn skill_succeeds(skill: ThiefSkill, level: nat, roll: u32) -> bool {
    roll <= skill_chance_of(skill, level)
}

/// Result of a skill check.
#[derive(Clone, Copy, Debug, PartialEq, Eq, Structural)]
pub struct SkillCheck {
    pub success: bool,
}

/// Checks a skill at a level against a roll.
pub fn check_skill(skill: ThiefSkill, level: u32, roll: u32) -> (r: SkillCheck)
    ensures
        r.success == skill_succeeds(skill, level as nat, roll),
{
    SkillCheck { success: roll <= skill_chance(skill, level) }
}

/// A thief's skills improve (or stay) from level to level.
pub proof fn lemma_skills_improve_with_level(skill: ThiefSkill, a: nat, b: nat)
    requires
        a <= b,
    ensures
        skill_chance_of(skill, a) <= skill_chance_of(skill, b),
{
    let (ra, rb) = (skill_row(a), skill_row(b));
    assert(0 <= ra <= rb < 14);
    match skill {
        ThiefSkill::ClimbWalls => {
            assert(forall|i: int, j: int| 0 <= i <= j < 14 ==> climb_column()[i] <= climb_column()[j]);
        },
        ThiefSkill::FindTraps => {
            assert(forall|i: int, j: int| 0 <= i <= j < 14 ==> traps_column()[i] <= traps_column()[j]);
        },
        ThiefSkill::HearNoise => {
            assert(forall|i: int, j: int| 0 <= i <= j < 14 ==> hear_column()[i] <= hear_column()[j]);
        },
        ThiefSkill::HideShadows => {
            assert(forall|i: int, j: int| 0 <= i <= j < 14 ==> hide_column()[i] <= hide_column()[j]);
        },
        ThiefSkill::MoveSilently => {
            assert(forall|i: int, j: int|
                0 <= i <= j < 14 ==> silent_column()[i] <= silent_column()[j]);
        },
        ThiefSkill::OpenLocks => {},
        ThiefSkill::PickPockets => {
            assert(forall|i: int, j: int|
                0 <= i <= j < 14 ==> pockets_column()[i] <= pockets_column()[j]);
        },
        ThiefSkill::ReadLanguages => {},
    }
}

} // verus!
