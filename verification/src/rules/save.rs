//! Saving throws by class and level.
use vstd::prelude::*;

use crate::model::Class;

verus! {

/// The five saving throw targets: death or poison, wands, paralysis or
/// petrification, breath attacks, and spells, rods or staves.
#[derive(Clone, Copy, Debug, PartialEq, Eq, Structural)]
pub struct SavingThrows {
    pub death: u32,
    pub wands: u32,
    pub paralysis: u32,
    pub breath: u32,
    pub spells: u32,
}

impl SavingThrows {
    pub fn new(death: u32, wands: u32, paralysis: u32, breath: u32, spells: u32) -> (r: SavingThrows)
        ensures
            r == (SavingThrows { death, wands, paralysis, breath, spells }),
    {
        SavingThrows { death, wands, paralysis, breath, spells }
    }

    pub fn death(&self) -> (r: u32)
        ensures
            r == self.death,
    {
        self.death
    }

    pub fn wands(&self) -> (r: u32)
        ensures
            r == self.wands,
    {
        self.wands
    }

    pub fn paralysis(&self) -> (r: u32)
        ensures
            r == self.paralysis,
    {
        self.paralysis
    }

    pub fn breath(&self) -> (r: u32)
        ensures
            r == self.breath,
    {
        self.breath
    }

    pub fn spells(&self) -> (r: u32)
        ensures
            r == self.spells,
    {
        self.spells
    }
}

pub open spec fn saves(d: u32, w: u32, p: u32, b: u32, s: u32) -> SavingThrows {
    SavingThrows { death: d, wands: w, paralysis: p, breath: b, spells: s }
}

/// The saving throw table. Level 0 reads as level 1; levels past a class's
/// last row keep that row.
pub open spec fn saves_of(c: Class, level: nat) -> SavingThrows {
    match c {
        Class::Cleric => if level <= 4 {
            saves(11, 12, 14, 16, 15)
        } else if level <= 8 {
            saves(9, 10, 12, 14, 12)
        } else if level <= 12 {
            saves(6, 7, 9, 11, 9)
        } else {
            saves(3, 5, 7, 8, 7)
        },
        Class::Dwarf | Class::Halfling => if level <= 3 {
            saves(8, 9, 10, 13, 12)
        } else if level <= 6 {
            saves(6, 7, 8, 10, 10)
        } else if level <= 9 {
            saves(4, 5, 6, 7, 8)
        } else {
            saves(2, 3, 4, 4, 6)
        },
        Class::Elf => if level <= 3 {
            saves(12, 13, 13, 15, 15)
        } else if level <= 6 {
            saves(10, 11, 11, 13, 12)
        } else if level <= 9 {
            saves(8, 9, 9, 10, 10)
        } else {
            saves(6, 7, 8, 8, 8)
        },
        Class::Fighter => if level <= 3 {
            saves(12, 13, 14, 15, 16)
        } else if level <= 6 {
            saves(10, 11, 12, 13, 14)
        } else if level <= 9 {
            saves(8, 9, 10, 10, 12)
        } else if level <= 12 {
            saves(6, 7, 8, 8, 10)
        } else {
            saves(4, 5, 6, 5, 8)
        },
        Class::MagicUser => if level <= 5 {
            saves(13, 14, 13, 16, 15)
        } else if level <= 10 {
            saves(11, 12, 11, 14, 12)
        } else {
            saves(8, 9, 8, 11, 8)
        },
        Class::Thief => if level <= 4 {
            saves(13, 14, 13, 16, 15)
        } else if level <= 8 {
            saves(12, 13, 11, 14, 13)
        } else if level <= 12 {
            saves(10, 11, 9, 12, 10)
        } else {
            saves(8, 9, 7, 10, 8)
        },
    }
}

/// The saving throws of a class at a level.
pub fn saving_throws(c: Class, level: u32) -> (r: SavingThrows)
    ensures
        r == saves_of(c, level as nat),
{
    match c {
        Class::Cleric => if level <= 4 {
            SavingThrows::new(11, 12, 14, 16, 15)
        } else if level <= 8 {
            SavingThrows::new(9, 10, 12, 14, 12)
        } else if level <= 12 {
            SavingThrows::new(6, 7, 9, 11, 9)
        } else {
            SavingThrows::new(3, 5, 7, 8, 7)
        },
        Class::Dwarf | Class::Halfling => if level <= 3 {
            SavingThrows::new(8, 9, 10, 13, 12)
        } else if level <= 6 {
            SavingThrows::new(6, 7, 8, 10, 10)
        } else if level <= 9 {
            SavingThrows::new(4, 5, 6, 7, 8)
        } else {
            SavingThrows::new(2, 3, 4, 4, 6)
        },
        Class::Elf => if level <= 3 {
            SavingThrows::new(12, 13, 13, 15, 15)
        } else if level <= 6 {
            SavingThrows::new(10, 11, 11, 13, 12)
        } else if level <= 9 {
            SavingThrows::new(8, 9, 9, 10, 10)
        } else {
            SavingThrows::new(6, 7, 8, 8, 8)
        },
        Class::Fighter => if level <= 3 {
            SavingThrows::new(12, 13, 14, 15, 16)
        } else if level <= 6 {
            SavingThrows::new(10, 11, 12, 13, 14)
        } else if level <= 9 {
            SavingThrows::new(8, 9, 10, 10, 12)
        } else if level <= 12 {
            SavingThrows::new(6, 7, 8, 8, 10)
        } else {
            SavingThrows::new(4, 5, 6, 5, 8)
        },
        Class::MagicUser => if level <= 5 {
            SavingThrows::new(13, 14, 13, 16, 15)
        } else if level <= 10 {
            SavingThrows::new(11, 12, 11, 14, 12)
        } else {
            SavingThrows::new(8, 9, 8, 11, 8)
        },
        Class::Thief => if level <= 4 {
            SavingThrows::new(13, 14, 13, 16, 15)
        } else if level <= 8 {
            SavingThrows::new(12, 13, 11, 14, 13)
        } else if level <= 12 {
            SavingThrows::new(10, 11, 9, 12, 10)
        } else {
            SavingThrows::new(8, 9, 7, 10, 8)
        },
    }
}

/// A higher level never makes a saving throw harder.
pub proof fn lemma_saves_improve_with_level(c: Class, a: nat, b: nat)
    requires
        a <= b,
    ensures
        saves_of(c, b).death <= saves_of(c, a).death,
        saves_of(c, b).wands <= saves_of(c, a).wands,
        saves_of(c, b).paralysis <= saves_of(c, a).paralysis,
        saves_of(c, b).breath <= saves_of(c, a).breath,
        saves_of(c, b).spells <= saves_of(c, a).spells,
{
}

} // verus!
