//! What the combat actions report back to their callers.
use vstd::prelude::*;

use crate::model::{CombatPhase, HitDice};
use crate::state::GameMode;

use super::attack::{
    AttackResult as CoreAttackResult, CoupDeGraceResult as CoreCoupDeGraceResult, attack_text,
    coup_text, same_attack,
};
use super::morale::{MoraleResult as CoreMoraleResult, morale_text};
use super::movement::{RetreatResult as CoreRetreatResult, retreat_result_text};
use super::turn_undead::{TurnUndeadResult as CoreTurnUndeadResult, turn_text};
use crate::rules::TurnResult;

verus! {

/// One kind of placed monster brought into a combat.
#[derive(Clone, Debug)]
pub struct SpawnPlacedDetail {
    pub name: String,
    pub count: u32,
    pub hit_dice: HitDice,
    pub ac: i32,
    pub morale: u32,
    pub xp_per_monster: u64,
    pub special: String,
    /// Where the definition came from: `module` or `core`.
    pub source: String,
}

/// Report of the placed monsters of a room brought into a combat.
#[derive(Clone, Debug)]
pub struct SpawnPlacedResult {
    pub message: String,
    pub distance: u32,
    pub spawned: Vec<SpawnPlacedDetail>,
    /// Names of placed monsters with no definition.
    pub unresolved: Vec<String>,
    pub status: String,
}

/// Report of monsters spawned from the bestiary.
#[derive(Clone, Debug)]
pub struct SpawnMonsterResult {
    pub message: String,
    pub monster_name: String,
    pub count: u32,
    pub hit_dice: HitDice,
    pub ac: i32,
    pub damage: String,
    pub morale: u32,
    pub distance: u32,
    pub xp_per_monster: u64,
    pub special: String,
    pub status: String,
}

/// Report of an encounter started with custom monster statistics.
#[derive(Clone, Debug)]
pub struct SpawnEncounterResult {
    pub message: String,
    pub encounter_name: String,
    pub count: u32,
    pub hit_dice: HitDice,
    pub ac: i32,
    pub hp: i32,
    pub damage: String,
    pub morale: u32,
    pub distance: u32,
    pub xp_per_monster: u64,
    pub status: String,
}

/// Report of monsters added to a running combat.
#[derive(Clone, Debug)]
pub struct AddMonsterResult {
    pub message: String,
    pub monster_name: String,
    pub count: u32,
    pub hit_dice: HitDice,
    pub ac: i32,
    pub hp: i32,
    pub damage: String,
    pub morale: u32,
    pub xp_per_monster: u64,
    pub total_monsters: usize,
    pub status: String,
}

/// Which side won initiative for the round.
#[derive(Clone, Copy, Debug, PartialEq, Eq, Structural)]
pub enum InitiativeWinner {
    Party,
    Monsters,
    Simultaneous,
}

/// The winner of two initiative rolls.
pub open spec fn winner_of(party: int, monsters: int) -> InitiativeWinner {
    if party > monsters {
        InitiativeWinner::Party
    } else if monsters > party {
        InitiativeWinner::Monsters
    } else {
        InitiativeWinner::Simultaneous
    }
}

/// Lower-case name of a side.
pub open spec fn winner_name(w: InitiativeWinner) -> Seq<char> {
    match w {
        InitiativeWinner::Party => "party"@,
        InitiativeWinner::Monsters => "monsters"@,
        InitiativeWinner::Simultaneous => "simultaneous"@,
    }
}

impl InitiativeWinner {
    pub fn as_str(self) -> (r: &'static str)
        ensures
            r@ == winner_name(self),
    {
        match self {
            InitiativeWinner::Party => "party",
            InitiativeWinner::Monsters => "monsters",
            InitiativeWinner::Simultaneous => "simultaneous",
        }
    }
}

/// Report of an initiative roll.
#[derive(Clone, Debug)]
pub struct InitiativeResult {
    pub message: String,
    pub round: u32,
    pub party_initiative: i32,
    pub monster_initiative: i32,
    pub winner: InitiativeWinner,
}

/// Report of an attack by a character or a monster, or of a coup de grace.
#[derive(Clone, Debug)]
pub struct AttackResult {
    pub message: String,
    pub attacker: String,
    pub target: String,
    pub roll: Option<u32>,
    pub modifiers: Option<i32>,
    pub target_number: Option<i32>,
    pub hit: bool,
    pub damage: Option<i32>,
    pub damage_rolls: Vec<u32>,
    pub target_hp_after: Option<i32>,
    pub target_killed: bool,
    pub auto_kill: bool,
    pub target_was_helpless: bool,
}

/// `r` reports the rolled attack `a`.
pub open spec fn reports_attack(r: AttackResult, a: CoreAttackResult) -> bool {
    &&& r.message@ == attack_text(a)
    &&& r.attacker@ == a.attacker@
    &&& r.target@ == a.target@
    &&& r.roll == Some(a.roll)
    &&& r.modifiers == Some(a.modifiers)
    &&& r.target_number == Some(a.target_number)
    &&& r.hit == a.hit
    &&& r.damage == Some(a.damage)
    &&& r.damage_rolls@ == a.damage_rolls@
    &&& r.target_hp_after == Some(a.target_hp_after)
    &&& r.target_killed == a.target_killed
    &&& !r.auto_kill
    &&& !r.target_was_helpless
}

/// `r` reports the coup de grace `c`: no roll, the target killed outright.
pub open spec fn reports_coup(r: AttackResult, c: CoreCoupDeGraceResult) -> bool {
    &&& r.message@ == coup_text(c.attacker@, c.target@)
    &&& r.attacker@ == c.attacker@
    &&& r.target@ == c.target@
    &&& r.roll is None
    &&& r.modifiers is None
    &&& r.target_number is None
    &&& r.hit
    &&& r.damage is None
    &&& r.damage_rolls@.len() == 0
    &&& r.target_hp_after == Some(0i32)
    &&& r.target_killed
    &&& r.auto_kill
    &&& r.target_was_helpless == c.target_was_helpless
}

/// The rolled attack a report stands for.
pub open spec fn as_rolled(r: AttackResult) -> CoreAttackResult {
    CoreAttackResult {
        attacker: r.attacker,
        target: r.target,
        roll: match r.roll {
            Some(x) => x,
            None => 0,
        },
        modifiers: match r.modifiers {
            Some(x) => x,
            None => 0,
        },
        target_number: match r.target_number {
            Some(x) => x,
            None => 0,
        },
        hit: r.hit,
        damage: match r.damage {
            Some(x) => x,
            None => 0,
        },
        damage_rolls: r.damage_rolls,
        target_hp_after: match r.target_hp_after {
            Some(x) => x,
            None => 0,
        },
        target_killed: r.target_killed,
    }
}

/// A report of a rolled attack stands for that attack.
pub proof fn lemma_as_rolled(r: AttackResult, a: CoreAttackResult)
    requires
        reports_attack(r, a),
    ensures
        same_attack(a, as_rolled(r)),
        attack_text(as_rolled(r)) == attack_text(a),
{
}

impl AttackResult {
    /// Report of a rolled attack.
    pub fn from_attack(a: CoreAttackResult) -> (r: AttackResult)
        ensures
            reports_attack(r, a),
    {
        let message = a.to_string();
        AttackResult {
            message,
            attacker: a.attacker,
            target: a.target,
            roll: Some(a.roll),
            modifiers: Some(a.modifiers),
            target_number: Some(a.target_number),
            hit: a.hit,
            damage: Some(a.damage),
            damage_rolls: a.damage_rolls,
            target_hp_after: Some(a.target_hp_after),
            target_killed: a.target_killed,
            auto_kill: false,
            target_was_helpless: false,
        }
    }

    /// Report of a coup de grace.
    pub fn from_coup_de_grace(c: CoreCoupDeGraceResult) -> (r: AttackResult)
        ensures
            reports_coup(r, c),
    {
        let message = c.to_string();
        AttackResult {
            message,
            attacker: c.attacker,
            target: c.target,
            roll: None,
            modifiers: None,
            target_number: None,
            hit: true,
            damage: None,
            damage_rolls: Vec::new(),
            target_hp_after: Some(0),
            target_killed: true,
            auto_kill: true,
            target_was_helpless: c.target_was_helpless,
        }
    }
}

/// Report of a monster's attack, with the attack routine used and how many
/// routines the monster has left this round.
#[derive(Clone, Debug)]
pub struct MonsterAttackResult {
    pub message: String,
    pub attack: AttackResult,
    pub attack_routine: String,
    pub attacks_remaining: usize,
}

impl MonsterAttackResult {
    pub fn new(a: CoreAttackResult, attack_routine: String, attacks_remaining: usize) -> (r:
        MonsterAttackResult)
        ensures
            reports_attack(r.attack, a),
            r.message@ == attack_text(a),
            r.attack_routine@ == attack_routine@,
            r.attacks_remaining == attacks_remaining,
    {
        let attack = AttackResult::from_attack(a);
        let message = attack.message.clone();
        MonsterAttackResult { message, attack, attack_routine, attacks_remaining }
    }
}

/// Report of a morale check.
#[derive(Clone, Debug)]
pub struct MoraleResult {
    pub message: String,
    pub roll: i32,
    pub morale_score: u32,
    pub passed: bool,
}

impl MoraleResult {
    pub fn from_check(m: CoreMoraleResult) -> (r: MoraleResult)
        ensures
            r.message@ == morale_text(m),
            r.roll == m.roll,
            r.morale_score == m.morale_score,
            r.passed == m.passed,
    {
        let message = m.to_string();
        MoraleResult { message, roll: m.roll, morale_score: m.morale_score, passed: m.passed }
    }
}

/// Report of an attempt to turn undead.
#[derive(Clone, Debug)]
pub struct TurnUndeadResult {
    pub message: String,
    pub cleric_name: String,
    pub cleric_level: u32,
    pub undead_type: String,
    pub undead_rank: u32,
    pub table_result: TurnResult,
    pub roll: Option<i32>,
    pub success: bool,
    pub hd_affected: u32,
    pub destroyed: bool,
}

/// `r` reports the turning attempt `t`.
pub open spec fn reports_turning(r: TurnUndeadResult, t: CoreTurnUndeadResult) -> bool {
    &&& r.message@ == turn_text(t)
    &&& r.cleric_name@ == t.cleric_name@
    &&& r.cleric_level == t.cleric_level
    &&& r.undead_type@ == t.undead_type@
    &&& r.undead_rank == t.undead_rank
    &&& r.table_result == t.table_result
    &&& r.roll == t.roll
    &&& r.success == t.success
    &&& r.hd_affected == t.hd_affected
    &&& r.destroyed == t.destroyed
}

/// The turning attempt a report stands for.
pub open spec fn as_turning(r: TurnUndeadResult) -> CoreTurnUndeadResult {
    CoreTurnUndeadResult {
        cleric_name: r.cleric_name,
        cleric_level: r.cleric_level,
        undead_type: r.undead_type,
        undead_rank: r.undead_rank,
        table_result: r.table_result,
        roll: r.roll,
        success: r.success,
        hd_affected: r.hd_affected,
        destroyed: r.destroyed,
    }
}

impl TurnUndeadResult {
    pub fn from_turning(t: CoreTurnUndeadResult) -> (r: TurnUndeadResult)
        ensures
            reports_turning(r, t),
    {
        let message = t.to_string();
        TurnUndeadResult {
            message,
            cleric_name: t.cleric_name,
            cleric_level: t.cleric_level,
            undead_type: t.undead_type,
            undead_rank: t.undead_rank,
            table_result: t.table_result,
            roll: t.roll,
            success: t.success,
            hd_affected: t.hd_affected,
            destroyed: t.destroyed,
        }
    }
}

/// Report of a character closing in on the monsters.
#[derive(Clone, Debug)]
pub struct CloseResult {
    pub message: String,
    pub character: String,
    pub distance_closed: u32,
    pub new_distance: u32,
}

/// Report of a retreat with the free attacks it drew.
#[derive(Clone, Debug)]
pub struct RetreatResult {
    pub message: String,
    pub retreater: String,
    pub distance_moved: u32,
    pub new_distance: u32,
    pub free_attacks: Vec<AttackResult>,
}

impl RetreatResult {
    pub fn from_retreat(c: CoreRetreatResult) -> (r: RetreatResult)
        ensures
            r.message@ == retreat_result_text(c),
            r.retreater@ == c.retreater@,
            r.distance_moved == c.distance_moved,
            r.new_distance == c.new_distance,
            r.free_attacks@.len() == c.free_attacks@.len(),
            forall|i: int|
                0 <= i < c.free_attacks@.len() ==> reports_attack(
                    #[trigger] r.free_attacks@[i],
                    c.free_attacks@[i],
                ),
    {
        let message = c.to_string();
        let mut free_attacks: Vec<AttackResult> = Vec::new();
        let mut i: usize = 0;
        while i < c.free_attacks.len()
            invariant
                i <= c.free_attacks@.len(),
                free_attacks@.len() == i,
                forall|j: int|
                    0 <= j < i ==> reports_attack(#[trigger] free_attacks@[j], c.free_attacks@[j]),
            decreases c.free_attacks@.len() - i,
        {
            let a = c.free_attacks[i].clone_result();
            let ghost orig = c.free_attacks@[i as int];
            let report = AttackResult::from_attack(a);
            proof {
                assert(attack_text(a) == attack_text(orig));
            }
            free_attacks.push(report);
            i = i + 1;
        }
        RetreatResult {
            message,
            retreater: c.retreater,
            distance_moved: c.distance_moved,
            new_distance: c.new_distance,
            free_attacks,
        }
    }
}

/// Report of a fighting withdrawal.
#[derive(Clone, Debug)]
pub struct FightingWithdrawalResult {
    pub message: String,
    pub withdrawer: String,
    pub distance_moved: u32,
    pub new_distance: u32,
}

/// The combat log.
#[derive(Clone, Debug)]
pub struct CombatLogResult {
    pub message: String,
    pub log: Vec<String>,
}

/// Report of a backstab.
#[derive(Clone, Debug)]
pub struct BackstabResult {
    pub message: String,
    pub hit: bool,
    pub attack_roll: i32,
    pub target_number: i32,
    pub attack_bonus: i32,
    pub multiplier: u32,
    pub damage: Option<i32>,
    pub monster_alive: Option<bool>,
}

/// Report of a spell declaration.
#[derive(Clone, Debug)]
pub struct DeclareSpellResult {
    pub message: String,
    pub character: String,
    pub spell: String,
}

/// Report of casting a declared spell.
#[derive(Clone, Debug)]
pub struct CastSpellResult {
    pub message: String,
    pub character: String,
    pub spell: String,
    pub cast: bool,
    pub disrupted: bool,
}

/// End-of-combat loyalty outcome of a surviving retainer.
#[derive(Clone, Copy, Debug, PartialEq, Eq, Structural)]
pub enum RetainerLoyaltyOutcome {
    Loyal,
    Wavering,
    Disloyal,
}

/// Loyalty check of one retainer at the end of combat.
#[derive(Clone, Debug)]
pub struct RetainerLoyaltyCheckResult {
    pub name: String,
    pub loyalty: u32,
    pub outcome: RetainerLoyaltyOutcome,
}

/// The combat status display.
#[derive(Clone, Debug)]
pub struct CombatStatusResult {
    pub message: String,
    pub status: String,
}

/// Report of marking a monster helpless or not.
#[derive(Clone, Debug)]
pub struct SetHelplessResult {
    pub message: String,
    pub monster_idx: usize,
    pub helpless: bool,
}

/// Experience a surviving character received at the end of combat.
#[derive(Clone, Debug)]
pub struct CombatXpAward {
    pub character: String,
    pub base_xp: u64,
    pub modifier_pct: i32,
    pub adjusted_xp: u64,
    pub total_xp: u64,
    pub ready_to_train: bool,
}

/// Report of the end of a combat.
#[derive(Clone, Debug)]
pub struct EndCombatResult {
    pub message: String,
    pub rounds: u32,
    pub monsters_defeated: usize,
    pub total_monsters: usize,
    pub total_xp: u64,
    pub xp_per_survivor: u64,
    pub xp_awards: Vec<CombatXpAward>,
    pub party_casualties: usize,
    pub mode_after: GameMode,
    pub retainer_xp_each: Option<u64>,
    pub retainer_xp_recipients: Vec<String>,
    pub retainer_loyalty_checks: Vec<RetainerLoyaltyCheckResult>,
}

/// Report of moving to the next phase of the round.
#[derive(Clone, Debug)]
pub struct NextPhaseResult {
    pub message: String,
    pub previous_phase: CombatPhase,
    pub current_phase: CombatPhase,
    pub round: u32,
}

} // verus!
