//! Dungeon time: turns spent, light sources burning down and the rest the
//! party needs (one turn in six).
use vstd::prelude::*;

use crate::text::{append_nat, nat_text};

verus! {

/// A kind of light source.
#[derive(Clone, Copy, Debug, PartialEq, Eq, Structural)]
pub enum LightSourceKind {
    /// Burns for 6 turns.
    Torch,
    /// Burns for 24 turns on a flask of oil.
    Lantern,
}

/// Name of a light source kind.
pub open spec fn light_name(k: LightSourceKind) -> Seq<char> {
    match k {
        LightSourceKind::Torch => "Torch"@,
        LightSourceKind::Lantern => "Lantern"@,
    }
}

/// Turns a light source of a kind burns.
pub open spec fn light_turns(k: LightSourceKind) -> u32 {
    match k {
        LightSourceKind::Torch => 6,
        LightSourceKind::Lantern => 24,
    }
}

impl LightSourceKind {
    pub fn name(&self) -> (r: &'static str)
        ensures
            r@ == light_name(*self),
    {
        match self {
            LightSourceKind::Torch => "Torch",
            LightSourceKind::Lantern => "Lantern",
        }
    }

    pub fn max_turns(&self) -> (r: u32)
        ensures
            r == light_turns(*self),
    {
        match self {
            LightSourceKind::Torch => 6,
            LightSourceKind::Lantern => 24,
        }
    }
}

/// A burning light source and who carries it.
#[derive(Clone, Debug)]
pub struct LightSource {
    pub kind: LightSourceKind,
    pub carrier: String,
    pub turns_remaining: u32,
}

/// Turns of activity after which the party must rest.
pub const TURNS_BEFORE_REST: u32 = 5;

/// Time spent in the dungeon.
#[derive(Clone, Debug)]
pub struct TimeTracker {
    pub total_turns: u32,
    /// Turns since the party last rested.
    pub turns_since_rest: u32,
    /// Light sources still burning (each with turns left).
    pub lights: Vec<LightSource>,
}

/// The attack and damage penalty of an overdue rest, when a clock runs.
pub open spec fn rest_penalty_of(t: Option<TimeTracker>) -> i32 {
    match t {
        Some(c) => if c.turns_since_rest >= TURNS_BEFORE_REST {
            -1i32
        } else {
            0i32
        },
        None => 0i32,
    }
}

/// The lights after one turn: each has a turn less, those burnt out gone.
pub open spec fn lights_after_turn(ls: Seq<LightSource>) -> Seq<LightSource>
    decreases ls.len(),
{
    if ls.len() == 0 {
        Seq::empty()
    } else {
        let rest = lights_after_turn(ls.drop_last());
        let l = ls.last();
        if l.turns_remaining > 1 {
            rest.push(LightSource { turns_remaining: (l.turns_remaining - 1) as u32, ..l })
        } else {
            rest
        }
    }
}

/// Messages for the lights that burn out during a turn.
pub open spec fn burnt_out_messages(ls: Seq<LightSource>) -> Seq<Seq<char>>
    decreases ls.len(),
{
    if ls.len() == 0 {
        Seq::empty()
    } else {
        let rest = burnt_out_messages(ls.drop_last());
        let l = ls.last();
        if l.turns_remaining > 1 {
            rest
        } else {
            rest.push(burnt_out_text(l))
        }
    }
}

/// Message for a light that burns out.
pub open spec fn burnt_out_text(l: LightSource) -> Seq<char> {
    l.carrier@ + "'s "@ + light_name(l.kind) + " burns out."@
}

/// One light's line in the light summary.
pub open spec fn light_line(l: LightSource) -> Seq<char> {
    light_name(l.kind) + ": "@ + nat_text(l.turns_remaining as nat) + " turns remaining ("@ + l.carrier@
        + ")"@
}

/// The lines of all lights, joined by `; `.
pub open spec fn light_lines(ls: Seq<LightSource>) -> Seq<char>
    decreases ls.len(),
{
    if ls.len() == 0 {
        Seq::empty()
    } else if ls.len() == 1 {
        light_line(ls[0])
    } else {
        light_lines(ls.drop_last()) + "; "@ + light_line(ls.last())
    }
}

/// The status of the time tracker.
pub open spec fn time_status_text(t: TimeTracker) -> Seq<char> {
    "Turn: "@ + nat_text(t.total_turns as nat) + " (turns since rest: "@ + nat_text(
        t.turns_since_rest as nat,
    ) + ")\n"@ + if t.lights@.len() == 0 {
        "Light: none (DARKNESS)"@
    } else {
        "Light: "@ + light_lines(t.lights@)
    }
}

fn append_light_line(s: &mut String, l: &LightSource)
    ensures
        final(s)@ == old(s)@ + light_line(*l),
{
    let ghost s0 = s@;
    s.append(l.kind.name());
    s.append(": ");
    append_nat(s, l.turns_remaining as u64);
    s.append(" turns remaining (");
    s.append(l.carrier.as_str());
    s.append(")");
    proof {
        assert(s@ =~= s0 + light_line(*l));
    }
}

impl TimeTracker {
    /// The start of an expedition: no time spent, no light.
    pub fn new() -> (r: TimeTracker)
        ensures
            r.total_turns == 0,
            r.turns_since_rest == 0,
            r.lights@.len() == 0,
    {
        TimeTracker { total_turns: 0, turns_since_rest: 0, lights: Vec::new() }
    }

    /// Lights a new source carried by `carrier`.
    pub fn light(&mut self, kind: LightSourceKind, carrier: &str)
        ensures
            final(self).total_turns == old(self).total_turns,
            final(self).turns_since_rest == old(self).turns_since_rest,
            final(self).lights@.len() == old(self).lights@.len() + 1,
            final(self).lights@.drop_last() == old(self).lights@,
            final(self).lights@.last().kind == kind,
            final(self).lights@.last().carrier@ == carrier@,
            final(self).lights@.last().turns_remaining == light_turns(kind),
    {
        let ghost before = self.lights@;
        self.lights.push(LightSource { kind, carrier: String::from_str(carrier), turns_remaining: kind.max_turns() });
        proof {
            assert(self.lights@.drop_last() =~= before);
        }
    }

    /// Whether some light is burning.
    pub fn has_light(&self) -> (r: bool)
        ensures
            r == (self.lights@.len() > 0),
    {
        self.lights.len() > 0
    }

    /// Whether the party has gone five turns or more without rest.
    pub fn needs_rest(&self) -> (r: bool)
        ensures
            r == (self.turns_since_rest >= TURNS_BEFORE_REST),
    {
        self.turns_since_rest >= TURNS_BEFORE_REST
    }

    /// The penalty to attack and damage rolls while rest is overdue.
    pub fn rest_penalty(&self) -> (r: i32)
        ensures
            r == (if self.turns_since_rest >= TURNS_BEFORE_REST {
                -1i32
            } else {
                0i32
            }),
    {
        if self.needs_rest() {
            -1
        } else {
            0
        }
    }

    fn burn_lights(&mut self) -> (r: Vec<String>)
        ensures
            final(self).total_turns == old(self).total_turns,
            final(self).turns_since_rest == old(self).turns_since_rest,
            final(self).lights@ == lights_after_turn(old(self).lights@),
            crate::state::effect::texts(r@) == burnt_out_messages(old(self).lights@),
    {
        let ghost ls0 = self.lights@;
        let mut kept: Vec<LightSource> = Vec::new();
        let mut msgs: Vec<String> = Vec::new();
        let mut i: usize = 0;
        while i < self.lights.len()
            invariant
                self.lights@ == ls0,
                i <= ls0.len(),
                kept@ == lights_after_turn(ls0.take(i as int)),
                crate::state::effect::texts(msgs@) == burnt_out_messages(ls0.take(i as int)),
            decreases ls0.len() - i,
        {
            let l = &self.lights[i];
            proof {
                assert(ls0.take(i as int + 1).drop_last() =~= ls0.take(i as int));
            }
            if l.turns_remaining > 1 {
                kept.push(LightSource { kind: l.kind, carrier: l.carrier.clone(), turns_remaining: l.turns_remaining - 1 });
                proof {
                    assert(kept@.last().carrier@ == l.carrier@);
                }
            } else {
                let ghost m0 = crate::state::effect::texts(msgs@);
                let mut m = l.carrier.clone();
                m.append("'s ");
                m.append(l.kind.name());
                m.append(" burns out.");
                msgs.push(m);
                proof {
                    assert(crate::state::effect::texts(msgs@) =~= m0.push(burnt_out_text(*l)));
                }
            }
            i = i + 1;
        }
        proof {
            assert(ls0.take(ls0.len() as int) =~= ls0);
        }
        self.lights = kept;
        msgs
    }

    /// One turn passes: the turn counters rise and the lights burn down.
    /// Returns a message for each light that burns out.
    pub fn advance_turn(&mut self) -> (r: Vec<String>)
        requires
            old(self).total_turns < u32::MAX,
            old(self).turns_since_rest < u32::MAX,
        ensures
            final(self).total_turns == old(self).total_turns + 1,
            final(self).turns_since_rest == old(self).turns_since_rest + 1,
            final(self).lights@ == lights_after_turn(old(self).lights@),
            crate::state::effect::texts(r@) == burnt_out_messages(old(self).lights@),
    {
        let msgs = self.burn_lights();
        self.total_turns = self.total_turns + 1;
        self.turns_since_rest = self.turns_since_rest + 1;
        msgs
    }

    /// The party rests for a turn: a turn passes and the activity counter
    /// starts again.
    pub fn rest(&mut self) -> (r: Vec<String>)
        requires
            old(self).total_turns < u32::MAX,
        ensures
            final(self).total_turns == old(self).total_turns + 1,
            final(self).turns_since_rest == 0,
            final(self).lights@ == lights_after_turn(old(self).lights@),
            crate::state::effect::texts(r@) == burnt_out_messages(old(self).lights@),
    {
        let msgs = self.burn_lights();
        self.total_turns = self.total_turns + 1;
        self.turns_since_rest = 0;
        msgs
    }

    /// The lights still burning, one line each, when there is any.
    pub fn light_summary(&self) -> (r: Option<String>)
        ensures
            match r {
                Some(s) => self.lights@.len() > 0 && s@ == light_lines(self.lights@),
                None => self.lights@.len() == 0,
            },
    {
        if self.lights.len() == 0 {
            return None;
        }
        let mut s = String::new();
        let mut i: usize = 0;
        while i < self.lights.len()
            invariant
                i <= self.lights@.len(),
                s@ == light_lines(self.lights@.take(i as int)),
            decreases self.lights@.len() - i,
        {
            proof {
                assert(self.lights@.take(i as int + 1).drop_last() =~= self.lights@.take(i as int));
            }
            if i > 0 {
                s.append("; ");
            }
            append_light_line(&mut s, &self.lights[i]);
            proof {
                if i == 0 {
                    assert(s@ =~= light_lines(self.lights@.take(1)));
                }
            }
            i = i + 1;
        }
        proof {
            assert(self.lights@.take(self.lights@.len() as int) =~= self.lights@);
        }
        Some(s)
    }

    /// Status of the time spent and the light.
    pub fn status(&self) -> (r: String)
        ensures
            r@ == time_status_text(*self),
    {
        let mut s = String::from_str("Turn: ");
        append_nat(&mut s, self.total_turns as u64);
        s.append(" (turns since rest: ");
        append_nat(&mut s, self.turns_since_rest as u64);
        s.append(")\n");
        match self.light_summary() {
            Some(l) => {
                s.append("Light: ");
                s.append(l.as_str());
            },
            None => {
                s.append("Light: none (DARKNESS)");
            },
        }
        s
    }
}

} // verus!
