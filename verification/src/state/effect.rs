//! Timed effects: counting their duration down and expiring them.
use vstd::prelude::*;

use crate::model::{ActiveEffect, EffectDuration};

verus! {

/// Whether a duration counts down in turns (`per_turn`) or in combat rounds.
pub open spec fn counts_down(d: EffectDuration, per_turn: bool) -> bool {
    if per_turn {
        d is Turns
    } else {
        d is Rounds
    }
}

/// Rounds or turns left of a counted duration.
pub open spec fn remaining_of(d: EffectDuration) -> nat {
    match d {
        EffectDuration::Rounds(n) => n as nat,
        EffectDuration::Turns(n) => n as nat,
        _ => 0,
    }
}

/// A counted duration after one tick.
pub open spec fn ticked_duration(d: EffectDuration) -> EffectDuration {
    match d {
        EffectDuration::Rounds(n) => EffectDuration::Rounds((n - 1) as u32),
        EffectDuration::Turns(n) => EffectDuration::Turns((n - 1) as u32),
        _ => d,
    }
}

/// An effect ends on this tick when it counts down and has at most one
/// round (or turn) left.
pub open spec fn expires_on_tick(d: EffectDuration, per_turn: bool) -> bool {
    counts_down(d, per_turn) && remaining_of(d) <= 1
}

/// An effect after one tick, when it does not expire.
pub open spec fn ticked_effect(e: ActiveEffect, per_turn: bool) -> ActiveEffect {
    if counts_down(e.duration, per_turn) {
        ActiveEffect { duration: ticked_duration(e.duration), ..e }
    } else {
        e
    }
}

/// The effects left after one tick, in their order: expiring ones are
/// dropped, the others counting down lose one round (or turn), the rest are
/// unchanged.
pub open spec fn tick_effects(es: Seq<ActiveEffect>, per_turn: bool) -> Seq<ActiveEffect>
    decreases es.len(),
{
    if es.len() == 0 {
        Seq::empty()
    } else {
        let rest = tick_effects(es.drop_last(), per_turn);
        if expires_on_tick(es.last().duration, per_turn) {
            rest
        } else {
            rest.push(ticked_effect(es.last(), per_turn))
        }
    }
}

/// Message of an effect on `target` that has run out.
pub open spec fn worn_off_text(effect: Seq<char>, target: Seq<char>) -> Seq<char> {
    effect + " has worn off on "@ + target + "."@
}

/// Messages for the effects that expire on this tick, in order.
pub open spec fn expiry_messages(es: Seq<ActiveEffect>, target: Seq<char>, per_turn: bool) -> Seq<
    Seq<char>,
>
    decreases es.len(),
{
    if es.len() == 0 {
        Seq::empty()
    } else {
        let rest = expiry_messages(es.drop_last(), target, per_turn);
        if expires_on_tick(es.last().duration, per_turn) {
            rest.push(worn_off_text(es.last().name@, target))
        } else {
            rest
        }
    }
}

/// The texts of a list of strings.
pub open spec fn texts(v: Seq<String>) -> Seq<Seq<char>> {
    v.map_values(|s: String| s@)
}

fn tick(effects: &mut Vec<ActiveEffect>, target: &str, per_turn: bool) -> (msgs: Vec<String>)
    ensures
        final(effects)@ == tick_effects(old(effects)@, per_turn),
        texts(msgs@) == expiry_messages(old(effects)@, target@, per_turn),
{
    let ghost orig = effects@;
    let mut msgs: Vec<String> = Vec::new();
    let mut i: usize = 0;
    let ghost mut k: int = 0;
    while i < effects.len()
        invariant
            0 <= i <= k <= orig.len(),
            effects@.len() == i + (orig.len() - k),
            effects@.take(i as int) == tick_effects(orig.take(k), per_turn),
            effects@.skip(i as int) == orig.skip(k),
            texts(msgs@) == expiry_messages(orig.take(k), target@, per_turn),
        decreases effects@.len() - i,
    {
        proof {
            assert(orig.take(k + 1).drop_last() =~= orig.take(k));
            assert(effects@.skip(i as int)[0] == orig.skip(k)[0]);
            assert(orig.take(k + 1).last() == orig[k]);
        }
        let d = effects[i].duration;
        let expire = match d {
            EffectDuration::Rounds(n) => !per_turn && n <= 1,
            EffectDuration::Turns(n) => per_turn && n <= 1,
            _ => false,
        };
        let ghost before = effects@;
        if expire {
            let e = effects.remove(i);
            let mut msg = e.name;
            msg.append(" has worn off on ");
            msg.append(target);
            msg.append(".");
            let ghost old_msgs = msgs@;
            msgs.push(msg);
            proof {
                assert(texts(msgs@) =~= texts(old_msgs).push(msg@));
                assert(effects@.take(i as int) =~= before.take(i as int));
                assert(effects@.skip(i as int) =~= before.skip(i as int + 1));
                assert(orig.skip(k + 1) =~= orig.skip(k).skip(1));
                assert(before.skip(i as int + 1) =~= before.skip(i as int).skip(1));
            }
        } else {
            match d {
                EffectDuration::Rounds(n) => {
                    if !per_turn {
                        effects[i].duration = EffectDuration::Rounds(n - 1);
                    }
                },
                EffectDuration::Turns(n) => {
                    if per_turn {
                        effects[i].duration = EffectDuration::Turns(n - 1);
                    }
                },
                _ => {},
            }
            proof {
                assert(effects@[i as int] == ticked_effect(orig[k], per_turn));
                assert(effects@.take(i as int + 1) =~= before.take(i as int).push(effects@[i as int]));
                assert(effects@.skip(i as int + 1) =~= before.skip(i as int + 1));
                assert(orig.skip(k + 1) =~= orig.skip(k).skip(1));
                assert(before.skip(i as int + 1) =~= before.skip(i as int).skip(1));
            }
            i = i + 1;
        }
        proof {
            k = k + 1;
        }
    }
    proof {
        assert(orig.take(k) =~= orig);
        assert(effects@.take(i as int) =~= effects@);
    }
    msgs
}

/// Counts down the round-based effects on `target` by one round; those that
/// run out are removed and reported. Effects measured in turns, permanent
/// and concentration effects are untouched.
pub fn tick_round_effects(effects: &mut Vec<ActiveEffect>, target: &str) -> (msgs: Vec<String>)
    ensures
        final(effects)@ == tick_effects(old(effects)@, false),
        texts(msgs@) == expiry_messages(old(effects)@, target@, false),
{
    tick(effects, target, false)
}

/// Counts down the turn-based effects on `target` by one turn; those that
/// run out are removed and reported.
pub fn tick_turn_effects(effects: &mut Vec<ActiveEffect>, target: &str) -> (msgs: Vec<String>)
    ensures
        final(effects)@ == tick_effects(old(effects)@, true),
        texts(msgs@) == expiry_messages(old(effects)@, target@, true),
{
    tick(effects, target, true)
}

/// The largest effect id in `es`, 0 when there is none.
pub open spec fn max_effect_id(es: Seq<ActiveEffect>) -> u32
    decreases es.len(),
{
    if es.len() == 0 {
        0
    } else {
        let rest = max_effect_id(es.drop_last());
        if es.last().id > rest {
            es.last().id
        } else {
            rest
        }
    }
}

/// An id for a new effect: one more than the largest in use (saturating).
pub fn next_effect_id(effects: &Vec<ActiveEffect>) -> (r: u32)
    ensures
        r == if max_effect_id(effects@) == u32::MAX {
            u32::MAX
        } else {
            (max_effect_id(effects@) + 1) as u32
        },
{
    let mut max: u32 = 0;
    let mut i: usize = 0;
    while i < effects.len()
        invariant
            i <= effects@.len(),
            max == max_effect_id(effects@.take(i as int)),
        decreases effects@.len() - i,
    {
        proof {
            assert(effects@.take(i as int + 1).drop_last() =~= effects@.take(i as int));
        }
        if effects[i].id > max {
            max = effects[i].id;
        }
        i = i + 1;
    }
    proof {
        assert(effects@.take(i as int) =~= effects@);
    }
    max.saturating_add(1)
}

/// Every effect either stays or is reported as worn off, one message each.
pub proof fn lemma_tick_accounts_for_every_effect(es: Seq<ActiveEffect>, target: Seq<char>, per_turn: bool)
    ensures
        tick_effects(es, per_turn).len() + expiry_messages(es, target, per_turn).len() == es.len(),
    decreases es.len(),
{
    if es.len() > 0 {
        lemma_tick_accounts_for_every_effect(es.drop_last(), target, per_turn);
    }
}

/// A tick leaves effects that do not count down on it exactly as they were
/// (turn-based effects in combat rounds, permanent and concentration
/// effects always), and reports nothing.
pub proof fn lemma_tick_keeps_uncounted(es: Seq<ActiveEffect>, target: Seq<char>, per_turn: bool)
    requires
        forall|i: int| 0 <= i < es.len() ==> !counts_down(#[trigger] es[i].duration, per_turn),
    ensures
        tick_effects(es, per_turn) == es,
        expiry_messages(es, target, per_turn).len() == 0,
    decreases es.len(),
{
    if es.len() > 0 {
        lemma_tick_keeps_uncounted(es.drop_last(), target, per_turn);
        assert(!counts_down(es[es.len() - 1].duration, per_turn));
        assert(es.drop_last().push(es.last()) =~= es);
    }
}

/// The effects after `k` ticks.
pub open spec fn ticks(es: Seq<ActiveEffect>, per_turn: bool, k: nat) -> Seq<ActiveEffect>
    decreases k,
{
    if k == 0 {
        es
    } else {
        tick_effects(ticks(es, per_turn, (k - 1) as nat), per_turn)
    }
}

/// An effect lasting `n` rounds (or turns) is still there, with `n - k` left,
/// after `k < n` ticks, and gone after `n` ticks.
pub proof fn lemma_effect_lasts_its_duration(e: ActiveEffect, n: u32, per_turn: bool, k: nat)
    requires
        n >= 1,
        k <= n,
        e.duration == (if per_turn {
            EffectDuration::Turns(n)
        } else {
            EffectDuration::Rounds(n)
        }),
    ensures
        k < n ==> ticks(seq![e], per_turn, k) == seq![
            ActiveEffect {
                duration: if per_turn {
                    EffectDuration::Turns((n - k) as u32)
                } else {
                    EffectDuration::Rounds((n - k) as u32)
                },
                ..e
            },
        ],
        k == n ==> ticks(seq![e], per_turn, k).len() == 0,
    decreases k,
{
    if k > 0 {
        lemma_effect_lasts_its_duration(e, n, per_turn, (k - 1) as nat);
        let prev = ticks(seq![e], per_turn, (k - 1) as nat);
        let one = prev[0];
        assert(prev.drop_last() =~= Seq::<ActiveEffect>::empty());
        assert(tick_effects(Seq::<ActiveEffect>::empty(), per_turn) =~= Seq::<ActiveEffect>::empty());
        if k < n {
            assert(tick_effects(prev, per_turn) =~= seq![ticked_effect(one, per_turn)]);
        } else {
            assert(tick_effects(prev, per_turn) =~= Seq::<ActiveEffect>::empty());
        }
    }
}

} // verus!
