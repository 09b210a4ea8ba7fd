//! Properties of a run that relate several ticks or several entities.
use vstd::prelude::*;

use crate::game::{GameState, START_LIVES, gate_pass, orb_pass, resolve_gate, resolve_orb, GATE_POINTS, ORB_POINTS, SPEED_STEP};
use crate::geometry::{Size, Vec2};
use crate::objects::gate::{Gate, Orb};
use crate::objects::{spawn_step, Spawner};

verus! {

/// A Gate's outcome is terminal: a pass leaves a Gate that was already hit or
/// missed exactly so, and never marks a Gate both hit and missed.
pub proof fn lemma_gate_outcome_terminal(
    gs: Seq<Gate>,
    speed: int,
    lives: int,
    star: Vec2,
    star_size: Size,
    gate_size: Size,
)
    ensures
        ({
            let p = gate_pass(gs, speed, lives, star, star_size, gate_size);
            &&& p.gates.len() == gs.len()
            &&& forall|k: int|
                #![trigger p.gates[k]]
                0 <= k < gs.len() ==> {
                    &&& (gs[k].hit || gs[k].missed) ==> p.gates[k].hit == gs[k].hit
                        && p.gates[k].missed == gs[k].missed
                    &&& !(gs[k].hit && gs[k].missed) ==> !(p.gates[k].hit && p.gates[k].missed)
                    &&& p.gates[k].position.y == gs[k].position.y
                }
        }),
    decreases gs.len(),
{
    if gs.len() > 0 {
        lemma_gate_outcome_terminal(gs.drop_last(), speed, lives, star, star_size, gate_size);
        let p = gate_pass(gs.drop_last(), speed, lives, star, star_size, gate_size);
        let ng = resolve_gate(gs.last(), p.speed, star, star_size, gate_size);
        let q = gate_pass(gs, speed, lives, star, star_size, gate_size);
        assert(q.gates == p.gates.push(ng));
        assert(q.gates[gs.len() - 1] == ng);
        assert(gs[gs.len() - 1] == gs.last());
        assert forall|k: int| #![trigger q.gates[k]] 0 <= k < gs.len() implies {
            &&& (gs[k].hit || gs[k].missed) ==> q.gates[k].hit == gs[k].hit && q.gates[k].missed
                == gs[k].missed
            &&& !(gs[k].hit && gs[k].missed) ==> !(q.gates[k].hit && q.gates[k].missed)
            &&& q.gates[k].position.y == gs[k].position.y
        } by {
            if k < gs.len() - 1 {
                assert(q.gates[k] == p.gates[k]);
                assert(gs[k] == gs.drop_last()[k]);
            }
        }
    }
}

/// The fade of each Orb never decreases over a pass, stays in `[0, FADE_FULL]`
/// and stays zero while the Orb is not hit; a hit Orb stays hit.
pub proof fn lemma_orb_fade_monotone(os: Seq<Orb>, speed: int, star: Vec2)
    requires
        forall|k: int| 0 <= k < os.len() ==> (#[trigger] os[k]).wf(),
    ensures
        ({
            let p = orb_pass(os, speed, star);
            &&& p.orbs.len() == os.len()
            &&& forall|k: int|
                0 <= k < os.len() ==> {
                    &&& (#[trigger] p.orbs[k]).wf()
                    &&& p.orbs[k].fade >= os[k].fade
                    &&& os[k].hit ==> p.orbs[k].hit
                }
        }),
    decreases os.len(),
{
    if os.len() > 0 {
        assert forall|k: int| 0 <= k < os.drop_last().len() implies (#[trigger] os.drop_last()[k]).wf() by {
            assert(os.drop_last()[k] == os[k]);
        }
        lemma_orb_fade_monotone(os.drop_last(), speed, star);
        let p = orb_pass(os.drop_last(), speed, star);
        let no = resolve_orb(os.last(), speed, star);
        let q = orb_pass(os, speed, star);
        assert(q.orbs == p.orbs.push(no));
        assert(os.last().wf());
        assert forall|k: int| 0 <= k < os.len() - 1 implies q.orbs[k] == p.orbs[k] && os[k]
            == os.drop_last()[k] by {}
    }
}

/// The spawner is deterministic: from the same state and clock, two calls that
/// drew the same spawn height and the same Orb roll end in the same state and
/// emit the same Gate and Orb. The generator's draws are fixed by its seed, so
/// a fixed seed and clock sequence fix every emission.
pub proof fn lemma_spawn_determined(
    old: Spawner,
    clock: int,
    new1: Spawner,
    gate1: Option<Gate>,
    orb1: Option<Orb>,
    new2: Spawner,
    gate2: Option<Gate>,
    orb2: Option<Orb>,
)
    requires
        spawn_step(old, clock, new1, gate1, orb1),
        spawn_step(old, clock, new2, gate2, orb2),
        new1.last_y == new2.last_y,
        orb1 is Some == orb2 is Some,
    ensures
        new1 == new2,
        gate1 == gate2,
        orb1 == orb2,
{
}

/// How many of the first `n` Gates went from not hit in `before` to hit in `after`.
pub open spec fn newly_hit(before: Seq<Gate>, after: Seq<Gate>, n: int) -> int
    decreases n,
{
    if n <= 0 {
        0
    } else {
        newly_hit(before, after, n - 1) + if after[n - 1].hit && !before[n - 1].hit { 1int } else { 0 }
    }
}

/// How many of the first `n` Gates went from not missed in `before` to missed in `after`.
pub open spec fn newly_missed(before: Seq<Gate>, after: Seq<Gate>, n: int) -> int
    decreases n,
{
    if n <= 0 {
        0
    } else {
        newly_missed(before, after, n - 1) + if after[n - 1].missed && !before[n - 1].missed {
            1int
        } else {
            0
        }
    }
}

proof fn lemma_counts_prefix(a: Seq<Gate>, b: Seq<Gate>, a2: Seq<Gate>, b2: Seq<Gate>, n: int)
    requires
        0 <= n <= a.len(),
        n <= b.len(),
        n <= a2.len(),
        n <= b2.len(),
        forall|k: int| 0 <= k < n ==> a[k] == a2[k] && b[k] == b2[k],
    ensures
        newly_hit(a, b, n) == newly_hit(a2, b2, n),
        newly_missed(a, b, n) == newly_missed(a2, b2, n),
    decreases n,
{
    if n > 0 {
        lemma_counts_prefix(a, b, a2, b2, n - 1);
    }
}

/// Over one pass, each Gate hit adds exactly `GATE_POINTS` points and each
/// miss costs exactly one life until none are left; while the speed stays
/// below the largest `i64`, each hit raises it by exactly `SPEED_STEP`.
/// Nothing else changes points, speed or lives.
pub proof fn lemma_gate_pass_tally(
    gs: Seq<Gate>,
    speed: int,
    lives: int,
    star: Vec2,
    star_size: Size,
    gate_size: Size,
)
    requires
        0 <= speed,
        0 <= lives,
    ensures
        ({
            let p = gate_pass(gs, speed, lives, star, star_size, gate_size);
            let h = newly_hit(gs, p.gates, gs.len() as int);
            let m = newly_missed(gs, p.gates, gs.len() as int);
            &&& p.points == GATE_POINTS * h
            &&& speed + SPEED_STEP * gs.len() <= i64::MAX ==> p.speed == speed + SPEED_STEP * h
            &&& p.lives == (if lives - m >= 0 { lives - m } else { 0 })
            &&& 0 <= h <= gs.len()
            &&& 0 <= m
        }),
    decreases gs.len(),
{
    if gs.len() > 0 {
        let n = gs.len() - 1;
        lemma_gate_pass_tally(gs.drop_last(), speed, lives, star, star_size, gate_size);
        lemma_gate_outcome_terminal(gs.drop_last(), speed, lives, star, star_size, gate_size);
        let p = gate_pass(gs.drop_last(), speed, lives, star, star_size, gate_size);
        let ng = resolve_gate(gs.last(), p.speed, star, star_size, gate_size);
        let q = gate_pass(gs, speed, lives, star, star_size, gate_size);
        assert(q.gates == p.gates.push(ng));
        assert forall|k: int| 0 <= k < n implies gs.drop_last()[k] == gs[k] && p.gates[k]
            == q.gates[k] by {}
        lemma_counts_prefix(gs.drop_last(), p.gates, gs, q.gates, n);
        assert(gs[n] == gs.last());
        assert(q.gates[n] == ng);
    }
}

/// How many of the first `n` Gates are missed.
pub open spec fn missed_count(gs: Seq<Gate>, n: int) -> int
    decreases n,
{
    if n <= 0 {
        0
    } else {
        missed_count(gs, n - 1) + if gs[n - 1].missed { 1int } else { 0 }
    }
}

/// The number of missed Gates in `gs`.
pub open spec fn missed_total(gs: Seq<Gate>) -> int {
    missed_count(gs, gs.len() as int)
}

proof fn lemma_missed_prefix(gs: Seq<Gate>, g: Gate, n: int)
    requires
        0 <= n <= gs.len(),
    ensures
        missed_count(gs.push(g), n) == missed_count(gs, n),
    decreases n,
{
    if n > 0 {
        lemma_missed_prefix(gs, g, n - 1);
        assert(gs.push(g)[n - 1] == gs[n - 1]);
    }
}

/// Appending a Gate that is not missed leaves the missed count as it was.
pub proof fn lemma_missed_push(gs: Seq<Gate>, g: Gate)
    requires
        !g.missed,
    ensures
        missed_total(gs.push(g)) == missed_total(gs),
{
    lemma_missed_prefix(gs, g, gs.len() as int);
    assert(gs.push(g)[gs.len() as int] == g);
}

/// Where no miss is undone, the missed count grows by exactly the new misses.
pub proof fn lemma_missed_grows(before: Seq<Gate>, after: Seq<Gate>, n: int)
    requires
        0 <= n <= before.len(),
        before.len() == after.len(),
        forall|k: int| 0 <= k < n && before[k].missed ==> #[trigger] after[k].missed,
    ensures
        missed_count(after, n) == missed_count(before, n) + newly_missed(before, after, n),
    decreases n,
{
    if n > 0 {
        lemma_missed_grows(before, after, n - 1);
    }
}

/// A run in which `START_LIVES` Gates have been missed has no lives left and
/// no speed; `GameState::update` then leaves it exactly as it is.
pub proof fn lemma_out_of_lives(s: GameState)
    requires
        s.wf(),
        missed_total(s.gates@) >= START_LIVES,
    ensures
        s.lives == 0,
        s.speed == 0,
{
}

/// How many of the first `n` Orbs went from not hit in `before` to hit in `after`.
pub open spec fn newly_picked(before: Seq<Orb>, after: Seq<Orb>, n: int) -> int
    decreases n,
{
    if n <= 0 {
        0
    } else {
        newly_picked(before, after, n - 1) + if after[n - 1].hit && !before[n - 1].hit { 1int } else { 0 }
    }
}

proof fn lemma_picked_prefix(a: Seq<Orb>, b: Seq<Orb>, a2: Seq<Orb>, b2: Seq<Orb>, n: int)
    requires
        0 <= n <= a.len(),
        n <= b.len(),
        n <= a2.len(),
        n <= b2.len(),
        forall|k: int| 0 <= k < n ==> a[k] == a2[k] && b[k] == b2[k],
    ensures
        newly_picked(a, b, n) == newly_picked(a2, b2, n),
    decreases n,
{
    if n > 0 {
        lemma_picked_prefix(a, b, a2, b2, n - 1);
    }
}

/// Over one pass, each Orb pickup adds exactly `ORB_POINTS` points and nothing
/// else adds any.
pub proof fn lemma_orb_pass_tally(os: Seq<Orb>, speed: int, star: Vec2)
    ensures
        ({
            let p = orb_pass(os, speed, star);
            &&& p.orbs.len() == os.len()
            &&& p.points == ORB_POINTS * newly_picked(os, p.orbs, os.len() as int)
            &&& 0 <= newly_picked(os, p.orbs, os.len() as int) <= os.len()
        }),
    decreases os.len(),
{
    if os.len() > 0 {
        let n = os.len() - 1;
        lemma_orb_pass_tally(os.drop_last(), speed, star);
        let p = orb_pass(os.drop_last(), speed, star);
        let no = resolve_orb(os.last(), speed, star);
        let q = orb_pass(os, speed, star);
        assert(q.orbs == p.orbs.push(no));
        assert forall|k: int| 0 <= k < n implies os.drop_last()[k] == os[k] && p.orbs[k]
            == q.orbs[k] by {}
        lemma_picked_prefix(os.drop_last(), p.orbs, os, q.orbs, n);
        assert(os[n] == os.last());
        assert(q.orbs[n] == no);
    }
}

} // verus!
