//! One run of the game: spawning, physics, collisions, score and lives.
use vstd::prelude::*;

use crate::digits::{padded, padded_digits};
use crate::geometry::{Size, Vec2};
use crate::objects::backdrop::{Backdrop, BACKDROP_PERIOD};
use crate::objects::gate::{gate_touches, next_fade, orb_touches, scrolled, Gate, Orb};
use crate::objects::star::{filled, stepped, Star, TRAIL_LENGTH};
use crate::objects::{add_saturating, orb_at, sat_add, spawn_step, spawned_gate, Spawner};
use crate::laws::{
    lemma_gate_outcome_terminal, lemma_gate_pass_tally, lemma_orb_fade_monotone, lemma_orb_pass_tally,
    lemma_missed_grows, lemma_missed_push, missed_total, newly_hit, newly_missed, newly_picked,
};
use crate::random::seeded;
use crate::{SCREEN_HEIGHT, SCREEN_WIDTH};
use rand_pcg::Mcg128Xsl64;

verus! {

/// Scroll speed at the start of a run (2 px per tick).
pub const START_SPEED: i64 = 2000;

/// Speed added by each Gate passed through.
pub const SPEED_STEP: i64 = 50;

/// Lives at the start of a run.
pub const START_LIVES: i64 = 5;

/// Points for passing through a Gate.
pub const GATE_POINTS: i64 = 50;

/// Points for picking up an Orb.
pub const ORB_POINTS: i64 = 10;

/// Number of digits the score is shown with.
pub const SCORE_WIDTH: usize = 8;

/// A sound trigger for the audio collaborator.
#[derive(Clone, Copy, Debug, PartialEq, Eq, Structural)]
pub enum Cue {
    GateHit,
    GateMiss,
    OrbPickup,
}

/// A Gate after one tick: scrolled by `speed`, then, while still live, hit if
/// it overlaps the Star, else missed once it has passed the Star's column.
pub open spec fn resolve_gate(g: Gate, speed: int, star: Vec2, star_size: Size, gate_size: Size) -> Gate {
    let moved = Gate { position: Vec2 { x: scrolled(g.position.x as int, speed) as i64, ..g.position }, ..g };
    if !g.hit && !g.missed {
        if gate_touches(moved, gate_size, star, star_size) {
            Gate { hit: true, ..moved }
        } else if moved.position.x < star.x {
            Gate { missed: true, ..moved }
        } else {
            moved
        }
    } else {
        moved
    }
}

/// What a pass over a run's Gates leaves behind.
pub struct GatePass {
    pub gates: Seq<Gate>,
    pub speed: int,
    pub points: int,
    pub lives: int,
    pub cues: Seq<Cue>,
}

/// The pass over `gs` in order, starting from `speed` and `lives`: each hit
/// adds `GATE_POINTS` and raises the speed (seen by every later Gate) by
/// `SPEED_STEP`; each miss costs one life, down to zero.
pub open spec fn gate_pass(gs: Seq<Gate>, speed: int, lives: int, star: Vec2, star_size: Size, gate_size: Size) -> GatePass
    decreases gs.len(),
{
    if gs.len() == 0 {
        GatePass { gates: seq![], speed, points: 0, lives, cues: seq![] }
    } else {
        let p = gate_pass(gs.drop_last(), speed, lives, star, star_size, gate_size);
        let g = gs.last();
        let ng = resolve_gate(g, p.speed, star, star_size, gate_size);
        let newly_hit = ng.hit && !g.hit;
        let newly_missed = ng.missed && !g.missed;
        GatePass {
            gates: p.gates.push(ng),
            speed: if newly_hit { sat_add(p.speed, SPEED_STEP as int) } else { p.speed },
            points: p.points + if newly_hit { GATE_POINTS as int } else { 0 },
            lives: if newly_missed && p.lives > 0 { p.lives - 1 } else { p.lives },
            cues: if newly_hit {
                p.cues.push(Cue::GateHit)
            } else if newly_missed {
                p.cues.push(Cue::GateMiss)
            } else {
                p.cues
            },
        }
    }
}

/// An Orb after one tick: faded and scrolled by `speed`, then picked up if it
/// was not already and lies within range of the Star.
pub open spec fn resolve_orb(o: Orb, speed: int, star: Vec2) -> Orb {
    let moved = Orb {
        position: Vec2 { x: scrolled(o.position.x as int, speed) as i64, ..o.position },
        fade: next_fade(o.hit, o.fade as int) as i64,
        ..o
    };
    if !moved.hit && orb_touches(moved, star) {
        Orb { hit: true, ..moved }
    } else {
        moved
    }
}

/// What a pass over the Orbs leaves behind.
pub struct OrbPass {
    pub orbs: Seq<Orb>,
    pub points: int,
    pub cues: Seq<Cue>,
}

/// The pass over `os` in order at `speed`: each pickup adds `ORB_POINTS`.
pub open spec fn orb_pass(os: Seq<Orb>, speed: int, star: Vec2) -> OrbPass
    decreases os.len(),
{
    if os.len() == 0 {
        OrbPass { orbs: seq![], points: 0, cues: seq![] }
    } else {
        let p = orb_pass(os.drop_last(), speed, star);
        let o = os.last();
        let no = resolve_orb(o, speed, star);
        let picked = no.hit && !o.hit;
        OrbPass {
            orbs: p.orbs.push(no),
            points: p.points + if picked { ORB_POINTS as int } else { 0 },
            cues: if picked { p.cues.push(Cue::OrbPickup) } else { p.cues },
        }
    }
}

/// Gates at the start of a tick's pass: those of the run, then the one
/// that the spawner emitted, if any.
pub open spec fn with_gate(gs: Seq<Gate>, g: Option<Gate>) -> Seq<Gate> {
    match g {
        Some(x) => gs.push(x),
        None => gs,
    }
}

/// The Orbs at the start of a tick's pass.
pub open spec fn with_orb(os: Seq<Orb>, o: Option<Orb>) -> Seq<Orb> {
    match o {
        Some(x) => os.push(x),
        None => os,
    }
}

/// The state of one run; it owns every entity and the generator.
pub struct GameState {
    pub rng: Mcg128Xsl64,
    pub backdrop: Backdrop,
    pub star: Star,
    pub gates: Vec<Gate>,
    pub orbs: Vec<Orb>,
    pub speed: i64,
    pub spawner: Spawner,
    pub score: i64,
    pub lives: i64,
    pub star_size: Size,
    pub gate_size: Size,
}

fn run_gates(
    gates: &mut Vec<Gate>,
    speed: &mut i64,
    lives: &mut i64,
    star: &Star,
    star_size: Size,
    gate_size: Size,
    cues: &mut Vec<Cue>,
) -> (points: i128)
    requires
        *old(speed) >= 0,
        *old(lives) >= 0,
        old(cues)@.len() == 0,
        star_size.wf(),
        gate_size.wf(),
    ensures
        ({
            let p = gate_pass(old(gates)@, *old(speed) as int, *old(lives) as int, star.position, star_size, gate_size);
            &&& final(gates)@ == p.gates
            &&& *final(speed) == p.speed
            &&& *final(lives) == p.lives
            &&& points == p.points
            &&& final(cues)@ == p.cues
        }),
        0 <= points <= GATE_POINTS * old(gates)@.len(),
        points < 0x1000_0000_0000_0000_0000,
        final(gates)@.len() == old(gates)@.len(),
        *final(speed) >= *old(speed),
        0 <= *final(lives) <= *old(lives),
{
    let ghost g0 = gates@;
    let ghost s0 = *speed as int;
    let ghost l0 = *lives as int;
    let mut points: i128 = 0;
    let mut i: usize = 0;
    while i < gates.len()
        invariant
            gates@.len() == g0.len(),
            0 <= i <= g0.len(),
            forall|k: int| i <= k < g0.len() ==> gates@[k] == g0[k],
            ({
                let p = gate_pass(g0.take(i as int), s0, l0, star.position, star_size, gate_size);
                &&& gates@.take(i as int) == p.gates
                &&& *speed == p.speed
                &&& *lives == p.lives
                &&& points == p.points
                &&& cues@ == p.cues
            }),
            0 <= points <= GATE_POINTS * i,
            s0 >= 0,
            *speed >= s0,
            0 <= *lives <= l0,
            star_size.wf(),
            gate_size.wf(),
        decreases g0.len() - i,
    {
        assert(g0.take(i + 1).drop_last() =~= g0.take(i as int));
        assert(g0.take(i + 1).last() == g0[i as int]);
        let mut g: Gate = gates[i];
        let before: Gate = g;
        g.update(*speed);
        if !g.hit && !g.missed {
            if g.collide(gate_size, star, star_size) {
                cues.push(Cue::GateHit);
                *speed = add_saturating(*speed, SPEED_STEP);
                g.hit = true;
                points = points + GATE_POINTS as i128;
            } else if g.position.x < star.position.x {
                cues.push(Cue::GateMiss);
                g.missed = true;
                if *lives > 0 {
                    *lives = *lives - 1;
                }
            }
        }
        let ghost prev = gates@;
        gates.set(i, g);
        assert(gates@.take(i + 1) =~= prev.take(i as int).push(g));
        i = i + 1;
    }
    assert(g0.take(g0.len() as int) =~= g0);
    assert(i <= usize::MAX);
    assert(gates@.take(g0.len() as int) =~= gates@);
    points
}

fn run_orbs(orbs: &mut Vec<Orb>, speed: i64, star: &Star, cues: &mut Vec<Cue>) -> (points: i128)
    requires
        speed >= 0,
        forall|k: int| 0 <= k < old(orbs)@.len() ==> (#[trigger] old(orbs)@[k]).wf(),
    ensures
        ({
            let p = orb_pass(old(orbs)@, speed as int, star.position);
            &&& final(orbs)@ == p.orbs
            &&& points == p.points
            &&& final(cues)@ == old(cues)@ + p.cues
        }),
        forall|k: int| 0 <= k < final(orbs)@.len() ==> (#[trigger] final(orbs)@[k]).wf(),
        0 <= points <= ORB_POINTS * old(orbs)@.len(),
        points < 0x1000_0000_0000_0000_0000,
        final(orbs)@.len() == old(orbs)@.len(),
{
    let ghost o0 = orbs@;
    let ghost c0 = cues@;
    let mut points: i128 = 0;
    let mut i: usize = 0;
    while i < orbs.len()
        invariant
            orbs@.len() == o0.len(),
            0 <= i <= o0.len(),
            speed >= 0,
            forall|k: int| i <= k < o0.len() ==> orbs@[k] == o0[k],
            forall|k: int| 0 <= k < o0.len() ==> (#[trigger] orbs@[k]).wf(),
            ({
                let p = orb_pass(o0.take(i as int), speed as int, star.position);
                &&& orbs@.take(i as int) == p.orbs
                &&& points == p.points
                &&& cues@ == c0 + p.cues
            }),
            0 <= points <= ORB_POINTS * i,
        decreases o0.len() - i,
    {
        assert(o0.take(i + 1).drop_last() =~= o0.take(i as int));
        assert(o0.take(i + 1).last() == o0[i as int]);
        let mut o: Orb = orbs[i];
        o.update(speed);
        if o.collide(star) {
            cues.push(Cue::OrbPickup);
            o.hit = true;
            points = points + ORB_POINTS as i128;
        }
        let ghost prev = orbs@;
        orbs.set(i, o);
        assert(orbs@.take(i + 1) =~= prev.take(i as int).push(o));
        i = i + 1;
    }
    assert(o0.take(o0.len() as int) =~= o0);
    assert(i <= usize::MAX);
    assert(orbs@.take(o0.len() as int) =~= orbs@);
    points
}

impl GameState {
    /// The invariant of a run.
    pub open spec fn wf(&self) -> bool {
        &&& self.backdrop.wf()
        &&& self.star.wf()
        &&& self.spawner.wf()
        &&& self.star_size.wf()
        &&& self.gate_size.wf()
        &&& 0 <= self.speed
        &&& 0 <= self.score
        &&& 0 <= self.lives <= START_LIVES
        &&& self.lives == 0 ==> self.speed == 0
        &&& self.lives == (if START_LIVES - missed_total(self.gates@) >= 0 {
            START_LIVES - missed_total(self.gates@)
        } else {
            0
        })
        &&& forall|k: int| 0 <= k < self.orbs@.len() ==> (#[trigger] self.orbs@[k]).wf()
        &&& forall|k: int|
            0 <= k < self.gates@.len() ==> !(#[trigger] self.gates@[k].hit && self.gates@[k].missed)
    }

    /// A fresh run: five lives, no score, start speed, the Star at rest at a
    /// quarter of the width and half the height, and the generator seeded
    /// with `seed`. `star_size` and `gate_size` are the sprites' footprints.
    pub fn new(seed: u64, star_size: Size, gate_size: Size) -> (r: GameState)
        requires
            star_size.wf(),
            gate_size.wf(),
        ensures
            r.wf(),
            r.lives == START_LIVES,
            r.score == 0,
            r.speed == START_SPEED,
            r.gates@.len() == 0,
            r.orbs@.len() == 0,
            r.star.position.x == SCREEN_WIDTH / 4,
            r.star.position.y == SCREEN_HEIGHT / 2,
            r.star.velocity == (Vec2 { x: 0, y: 0 }),
            r.star.rotation == 0,
            r.star.trail@ == filled(r.star.position.y, TRAIL_LENGTH as nat),
            r.spawner == Spawner::new_spec(),
            r.star_size == star_size,
            r.gate_size == gate_size,
    {
        GameState {
            rng: seeded(seed),
            backdrop: Backdrop::new(),
            star: Star::new(Vec2::new(SCREEN_WIDTH / 4, SCREEN_HEIGHT / 2)),
            gates: Vec::new(),
            orbs: Vec::new(),
            speed: START_SPEED,
            spawner: Spawner::new(),
            score: 0,
            lives: START_LIVES,
            star_size,
            gate_size,
        }
    }

    /// The score as eight or more zero-padded ASCII digits, for display.
    pub fn score_digits(&self) -> (r: Vec<u8>)
        requires
            self.wf(),
        ensures
            r@ == padded(self.score as nat, SCORE_WIDTH as nat),
    {
        padded_digits(self.score as u64, SCORE_WIDTH)
    }

    /// One tick of the run with steering `axis` and the `up` / `down`
    /// overrides; returns the sound cues of the tick in order. A run without
    /// lives is frozen.
    pub fn update(&mut self, axis: i64, up: bool, down: bool) -> (cues: Vec<Cue>)
        requires
            old(self).wf(),
        ensures
            final(self).wf(),
            old(self).lives == 0 ==> {
                &&& final(self).gates@ == old(self).gates@
                &&& final(self).orbs@ == old(self).orbs@
                &&& final(self).star == old(self).star
                &&& final(self).spawner == old(self).spawner
                &&& final(self).rng == old(self).rng
                &&& final(self).backdrop == old(self).backdrop
                &&& final(self).score == old(self).score
                &&& final(self).lives == 0
                &&& final(self).speed == 0
                &&& cues@.len() == 0
            },
            old(self).lives > 0 ==> ({
                let clock = old(self).speed as int;
                let sg = spawned_gate(old(self).spawner, clock, final(self).spawner);
                let grew = final(self).orbs@.len() == old(self).orbs@.len() + 1;
                let so = if grew { Some(orb_at(final(self).spawner.last_y->0)) } else { None };
                let gp = gate_pass(with_gate(old(self).gates@, sg), clock, old(self).lives as int,
                    final(self).star.position, old(self).star_size, old(self).gate_size);
                let op = orb_pass(with_orb(old(self).orbs@, so), gp.speed, final(self).star.position);
                let points = gp.points + op.points;
                let h = newly_hit(with_gate(old(self).gates@, sg), final(self).gates@, final(self).gates@.len() as int);
                let m = newly_missed(with_gate(old(self).gates@, sg), final(self).gates@, final(self).gates@.len() as int);
                let k = newly_picked(with_orb(old(self).orbs@, so), final(self).orbs@, final(self).orbs@.len() as int);
                &&& points == GATE_POINTS * h + ORB_POINTS * k
                &&& final(self).lives == (if old(self).lives - m >= 0 { old(self).lives - m } else { 0 })
                &&& (final(self).lives > 0 && old(self).speed + SPEED_STEP * final(self).gates@.len() <= i64::MAX)
                    ==> final(self).speed == old(self).speed + SPEED_STEP * h
                &&& spawn_step(old(self).spawner, clock, final(self).spawner, sg, so)
                &&& final(self).orbs@.len() == old(self).orbs@.len() || grew
                &&& final(self).backdrop.position.x == -((-old(self).backdrop.position.x + clock / 2)
                    % (BACKDROP_PERIOD as int))
                &&& stepped(old(self).star, final(self).star, axis as int, up, down)
                &&& final(self).gates@ == gp.gates
                &&& final(self).orbs@ == op.orbs
                &&& final(self).score == (if points > 0 { sat_add(old(self).score as int, points) } else { old(self).score as int })
                &&& final(self).lives == gp.lives
                &&& final(self).speed == (if gp.lives == 0 { 0 } else { gp.speed })
                &&& cues@ == gp.cues + op.cues
            }),
            final(self).score >= old(self).score,
            final(self).lives <= old(self).lives,
            final(self).gates@.len() >= old(self).gates@.len(),
            final(self).orbs@.len() >= old(self).orbs@.len(),
            forall|k: int|
                #![trigger final(self).gates@[k]]
                0 <= k < old(self).gates@.len() && (old(self).gates@[k].hit || old(self).gates@[k].missed)
                    ==> final(self).gates@[k].hit == old(self).gates@[k].hit
                    && final(self).gates@[k].missed == old(self).gates@[k].missed,
            forall|k: int|
                #![trigger final(self).orbs@[k]]
                0 <= k < old(self).orbs@.len() ==> final(self).orbs@[k].fade >= old(self).orbs@[k].fade
                    && (old(self).orbs@[k].hit ==> final(self).orbs@[k].hit),
            final(self).star_size == old(self).star_size,
            final(self).gate_size == old(self).gate_size,
    {
        let mut cues: Vec<Cue> = Vec::new();
        if self.lives <= 0 {
            return cues;
        }
        let ghost old_self = *self;
        let (gate, orb) = self.spawner.check(&mut self.rng, self.speed);
        let ghost g1 = with_gate(self.gates@, gate);
        let ghost o1 = with_orb(self.orbs@, orb);
        match gate {
            Some(g) => self.gates.push(g),
            None => {},
        }
        match orb {
            Some(o) => self.orbs.push(o),
            None => {},
        }
        assert(self.gates@ =~= g1 && self.orbs@ =~= o1);
        self.backdrop.update(self.speed);
        self.star.update(axis, up, down);
        let gate_points = run_gates(
            &mut self.gates,
            &mut self.speed,
            &mut self.lives,
            &self.star,
            self.star_size,
            self.gate_size,
            &mut cues,
        );
        proof {
            lemma_gate_outcome_terminal(g1, old_self.speed as int, old_self.lives as int,
                self.star.position, self.star_size, self.gate_size);
            assert forall|k: int| 0 <= k < g1.len() implies !(g1[k].hit && g1[k].missed) by {
                if k < old_self.gates@.len() {
                    assert(g1[k] == old_self.gates@[k]);
                }
            }
        }
        let orb_points = run_orbs(&mut self.orbs, self.speed, &self.star, &mut cues);
        proof {
            assert(orb is Some <==> self.orbs@.len() == old_self.orbs@.len() + 1);
            lemma_gate_pass_tally(g1, old_self.speed as int, old_self.lives as int,
                self.star.position, self.star_size, self.gate_size);
            lemma_orb_pass_tally(o1, self.speed as int, self.star.position);
            match gate {
                Some(g) => lemma_missed_push(old_self.gates@, g),
                None => {},
            }
            assert(missed_total(g1) == missed_total(old_self.gates@));
            lemma_missed_grows(g1, self.gates@, g1.len() as int);
            lemma_orb_fade_monotone(o1, self.speed as int, self.star.position);
            assert forall|k: int| 0 <= k < old_self.orbs@.len() implies o1[k] == old_self.orbs@[k] by {}
            assert forall|k: int| 0 <= k < old_self.gates@.len() implies g1[k] == old_self.gates@[k] by {}
        }
        let points: i128 = gate_points + orb_points;
        if points > 0 {
            let total: i128 = self.score as i128 + points;
            self.score = if total > i64::MAX as i128 {
                i64::MAX
            } else {
                total as i64
            };
        }
        if self.lives <= 0 {
            self.speed = 0;
        }
        assert(self.gates@.len() == g1.len() && self.orbs@.len() == o1.len());
        cues
    }
}

} // verus!
