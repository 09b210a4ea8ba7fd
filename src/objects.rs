//! The entities of a run and the spawner that creates them.
use vstd::prelude::*;

pub mod backdrop;
pub mod gate;
pub mod star;

pub use backdrop::Backdrop;
pub use gate::{Gate, Orb};
pub use star::Star;

use crate::geometry::Vec2;
use crate::random::{chance, pick_between};
use crate::SCREEN_HEIGHT;
use rand_pcg::Mcg128Xsl64;

verus! {

/// Scroll distance between two Gates (400 px).
pub const GATE_RATE: i64 = 400_000;

/// Scroll distance between two Orb chances, a quarter of a Gate period.
pub const ORB_RATE: i64 = 100_000;

/// Chance that an Orb appears when its timer is ready: `ORB_CHANCE_NUM` in
/// `ORB_CHANCE_DEN`.
pub const ORB_CHANCE_NUM: u32 = 3;

pub const ORB_CHANCE_DEN: u32 = 5;

/// Horizontal position at which new entities appear, right of the canvas.
pub const SPAWN_X: i64 = 700_000;

/// Lowest spawn height.
pub const MIN_Y: i64 = 45_000;

/// Highest spawn height.
pub const MAX_Y: i64 = 315_000;

/// Largest change of spawn height between two spawns.
pub const MAX_Y_CHANGE: i64 = 180_000;

/// `a + b`, stopping at the largest `i64`.
pub open spec fn sat_add(a: int, b: int) -> int {
    if a + b > i64::MAX {
        i64::MAX as int
    } else {
        a + b
    }
}

pub(crate) fn add_saturating(a: i64, b: i64) -> (r: i64)
    requires
        b >= 0,
    ensures
        r == sat_add(a as int, b as int),
{
    if a > i64::MAX - b {
        i64::MAX
    } else {
        a + b
    }
}

/// Lowest height allowed for the spawn after one at `last`.
pub open spec fn lowest_after(last: int) -> int {
    if last - MAX_Y_CHANGE > MIN_Y {
        last - MAX_Y_CHANGE
    } else {
        MIN_Y as int
    }
}

/// Highest height allowed for the spawn after one at `last`.
pub open spec fn highest_after(last: int) -> int {
    if last + MAX_Y_CHANGE < MAX_Y {
        last + MAX_Y_CHANGE
    } else {
        MAX_Y as int
    }
}

/// Where a spawn may be placed: the middle of the canvas for the first one,
/// else within the bounded band around the previous one.
pub open spec fn allowed_height(last: Option<i64>, y: int) -> bool {
    match last {
        None => y == SCREEN_HEIGHT / 2,
        Some(l) => lowest_after(l as int) <= y <= highest_after(l as int),
    }
}

/// Decides when and where Gates and Orbs appear.
pub struct Spawner {
    pub gate_timer: i64,
    pub orb_timer: i64,
    pub last_y: Option<i64>,
}

/// What Gate a call of `check` with `clock` emits, given the spawner's
/// state before and after it.
pub open spec fn spawned_gate(old: Spawner, clock: int, new: Spawner) -> Option<Gate> {
    if sat_add(old.gate_timer as int, clock) >= GATE_RATE {
        Some(Gate { position: Vec2 { x: SPAWN_X, y: new.last_y.unwrap() }, hit: false, missed: false })
    } else {
        None
    }
}

/// A fresh Orb at the spawn column and height `y`.
pub open spec fn orb_at(y: i64) -> Orb {
    Orb { position: Vec2 { x: SPAWN_X, y }, fade: 0, hit: false }
}

/// Neither timer reaches its period after adding `clock`: nothing is spawned
/// and nothing is drawn.
pub open spec fn spawn_idle(old: Spawner, clock: int) -> bool {
    sat_add(old.gate_timer as int, clock) < GATE_RATE && sat_add(old.orb_timer as int, clock) < ORB_RATE
}

/// The Orb slot of a spawn at height `y`: a fresh Orb exactly when its timer
/// was `ready` and the chance `roll` came up.
pub fn orb_after_roll(ready: bool, roll: bool, y: i64) -> (r: Option<Orb>)
    ensures
        r == (if ready && roll { Some(orb_at(y)) } else { None }),
{
    if ready && roll {
        Some(Orb::new(Vec2::new(SPAWN_X, y)))
    } else {
        None
    }
}

/// One call of `check` with `clock` took the spawner from `old` to `new` and
/// produced `gate` and `orb`; the spawn height and the Orb roll are the only
/// freedom left.
pub open spec fn spawn_step(
    old: Spawner,
    clock: int,
    new: Spawner,
    gate: Option<Gate>,
    orb: Option<Orb>,
) -> bool {
    let gt = sat_add(old.gate_timer as int, clock);
    let ot = sat_add(old.orb_timer as int, clock);
    let gate_ready = gt >= GATE_RATE;
    let orb_ready = ot >= ORB_RATE;
    &&& new.gate_timer == (if gate_ready { gt - GATE_RATE } else { gt })
    &&& new.orb_timer == (if orb_ready { ot - ORB_RATE } else { ot })
    &&& gate == spawned_gate(old, clock, new)
    &&& if !gate_ready && !orb_ready {
        &&& new.last_y == old.last_y
        &&& orb is None
    } else {
        &&& new.last_y is Some
        &&& allowed_height(old.last_y, new.last_y.unwrap() as int)
        &&& orb is Some ==> orb_ready && orb == Some(orb_at(new.last_y.unwrap()))
    }
}

impl Spawner {
    /// Timers never go negative, and every spawn height lies in `[MIN_Y, MAX_Y]`.
    pub open spec fn wf(&self) -> bool {
        &&& 0 <= self.gate_timer
        &&& 0 <= self.orb_timer
        &&& self.last_y matches Some(y) ==> MIN_Y <= y <= MAX_Y
    }

    pub open spec fn new_spec() -> Spawner {
        Spawner { gate_timer: GATE_RATE, orb_timer: 0, last_y: None }
    }

    /// A spawner whose first call emits a Gate.
    pub fn new() -> (r: Spawner)
        ensures
            r.wf(),
            r == Spawner::new_spec(),
    {
        Spawner { gate_timer: GATE_RATE, orb_timer: 0, last_y: None }
    }

    /// Advances both timers by `clock` and emits a Gate and/or an Orb for each
    /// timer that reached its period, carrying the excess.
    pub fn check(&mut self, rng: &mut Mcg128Xsl64, clock: i64) -> (r: (Option<Gate>, Option<Orb>))
        requires
            old(self).wf(),
            clock >= 0,
        ensures
            final(self).wf(),
            spawn_step(*old(self), clock as int, *final(self), r.0, r.1),
            spawn_idle(*old(self), clock as int) ==> *final(rng) == *old(rng),
    {
        self.gate_timer = add_saturating(self.gate_timer, clock);
        self.orb_timer = add_saturating(self.orb_timer, clock);
        let gate_ready = self.gate_timer >= GATE_RATE;
        let orb_ready = self.orb_timer >= ORB_RATE;
        if !gate_ready && !orb_ready {
            return (None, None);
        }
        let y: i64 = match self.last_y {
            Some(last_y) => {
                let lo: i64 = if last_y - MAX_Y_CHANGE > MIN_Y {
                    last_y - MAX_Y_CHANGE
                } else {
                    MIN_Y
                };
                let hi: i64 = if last_y + MAX_Y_CHANGE < MAX_Y {
                    last_y + MAX_Y_CHANGE
                } else {
                    MAX_Y
                };
                pick_between(rng, lo, hi)
            },
            None => SCREEN_HEIGHT / 2,
        };
        self.last_y = Some(y);
        let spawn_pos = Vec2::new(SPAWN_X, y);
        let gate = if gate_ready {
            self.gate_timer = self.gate_timer - GATE_RATE;
            Some(Gate::new(spawn_pos))
        } else {
            None
        };
        let roll = if orb_ready {
            self.orb_timer = self.orb_timer - ORB_RATE;
            chance(rng, ORB_CHANCE_NUM, ORB_CHANCE_DEN)
        } else {
            false
        };
        (gate, orb_after_roll(orb_ready, roll, y))
    }
}

/// Every spawn after the first lies within `MAX_Y_CHANGE` of the one before it,
/// and every spawn lies in `[MIN_Y, MAX_Y]`.
pub proof fn lemma_spawn_bounded(old: Spawner, clock: int, new: Spawner, gate: Option<Gate>, orb: Option<Orb>)
    requires
        old.wf(),
        spawn_step(old, clock, new, gate, orb),
        new.last_y is Some,
    ensures
        MIN_Y <= new.last_y.unwrap() <= MAX_Y,
        old.last_y matches Some(l) ==> -MAX_Y_CHANGE <= new.last_y.unwrap() - l <= MAX_Y_CHANGE,
{
}

} // verus!
