//! Gates, the obstacles to pass through, and Orbs, the bonus pickups.
use vstd::prelude::*;

use crate::geometry::{centered, overlaps, within, dist_sq, Rect, Size, Vec2};
use crate::objects::star::Star;

verus! {

/// Full fade of a picked-up Orb, in thousandths.
pub const FADE_FULL: i64 = 1000;

/// Fade added each tick once an Orb is picked up.
pub const FADE_STEP: i64 = 50;

/// An Orb is picked up when the Star's centre comes closer than this (20 px).
pub const ORB_RADIUS: i64 = 20_000;

/// A horizontal position after scrolling left by `speed`, stopping at the
/// smallest `i64`.
pub open spec fn scrolled(x: int, speed: int) -> int {
    if x - speed < i64::MIN {
        i64::MIN as int
    } else {
        x - speed
    }
}

fn scroll(x: i64, speed: i64) -> (r: i64)
    requires
        speed >= 0,
    ensures
        r == scrolled(x as int, speed as int),
{
    if x < i64::MIN + speed {
        i64::MIN
    } else {
        x - speed
    }
}

/// An obstacle pair sharing one collision box. `hit` and `missed` are its two
/// terminal outcomes; both false means it is still live.
#[derive(Clone, Copy, Debug, PartialEq, Eq, Structural)]
pub struct Gate {
    pub position: Vec2,
    pub hit: bool,
    pub missed: bool,
}

/// Whether a Gate's box overlaps the Star's box.
pub open spec fn gate_touches(g: Gate, gate_size: Size, star: Vec2, star_size: Size) -> bool {
    overlaps(centered(g.position, gate_size), centered(star, star_size))
}

impl Gate {
    /// A live Gate at `position`.
    pub fn new(position: Vec2) -> (r: Gate)
        ensures
            r == (Gate { position, hit: false, missed: false }),
    {
        Gate { position, hit: false, missed: false }
    }

    /// The collision rectangle of footprint `size` centred on this Gate.
    pub fn bounds(&self, size: Size) -> (r: Rect)
        requires
            size.wf(),
        ensures
            r == centered(self.position, size),
    {
        Rect::centered_on(self.position, size)
    }

    /// Scrolls this Gate left by `speed`; its outcome is untouched.
    pub fn update(&mut self, speed: i64)
        requires
            speed >= 0,
        ensures
            final(self).position.x == scrolled(old(self).position.x as int, speed as int),
            final(self).position.y == old(self).position.y,
            final(self).hit == old(self).hit,
            final(self).missed == old(self).missed,
    {
        self.position.x = scroll(self.position.x, speed);
    }

    /// Whether this Gate, not yet hit, overlaps the Star.
    pub fn collide(&self, gate_size: Size, star: &Star, star_size: Size) -> (r: bool)
        requires
            gate_size.wf(),
            star_size.wf(),
        ensures
            r == (!self.hit && gate_touches(*self, gate_size, star.position, star_size)),
    {
        !self.hit && self.bounds(gate_size).intersects(&star.bounds(star_size))
    }
}

/// A bonus pickup. Once hit, `fade` rises to full by fixed steps.
#[derive(Clone, Copy, Debug, PartialEq, Eq, Structural)]
pub struct Orb {
    pub position: Vec2,
    pub fade: i64,
    pub hit: bool,
}

/// The fade of an Orb after one more tick.
pub open spec fn next_fade(hit: bool, fade: int) -> int {
    if hit && fade < FADE_FULL {
        if fade + FADE_STEP < FADE_FULL {
            fade + FADE_STEP
        } else {
            FADE_FULL as int
        }
    } else {
        fade
    }
}

/// Whether an Orb's centre lies within pickup range of the Star's.
pub open spec fn orb_touches(o: Orb, star: Vec2) -> bool {
    dist_sq(o.position, star) < ORB_RADIUS * ORB_RADIUS
}

impl Orb {
    /// The fade lies in `[0, FADE_FULL]` and is zero until the Orb is hit.
    pub open spec fn wf(&self) -> bool {
        &&& 0 <= self.fade <= FADE_FULL
        &&& !self.hit ==> self.fade == 0
    }

    /// An Orb not yet picked up at `position`.
    pub fn new(position: Vec2) -> (r: Orb)
        ensures
            r == (Orb { position, fade: 0, hit: false }),
            r.wf(),
    {
        Orb { position, fade: 0, hit: false }
    }

    /// Advances the fade of a hit Orb and scrolls it left by `speed`.
    pub fn update(&mut self, speed: i64)
        requires
            old(self).wf(),
            speed >= 0,
        ensures
            final(self).wf(),
            final(self).fade == next_fade(old(self).hit, old(self).fade as int),
            final(self).position.x == scrolled(old(self).position.x as int, speed as int),
            final(self).position.y == old(self).position.y,
            final(self).hit == old(self).hit,
    {
        if self.hit && self.fade < FADE_FULL {
            self.fade = if self.fade + FADE_STEP < FADE_FULL {
                self.fade + FADE_STEP
            } else {
                FADE_FULL
            };
        }
        self.position.x = scroll(self.position.x, speed);
    }

    /// Whether the Orb, not yet hit, lies within pickup range of the Star.
    pub fn collide(&self, star: &Star) -> (r: bool)
        ensures
            r == (!self.hit && orb_touches(*self, star.position)),
    {
        !self.hit && within(self.position, star.position, ORB_RADIUS)
    }
}

} // verus!
