//! The scrolling background, which moves at half the scroll speed.
use vstd::prelude::*;

use crate::geometry::Vec2;

verus! {

/// Width after which the background pattern repeats (1280 px).
pub const BACKDROP_PERIOD: i64 = 1_280_000;

pub struct Backdrop {
    pub position: Vec2,
}

impl Backdrop {
    /// The background's offset lies in `(-BACKDROP_PERIOD, 0]`.
    pub open spec fn wf(&self) -> bool {
        -BACKDROP_PERIOD < self.position.x <= 0 && self.position.y == 0
    }

    pub fn new() -> (r: Backdrop)
        ensures
            r.wf(),
            r.position == (Vec2 { x: 0, y: 0 }),
    {
        Backdrop { position: Vec2 { x: 0, y: 0 } }
    }

    /// Scrolls the background left by half of `speed`, wrapping at the period.
    pub fn update(&mut self, speed: i64)
        requires
            old(self).wf(),
            speed >= 0,
        ensures
            final(self).wf(),
            final(self).position.x == -((-old(self).position.x + speed / 2) % (
            BACKDROP_PERIOD as int)),
    {
        let d: i64 = -self.position.x + speed / 2;
        self.position.x = -(d % BACKDROP_PERIOD);
    }
}

} // verus!
