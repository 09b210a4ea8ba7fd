//! The player-controlled Star: vertical steering physics and its trail.
use vstd::prelude::*;

use crate::geometry::{centered, Rect, Size, Vec2};
use crate::{SCREEN_HEIGHT, SCREEN_WIDTH};

verus! {

/// Steering inputs with a magnitude at or below this are neutral.
pub const DEADZONE: i64 = 50;

/// Full deflection of the steering axis.
pub const FULL_AXIS: i64 = 1000;

/// Spin added each tick, in thousandths of a radian.
pub const ROTATION_SPEED: i64 = 50;

/// Number of past heights kept in the trail.
pub const TRAIL_LENGTH: usize = 32;

/// Largest value of the rotation, where it stops growing.
pub const MAX_ROTATION: i64 = 0x7fff_ffff_ffff_ffff;

/// Integer division rounding toward zero, as Rust's `/` does.
pub open spec fn quot(n: int, d: int) -> int {
    if n >= 0 {
        n / d
    } else {
        -((-n) / d)
    }
}

/// Integer division rounding away from zero.
pub open spec fn quot_up(n: int, d: int) -> int {
    if n >= 0 {
        (n + d - 1) / d
    } else {
        -((-n + d - 1) / d)
    }
}

/// The steering axis after the digital overrides and the clamp to full deflection.
pub open spec fn steer(axis: int, up: bool, down: bool) -> int {
    if up {
        -FULL_AXIS as int
    } else if down {
        FULL_AXIS as int
    } else if axis < -FULL_AXIS {
        -FULL_AXIS as int
    } else if axis > FULL_AXIS {
        FULL_AXIS as int
    } else {
        axis
    }
}

/// Vertical velocity after one tick of steering with axis `a`: acceleration of
/// a tenth of the axis along the current motion, a fifth against it, and 5%
/// friction when the axis is neutral. The friction is rounded up, so that a
/// neutral Star always comes to rest instead of creeping at a tiny speed.
pub open spec fn steered_velocity(v: int, a: int) -> int {
    if a > DEADZONE || a < -DEADZONE {
        if v == 0 || (v > 0) == (a > 0) {
            v + quot(a, 10)
        } else {
            v + quot(a, 5)
        }
    } else {
        v - quot_up(v, 20)
    }
}

/// A height clamped to the canvas.
pub open spec fn clamp_height(y: int) -> int {
    if y <= 0 {
        0
    } else if y >= SCREEN_HEIGHT {
        SCREEN_HEIGHT as int
    } else {
        y
    }
}

/// `n` copies of the height `y`.
pub open spec fn filled(y: i64, n: nat) -> Seq<i64> {
    Seq::new(n, |i: int| y)
}

/// `new` is `old` after one tick of physics with steering `axis` and the
/// `up` and `down` overrides.
pub open spec fn stepped(old: Star, new: Star, axis: int, up: bool, down: bool) -> bool {
    let v = steered_velocity(old.velocity.y as int, steer(axis, up, down));
    let y = old.position.y + v;
    &&& new.position.x == old.position.x
    &&& new.position.y == clamp_height(y)
    &&& new.velocity.y == (if y <= 0 || y >= SCREEN_HEIGHT { 0 } else { v })
    &&& new.velocity.x == 0
    &&& new.rotation == (if old.rotation <= MAX_ROTATION - ROTATION_SPEED {
        old.rotation + ROTATION_SPEED
    } else {
        MAX_ROTATION as int
    })
    &&& new.trail@ == seq![new.position.y].add(old.trail@.drop_last())
    &&& new.trail_timer == old.trail_timer
}

pub struct Star {
    pub position: Vec2,
    /// Only the vertical component is ever steered; the horizontal one stays zero.
    pub velocity: Vec2,
    /// Visual spin in thousandths of a radian; it only grows.
    pub rotation: i64,
    /// Past heights, most recent first.
    pub trail: Vec<i64>,
    pub trail_timer: i32,
}

fn div_away_from_zero(n: i64, d: i64) -> (r: i64)
    requires
        0 < d <= 1000,
        -0x1_0000_0000_0000 <= n <= 0x1_0000_0000_0000,
    ensures
        r == quot_up(n as int, d as int),
{
    if n >= 0 {
        (n + d - 1) / d
    } else {
        -((-n + d - 1) / d)
    }
}

fn div_toward_zero(n: i64, d: i64) -> (r: i64)
    requires
        d > 0,
        n > i64::MIN,
    ensures
        r == quot(n as int, d as int),
{
    if n >= 0 {
        n / d
    } else {
        -((-n) / d)
    }
}

impl Star {
    pub open spec fn wf(&self) -> bool {
        &&& 0 <= self.position.x <= SCREEN_WIDTH
        &&& 0 <= self.position.y <= SCREEN_HEIGHT
        &&& self.velocity.x == 0
        &&& -SCREEN_HEIGHT <= self.velocity.y <= SCREEN_HEIGHT
        &&& 0 <= self.rotation
        &&& self.trail@.len() == TRAIL_LENGTH
        &&& self.trail_timer == 0
    }

    /// A Star at rest at `position`, its trail filled with its height.
    pub fn new(position: Vec2) -> (r: Star)
        requires
            0 <= position.x <= SCREEN_WIDTH,
            0 <= position.y <= SCREEN_HEIGHT,
        ensures
            r.wf(),
            r.position == position,
            r.velocity == (Vec2 { x: 0, y: 0 }),
            r.rotation == 0,
            r.trail@ == filled(position.y, TRAIL_LENGTH as nat),
    {
        let mut trail: Vec<i64> = Vec::with_capacity(TRAIL_LENGTH);
        let mut i: usize = 0;
        while i < TRAIL_LENGTH
            invariant
                i <= TRAIL_LENGTH,
                trail@ == filled(position.y, i as nat),
            decreases TRAIL_LENGTH - i,
        {
            trail.push(position.y);
            i = i + 1;
            assert(trail@ =~= filled(position.y, i as nat));
        }
        Star { position, velocity: Vec2 { x: 0, y: 0 }, rotation: 0, trail, trail_timer: 0 }
    }

    /// The collision rectangle of footprint `size` centred on the Star.
    pub fn bounds(&self, size: Size) -> (r: Rect)
        requires
            size.wf(),
        ensures
            r == centered(self.position, size),
    {
        Rect::centered_on(self.position, size)
    }

    /// One tick of physics for steering `axis` (thousandths of full deflection),
    /// overridden by the `up` and `down` inputs.
    pub fn update(&mut self, axis: i64, up: bool, down: bool)
        requires
            old(self).wf(),
        ensures
            final(self).wf(),
            stepped(*old(self), *final(self), axis as int, up, down),
    {
        let a: i64 = if up {
            -FULL_AXIS
        } else if down {
            FULL_AXIS
        } else if axis < -FULL_AXIS {
            -FULL_AXIS
        } else if axis > FULL_AXIS {
            FULL_AXIS
        } else {
            axis
        };
        let v: i64 = self.velocity.y;
        let nv: i64 = if a > DEADZONE || a < -DEADZONE {
            if v == 0 || (v > 0) == (a > 0) {
                v + div_toward_zero(a, 10)
            } else {
                v + div_toward_zero(a, 5)
            }
        } else {
            v - div_away_from_zero(v, 20)
        };
        let y: i64 = self.position.y + nv;
        if y <= 0 {
            self.position.y = 0;
            self.velocity.y = 0;
        } else if y >= SCREEN_HEIGHT {
            self.position.y = SCREEN_HEIGHT;
            self.velocity.y = 0;
        } else {
            self.position.y = y;
            self.velocity.y = nv;
        }
        if self.rotation <= MAX_ROTATION - ROTATION_SPEED {
            self.rotation = self.rotation + ROTATION_SPEED;
        } else {
            self.rotation = MAX_ROTATION;
        }
        let ghost before = self.trail@;
        self.trail_timer = self.trail_timer + 1;
        if self.trail_timer == 1 {
            self.trail.pop();
            self.trail.insert(0, self.position.y);
            self.trail_timer = 0;
        }
        assert(self.trail@ =~= seq![self.position.y].add(before.drop_last()));
    }
}

} // verus!
