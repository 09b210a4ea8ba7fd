use lonely_star::geometry::{within, Rect, Size, Vec2};
use lonely_star::objects::backdrop::BACKDROP_PERIOD;
use lonely_star::objects::gate::{FADE_FULL, FADE_STEP};
use lonely_star::{Backdrop, Gate, Orb, Star, SCREEN_HEIGHT};

#[test]
fn star_new_fills_trail() {
    let star = Star::new(Vec2::new(160_000, 180_000));
    assert_eq!(star.trail.len(), 32);
    assert!(star.trail.iter().all(|&y| y == 180_000));
    assert_eq!(star.velocity, Vec2::new(0, 0));
    assert_eq!(star.rotation, 0);
}

#[test]
fn star_up_accelerates_and_moves() {
    let mut star = Star::new(Vec2::new(160_000, 180_000));
    star.update(0, true, false);
    assert_eq!(star.velocity.y, -100);
    assert_eq!(star.position.y, 179_900);
    assert_eq!(star.position.x, 160_000);
    assert_eq!(star.rotation, 50);
    assert_eq!(star.trail[0], 179_900);
    assert_eq!(star.trail[1], 180_000);
    assert_eq!(star.trail.len(), 32);
    star.update(0, true, false);
    assert_eq!(star.velocity.y, -200);
    assert_eq!(star.position.y, 179_700);
}

#[test]
fn star_reversing_is_stronger() {
    let mut star = Star::new(Vec2::new(160_000, 180_000));
    star.update(1000, false, false);
    assert_eq!(star.velocity.y, 100);
    star.update(-1000, false, false);
    assert_eq!(star.velocity.y, -100);
    assert_eq!(star.position.y, 180_000);
}

#[test]
fn star_deadzone_applies_friction() {
    let mut star = Star::new(Vec2::new(160_000, 180_000));
    star.update(0, false, true);
    star.update(0, false, true);
    assert_eq!(star.velocity.y, 200);
    star.update(50, false, false);
    assert_eq!(star.velocity.y, 190);
    star.update(-50, false, false);
    assert_eq!(star.velocity.y, 180);
}

#[test]
fn star_friction_brings_it_to_rest() {
    let mut star = Star::new(Vec2::new(160_000, 180_000));
    star.update(0, false, true);
    assert_eq!(star.velocity.y, 100);
    for _ in 0..200 {
        star.update(0, false, false);
    }
    assert_eq!(star.velocity.y, 0);
    let y = star.position.y;
    star.update(0, false, false);
    assert_eq!(star.position.y, y);
}

#[test]
fn star_axis_is_clamped() {
    let mut star = Star::new(Vec2::new(160_000, 180_000));
    star.update(5000, false, false);
    assert_eq!(star.velocity.y, 100);
}

#[test]
fn star_clamps_at_top_and_bottom() {
    let mut star = Star::new(Vec2::new(160_000, 150));
    star.update(0, true, false);
    star.update(0, true, false);
    assert_eq!(star.position.y, 0);
    assert_eq!(star.velocity.y, 0);
    let mut low = Star::new(Vec2::new(160_000, SCREEN_HEIGHT - 50));
    low.update(0, false, true);
    assert_eq!(low.position.y, SCREEN_HEIGHT);
    assert_eq!(low.velocity.y, 0);
}

#[test]
fn star_stays_on_canvas_for_many_ticks() {
    let mut star = Star::new(Vec2::new(160_000, 180_000));
    for t in 0..3000 {
        let down = (t / 700) % 2 == 0;
        star.update(0, !down, down);
        assert!(star.position.y >= 0 && star.position.y <= SCREEN_HEIGHT);
        assert_eq!(star.trail.len(), 32);
    }
}

#[test]
fn star_bounds_are_centred() {
    let star = Star::new(Vec2::new(160_000, 180_000));
    let r = star.bounds(Size { width: 8_000, height: 8_000 });
    assert_eq!(r, Rect { x: 156_000, y: 176_000, width: 8_000, height: 8_000 });
}

#[test]
fn rect_intersection_excludes_touching() {
    let a = Rect { x: 0, y: 0, width: 10, height: 10 };
    let b = Rect { x: 10, y: 0, width: 10, height: 10 };
    let c = Rect { x: 9, y: 9, width: 10, height: 10 };
    assert!(!a.intersects(&b));
    assert!(a.intersects(&c));
}

#[test]
fn within_is_strict() {
    let a = Vec2::new(0, 0);
    assert!(within(a, Vec2::new(12_000, 15_999), 20_000));
    assert!(!within(a, Vec2::new(12_000, 16_000), 20_000));
    assert!(!within(a, Vec2::new(i64::MIN, 0), 20_000));
}

#[test]
fn gate_scrolls_and_keeps_outcome() {
    let mut g = Gate::new(Vec2::new(700_000, 100_000));
    g.missed = true;
    g.update(2_000);
    assert_eq!(g.position, Vec2::new(698_000, 100_000));
    assert!(g.missed && !g.hit);
}

#[test]
fn gate_collide_needs_overlap_and_not_hit() {
    let star = Star::new(Vec2::new(160_000, 180_000));
    let ss = Size { width: 8_000, height: 8_000 };
    let gs = Size { width: 16_000, height: 64_000 };
    let mut g = Gate::new(Vec2::new(170_000, 180_000));
    assert!(g.collide(gs, &star, ss));
    g.hit = true;
    assert!(!g.collide(gs, &star, ss));
    let far = Gate::new(Vec2::new(172_000, 180_000));
    assert!(!far.collide(gs, &star, ss));
}

#[test]
fn orb_fade_rises_by_steps_once_hit() {
    let mut o = Orb::new(Vec2::new(300_000, 100_000));
    o.update(2_000);
    assert_eq!(o.fade, 0);
    o.hit = true;
    let mut last = o.fade;
    for _ in 0..20 {
        o.update(2_000);
        assert_eq!(o.fade, last + FADE_STEP);
        last = o.fade;
    }
    assert_eq!(o.fade, FADE_FULL);
    o.update(2_000);
    assert_eq!(o.fade, FADE_FULL);
    assert_eq!(o.position.x, 300_000 - 22 * 2_000);
}

#[test]
fn orb_collide_uses_distance() {
    let star = Star::new(Vec2::new(160_000, 180_000));
    let near = Orb::new(Vec2::new(160_000, 199_999));
    let edge = Orb::new(Vec2::new(160_000, 200_000));
    assert!(near.collide(&star));
    assert!(!edge.collide(&star));
}

#[test]
fn backdrop_wraps_at_period() {
    let mut b = Backdrop::new();
    b.update(2_000);
    assert_eq!(b.position.x, -1_000);
    for _ in 0..1279 {
        b.update(2_000);
    }
    assert_eq!(b.position.x, 0);
    b.update(2_000);
    assert!(b.position.x > -BACKDROP_PERIOD && b.position.x <= 0);
    assert_eq!(b.position.x, -1_000);
}
