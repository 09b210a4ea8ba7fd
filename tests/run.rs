use lonely_star::game::{GATE_POINTS, ORB_POINTS, SPEED_STEP, START_LIVES, START_SPEED};
use lonely_star::objects::{orb_after_roll, MAX_Y, MAX_Y_CHANGE, MIN_Y, SPAWN_X};
use lonely_star::{Cue, GameState, Gate, Orb, Size, Spawner, Vec2, SCREEN_HEIGHT};
use rand::SeedableRng;
use rand_pcg::Pcg64Mcg;

fn zero() -> Size {
    Size { width: 0, height: 0 }
}

fn sprite_sizes() -> (Size, Size) {
    (Size { width: 8_000, height: 8_000 }, Size { width: 16_000, height: 64_000 })
}

#[test]
fn fresh_run_values() {
    let s = GameState::new(1, zero(), zero());
    assert_eq!(s.lives, 5);
    assert_eq!(s.score, 0);
    assert_eq!(s.speed, 2_000);
    assert_eq!(s.star.position, Vec2::new(160_000, 180_000));
    assert!(s.gates.is_empty() && s.orbs.is_empty());
}

#[test]
fn spawner_first_call_emits_gate_in_middle() {
    let mut rng = Pcg64Mcg::seed_from_u64(3);
    let mut sp = Spawner::new();
    let (g, o) = sp.check(&mut rng, 2_000);
    assert_eq!(g, Some(Gate::new(Vec2::new(SPAWN_X, SCREEN_HEIGHT / 2))));
    assert!(o.is_none());
    assert_eq!(sp.gate_timer, 2_000);
    assert_eq!(sp.orb_timer, 2_000);
    assert_eq!(sp.last_y, Some(180_000));
}

#[test]
fn spawner_nothing_before_period() {
    let mut rng = Pcg64Mcg::seed_from_u64(3);
    let mut sp = Spawner::new();
    sp.check(&mut rng, 2_000);
    for _ in 0..48 {
        let (g, o) = sp.check(&mut rng, 2_000);
        assert!(g.is_none() && o.is_none());
    }
    assert_eq!(sp.orb_timer, 98_000);
    assert_eq!(sp.last_y, Some(180_000));
}

#[test]
fn spawner_carries_excess() {
    let mut rng = Pcg64Mcg::seed_from_u64(3);
    let mut sp = Spawner::new();
    sp.check(&mut rng, 150_000);
    assert_eq!(sp.gate_timer, 150_000);
    assert_eq!(sp.orb_timer, 50_000);
}

#[test]
fn spawner_heights_stay_bounded() {
    let mut rng = Pcg64Mcg::seed_from_u64(11);
    let mut sp = Spawner::new();
    let mut last: Option<i64> = None;
    let mut orbs = 0;
    let mut chances = 0;
    for _ in 0..20_000 {
        let (g, o) = sp.check(&mut rng, 37_000);
        if let Some(y) = sp.last_y {
            assert!(y >= MIN_Y && y <= MAX_Y);
            if let Some(l) = last {
                assert!((y - l).abs() <= MAX_Y_CHANGE);
            }
            last = Some(y);
        }
        if let Some(g) = g {
            assert_eq!(g.position, Vec2::new(SPAWN_X, sp.last_y.unwrap()));
        }
        if let Some(o) = o {
            assert_eq!(o.position, Vec2::new(SPAWN_X, sp.last_y.unwrap()));
            orbs += 1;
        }
        chances += 1;
    }
    assert!(orbs > 0 && orbs < chances);
}

#[test]
fn spawner_is_deterministic() {
    let clocks: Vec<i64> = (0..3000).map(|i| 1_000 + (i % 7) * 900).collect();
    let run = || {
        let mut rng = Pcg64Mcg::seed_from_u64(42);
        let mut sp = Spawner::new();
        let mut out = Vec::new();
        for &c in &clocks {
            let (g, o) = sp.check(&mut rng, c);
            out.push((g, o, sp.last_y));
        }
        out
    };
    assert_eq!(run(), run());
}

#[test]
fn unhit_gate_scrolls_past_and_costs_a_life() {
    let mut s = GameState::new(9, zero(), zero());
    for _ in 0..400 {
        s.update(0, false, false);
    }
    let missed = s.gates.iter().filter(|g| g.missed).count();
    let hit_gates = s.gates.iter().filter(|g| g.hit).count();
    let picked = s.orbs.iter().filter(|o| o.hit).count() as i64;
    assert_eq!(missed, 1);
    assert_eq!(hit_gates, 0);
    assert_eq!(s.lives, 4);
    assert_eq!(s.score, ORB_POINTS * picked);
    assert_eq!(s.speed, START_SPEED);
    assert!(s.gates[0].missed);
    assert_eq!(s.gates[0].position.x, 700_000 - 400 * 2_000);
}

#[test]
fn gate_hit_scores_and_speeds_up() {
    let (ss, gs) = sprite_sizes();
    let mut s = GameState::new(5, ss, gs);
    let x = s.star.position.x;
    let y = s.star.position.y;
    s.gates.push(Gate::new(Vec2::new(x + 2_000, y)));
    let cues = s.update(0, false, false);
    assert!(s.gates[0].hit && !s.gates[0].missed);
    assert_eq!(s.score, 50);
    assert_eq!(s.speed, 2_050);
    assert_eq!(s.lives, 5);
    assert_eq!(cues, vec![Cue::GateHit]);
    assert_eq!(s.score_digits(), b"00000050".to_vec());
    // The hit Gate is never scored again, and never counted as missed.
    for _ in 0..100 {
        s.update(0, false, false);
    }
    assert!(s.gates[0].hit && !s.gates[0].missed);
}

#[test]
fn hit_raises_speed_for_later_gates_in_same_tick() {
    let (ss, gs) = sprite_sizes();
    let mut s = GameState::new(5, ss, gs);
    let x = s.star.position.x;
    let y = s.star.position.y;
    s.gates.push(Gate::new(Vec2::new(x + 2_000, y)));
    s.gates.push(Gate::new(Vec2::new(500_000, 20_000)));
    s.update(0, false, false);
    assert_eq!(s.gates[1].position.x, 500_000 - 2_050);
    assert_eq!(s.speed, START_SPEED + SPEED_STEP);
    assert_eq!(s.score, GATE_POINTS);
}

#[test]
fn orb_pickup_scores_and_fades() {
    let mut s = GameState::new(5, zero(), zero());
    let x = s.star.position.x;
    let y = s.star.position.y;
    s.orbs.push(Orb::new(Vec2::new(x + 2_000, y)));
    let cues = s.update(0, false, false);
    assert!(s.orbs[0].hit);
    assert_eq!(s.orbs[0].fade, 0);
    assert_eq!(s.score, 10);
    assert_eq!(cues, vec![Cue::OrbPickup]);
    for i in 1..=20 {
        s.update(0, false, false);
        assert_eq!(s.orbs[0].fade, 50 * i);
    }
    assert_eq!(s.orbs[0].fade, 1_000);
    assert_eq!(s.score, 10 + ORB_POINTS * s.orbs[1..].iter().filter(|o| o.hit).count() as i64);
}

#[test]
fn run_freezes_without_lives() {
    let (ss, gs) = sprite_sizes();
    let mut s = GameState::new(5, ss, gs);
    let x = s.star.position.x;
    for _ in 0..START_LIVES {
        s.gates.push(Gate::new(Vec2::new(x + 1_000, 20_000)));
    }
    let cues = s.update(0, false, false);
    assert_eq!(cues.len(), 5);
    assert!(cues.iter().all(|c| *c == Cue::GateMiss));
    assert_eq!(s.lives, 0);
    assert_eq!(s.speed, 0);
    let pos = s.star.position;
    let gates = s.gates.len();
    let score = s.score;
    for _ in 0..50 {
        let cues = s.update(0, true, false);
        assert!(cues.is_empty());
        assert_eq!(s.star.position, pos);
        assert_eq!(s.speed, 0);
        assert_eq!(s.lives, 0);
    }
    assert_eq!(s.gates.len(), gates);
    assert_eq!(s.score, score);
}

#[test]
fn lives_never_go_below_zero() {
    let (ss, gs) = sprite_sizes();
    let mut s = GameState::new(5, ss, gs);
    let x = s.star.position.x;
    for _ in 0..8 {
        s.gates.push(Gate::new(Vec2::new(x + 1_000, 20_000)));
    }
    s.update(0, false, false);
    assert_eq!(s.lives, 0);
    assert_eq!(s.gates.iter().filter(|g| g.missed).count(), 8);
}

#[test]
fn long_run_keeps_invariants() {
    let (ss, gs) = sprite_sizes();
    let mut s = GameState::new(77, ss, gs);
    let mut score = s.score;
    let mut lives = s.lives;
    for t in 0..5_000 {
        let axis = ((t * 37) % 2001) as i64 - 1000;
        s.update(axis, false, false);
        assert!(s.score >= score);
        assert!(s.lives <= lives);
        assert!(s.star.position.y >= 0 && s.star.position.y <= SCREEN_HEIGHT);
        assert!(s.gates.iter().all(|g| !(g.hit && g.missed)));
        assert!(s.orbs.iter().all(|o| o.fade >= 0 && o.fade <= 1_000 && (o.hit || o.fade == 0)));
        if s.lives == 0 {
            assert_eq!(s.speed, 0);
        }
        score = s.score;
        lives = s.lives;
    }
    assert!(!s.gates.is_empty());
}

#[test]
fn orb_appears_only_on_ready_and_roll() {
    assert_eq!(orb_after_roll(true, true, 90_000), Some(Orb::new(Vec2::new(SPAWN_X, 90_000))));
    assert_eq!(orb_after_roll(true, false, 90_000), None);
    assert_eq!(orb_after_roll(false, true, 90_000), None);
}

#[test]
fn idle_spawner_draws_nothing() {
    let mut rng = Pcg64Mcg::seed_from_u64(8);
    let mut sp = Spawner::new();
    sp.check(&mut rng, 2_000);
    let before = rng.clone();
    let (g, o) = sp.check(&mut rng, 2_000);
    assert!(g.is_none() && o.is_none());
    assert!(rng == before);
}

#[test]
fn frozen_run_leaves_generator_alone() {
    let (ss, gs) = sprite_sizes();
    let mut s = GameState::new(5, ss, gs);
    let x = s.star.position.x;
    for _ in 0..START_LIVES {
        s.gates.push(Gate::new(Vec2::new(x + 1_000, 20_000)));
    }
    s.update(0, false, false);
    assert_eq!(s.lives, 0);
    let before = s.rng.clone();
    s.update(0, false, true);
    assert!(s.rng == before);
}

#[test]
fn fresh_star_is_at_rest_with_full_trail() {
    let s = GameState::new(2, zero(), zero());
    assert_eq!(s.star.rotation, 0);
    assert_eq!(s.star.trail, vec![180_000; 32]);
}
