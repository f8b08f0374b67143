use fishtank::anim::AnimState;
use fishtank::boundary;
use fishtank::domain::Domain;
use fishtank::entity::{Ephemeral, Facing, Lifecycle, Primary};
use fishtank::reaper;
use fishtank::spawn;
use fishtank::steering;
use fishtank::tick;

fn test_domain() -> Domain {
    // 1024 x 768 world units centred on the origin, in milli-units, with the
    // effective floor raised to half the true bottom.
    Domain {
        left: -512_000,
        right: 512_000,
        bottom: -384_000,
        top: 384_000,
        floor_bottom: -192_000,
    }
}

fn primary_at(px: i64, py: i64, vx: i64, vy: i64) -> Primary {
    Primary {
        id: 1,
        px,
        py,
        vx,
        vy,
        facing: Facing::Right,
        sprite: 69,
        anim: None,
    }
}

fn ephemeral_at(id: u64, px: i64, py: i64, stage: Lifecycle) -> Ephemeral {
    Ephemeral {
        id,
        px,
        py,
        vx: 0,
        vy: 2_000,
        anim: AnimState::new(118, 117, 1_500),
        stage,
    }
}

#[test]
fn half_floor_domain() {
    let d = Domain::with_half_floor(-512_000, 512_000, -384_000, 384_000);
    assert_eq!(d.floor_bottom, -192_000);
    assert_eq!(d.left, -512_000);
    assert_eq!(d.top, 384_000);
}

#[test]
fn boundary_reflects_off_right_wall() {
    // Candidate position 518 exceeds right = 512: clamp to the wall and
    // reverse the velocity at nine tenths of its magnitude.
    let d = test_domain();
    let mut e = primary_at(510_000, 0, 8_000, 0);
    boundary::apply(&mut e, &d);
    assert_eq!(e.px, 512_000);
    assert_eq!(e.vx, -7_200);
    assert_eq!(e.py, 0);
    assert_eq!(e.vy, 0);
}

#[test]
fn boundary_damps_strictly_inside() {
    // No clamp: the position moves by the pre-damped velocity and the
    // velocity is scaled by nine tenths.
    let d = test_domain();
    let mut e = primary_at(0, 0, 2_000, 0);
    boundary::apply(&mut e, &d);
    assert_eq!(e.px, 2_000);
    assert_eq!(e.vx, 1_800);
}

#[test]
fn boundary_reflects_off_left_wall() {
    let d = test_domain();
    let mut e = primary_at(-510_000, 0, -8_000, 0);
    boundary::apply(&mut e, &d);
    assert_eq!(e.px, -512_000);
    assert_eq!(e.vx, 7_200);
}

#[test]
fn boundary_reflects_off_top_and_floor() {
    let d = test_domain();
    let mut e = primary_at(0, 380_000, 0, 8_000);
    boundary::apply(&mut e, &d);
    assert_eq!(e.py, 384_000);
    assert_eq!(e.vy, -7_200);

    let mut e = primary_at(0, -190_000, 0, -8_000);
    boundary::apply(&mut e, &d);
    assert_eq!(e.py, -192_000);
    assert_eq!(e.vy, 7_200);
}

#[test]
fn boundary_damps_negative_component() {
    let d = test_domain();
    let mut e = primary_at(0, 0, -2_000, 0);
    boundary::apply(&mut e, &d);
    assert_eq!(e.px, -2_000);
    assert_eq!(e.vx, -1_800);
}

#[test]
fn reflection_loses_speed() {
    // After a reflection event, ten times the new magnitude never exceeds
    // nine times the old one.
    let d = test_domain();
    let before = 8_000i64;
    let mut e = primary_at(510_000, 0, before, 0);
    boundary::apply(&mut e, &d);
    assert!(10 * e.vx.abs() <= 9 * before.abs());
}

#[test]
fn anim_cycle_returns_to_first() {
    // first < last: after exactly last - first + 1 expirations the index
    // is back at first, having visited every frame once.
    let mut a = AnimState::new(3, 6, 100);
    let mut seen = Vec::new();
    for _ in 0..4 {
        a.tick(100);
        seen.push(a.current);
    }
    assert_eq!(seen, vec![4, 5, 6, 3]);
    assert_eq!(a.current, 3);
}

#[test]
fn anim_cycle_descends_when_first_is_larger() {
    let mut a = AnimState::new(118, 117, 50);
    a.tick(50);
    assert_eq!(a.current, 117);
    a.tick(50);
    assert_eq!(a.current, 118);
}

#[test]
fn anim_partial_elapsed_only_counts_down() {
    let mut a = AnimState::new(5, 9, 100);
    a.tick(40);
    assert_eq!(a.current, 5);
    assert_eq!(a.countdown_ms, 60);
    a.tick(60);
    assert_eq!(a.current, 6);
    assert_eq!(a.countdown_ms, 100);
}

#[test]
fn anim_single_frame_stays_put() {
    let mut a = AnimState::new(7, 7, 10);
    a.tick(10);
    assert_eq!(a.current, 7);
}

#[test]
fn spawn_with_no_primaries_is_noop() {
    // Zero primary entities yield zero new ephemeral entities for any
    // number of firings.
    let primaries: Vec<Primary> = Vec::new();
    for i in 0..20 {
        assert!(spawn::fire(&primaries, i).is_none());
    }
}

#[test]
fn spawn_anchors_to_a_primary() {
    let primaries = vec![primary_at(123_000, -45_000, 1_000, 0)];
    let b = spawn::fire(&primaries, 42).expect("one primary exists");
    assert_eq!(b.id, 42);
    assert_eq!(b.px, 123_000);
    assert_eq!(b.py, -45_000);
    assert_eq!(b.vx, 0);
    assert_eq!(b.vy, 2_000);
    assert!(matches!(b.stage, Lifecycle::Spawned));
    assert_eq!(b.anim.first, 118);
    assert_eq!(b.anim.last, 117);
    assert_eq!(b.anim.current, 118);
    assert!(1_000 <= b.anim.period_ms && b.anim.period_ms < 3_000);
    assert_eq!(b.anim.countdown_ms, b.anim.period_ms);
}

#[test]
fn initial_count_in_range() {
    for _ in 0..50 {
        let n = spawn::initial_count();
        assert!(5 <= n && n < 20);
    }
}

#[test]
fn initial_primary_lands_inside_domain() {
    let d = test_domain();
    for i in 0..10 {
        let p = spawn::initial_primary(i, i as u64, &d);
        assert!(d.left <= p.px && p.px < d.right);
        assert!(d.floor_bottom <= p.py && p.py < d.top);
        assert!(-50_000 <= p.vx && p.vx < 50_000);
        assert!(-25_000 <= p.vy && p.vy < 25_000);
        if p.vx > 0 {
            assert!(matches!(p.facing, Facing::Right));
        }
        if p.vx < 0 {
            assert!(matches!(p.facing, Facing::Left));
        }
        assert!(p.anim.is_none());
    }
}

#[test]
fn sprite_cells_cycle_through_six_looks() {
    assert_eq!(spawn::sprite_cell(0), 69);
    assert_eq!(spawn::sprite_cell(1), 71);
    assert_eq!(spawn::sprite_cell(2), 73);
    assert_eq!(spawn::sprite_cell(3), 75);
    assert_eq!(spawn::sprite_cell(4), 96);
    assert_eq!(spawn::sprite_cell(5), 98);
    assert_eq!(spawn::sprite_cell(6), 69);
}

#[test]
fn reaper_removes_past_margin_only() {
    // top = 384, margin = 30 (two ephemeral radii): y = 420 exceeds
    // 384 + 30 = 414 and is removed; y = 380 is strictly within and never
    // removed.
    let d = test_domain();
    let mut entities = vec![
        ephemeral_at(1, 0, 420_000, Lifecycle::Alive),
        ephemeral_at(2, 0, 380_000, Lifecycle::Alive),
    ];
    let removed = reaper::sweep(&mut entities, &d, 30_000);
    assert_eq!(removed, vec![1]);
    assert!(matches!(entities[0].stage, Lifecycle::Despawned));
    assert!(matches!(entities[1].stage, Lifecycle::Alive));
}

#[test]
fn reaper_keeps_exactly_margin() {
    // y equal to bound + margin does not exceed it.
    let d = test_domain();
    let mut entities = vec![ephemeral_at(1, 0, 414_000, Lifecycle::Alive)];
    let removed = reaper::sweep(&mut entities, &d, 30_000);
    assert!(removed.is_empty());
    assert!(matches!(entities[0].stage, Lifecycle::Alive));
}

#[test]
fn reaper_is_idempotent() {
    let d = test_domain();
    let mut entities = vec![ephemeral_at(1, 0, 420_000, Lifecycle::Alive)];
    let first = reaper::sweep(&mut entities, &d, 30_000);
    assert_eq!(first, vec![1]);
    let second = reaper::sweep(&mut entities, &d, 30_000);
    assert!(second.is_empty());
    assert!(matches!(entities[0].stage, Lifecycle::Despawned));
}

#[test]
fn reaper_skips_uncommitted_spawns() {
    let d = test_domain();
    let mut entities = vec![ephemeral_at(1, 0, 420_000, Lifecycle::Spawned)];
    let removed = reaper::sweep(&mut entities, &d, 30_000);
    assert!(removed.is_empty());
    assert!(matches!(entities[0].stage, Lifecycle::Spawned));
}

#[test]
fn commit_applies_buffered_changes() {
    let entities_before = vec![
        ephemeral_at(1, 0, 0, Lifecycle::Alive),
        ephemeral_at(2, 0, 0, Lifecycle::Despawned),
        ephemeral_at(3, 0, 0, Lifecycle::Spawned),
    ];
    let incoming = ephemeral_at(4, 5_000, 6_000, Lifecycle::Spawned);
    let mut entities = entities_before.clone();
    reaper::commit(&mut entities, Some(incoming));
    let ids: Vec<u64> = entities.iter().map(|e| e.id).collect();
    assert_eq!(ids, vec![1, 3, 4]);
    assert!(entities.iter().all(|e| matches!(e.stage, Lifecycle::Alive)));
}

#[test]
fn steering_keeps_direction_mostly() {
    // A positive axis takes an increment from [-300, 500), so it stays in
    // [4700, 5500) and the facing follows the sign.
    for _ in 0..50 {
        let mut e = primary_at(0, 0, 5_000, 0);
        steering::step(&mut e);
        assert!(4_700 <= e.vx && e.vx < 5_500);
        assert!(matches!(e.facing, Facing::Right));
    }
}

#[test]
fn steering_nudges_stopped_axis() {
    for _ in 0..50 {
        let mut e = primary_at(0, 0, 0, 0);
        steering::step(&mut e);
        assert!(-200 <= e.vx && e.vx <= 200);
        assert!(-200 <= e.vy && e.vy <= 200);
    }
}

#[test]
fn steering_facing_matches_sign() {
    let mut e = primary_at(0, 0, -40, 10);
    for _ in 0..200 {
        steering::step(&mut e);
        if e.vx > 0 {
            assert!(matches!(e.facing, Facing::Right));
        }
        if e.vx < 0 {
            assert!(matches!(e.facing, Facing::Left));
        }
    }
}

#[test]
fn drift_moves_and_rises() {
    let mut e = ephemeral_at(9, 0, 0, Lifecycle::Alive);
    steering::drift(&mut e);
    assert_eq!(e.px, 0);
    assert_eq!(e.py, 2_000);
    assert_eq!(e.vy, 2_100);
    assert!(-50 <= e.vx && e.vx <= 50);
}

#[test]
fn tick_confines_all_primaries() {
    // Even entities that start outside the domain are inside it once the
    // boundary pass has run.
    let d = test_domain();
    let mut entities = vec![
        primary_at(600_000, 0, 8_000, 0),
        primary_at(0, -500_000, 0, -1_000),
        primary_at(100_000, 100_000, -3_000, 2_000),
    ];
    tick::tick_primaries(&mut entities, &d, 16);
    for e in &entities {
        assert!(d.left <= e.px && e.px <= d.right);
        assert!(d.floor_bottom <= e.py && e.py <= d.top);
    }
}

#[test]
fn sweep_of_empty_list_reports_nothing() {
    let d = test_domain();
    let mut entities: Vec<Ephemeral> = Vec::new();
    let removed = reaper::sweep(&mut entities, &d, 30_000);
    assert!(removed.is_empty());
    assert!(entities.is_empty());
}

#[test]
fn commit_of_empty_list_without_spawn_is_noop() {
    let mut entities: Vec<Ephemeral> = Vec::new();
    reaper::commit(&mut entities, None);
    assert!(entities.is_empty());
}

#[test]
fn pending_removal_still_animates() {
    // An entity the reaper has marked keeps drifting and animating until
    // the commit at the tick boundary destroys it.
    let mut entities = vec![Ephemeral {
        id: 8,
        px: 0,
        py: 500_000,
        vx: 0,
        vy: 2_000,
        anim: AnimState::new(118, 117, 100),
        stage: Lifecycle::Despawned,
    }];
    tick::tick_ephemerals(&mut entities, 100);
    assert!(matches!(entities[0].stage, Lifecycle::Despawned));
    assert_eq!(entities[0].py, 502_000);
    assert_eq!(entities[0].anim.current, 117);
}

#[test]
fn tick_ephemerals_drifts_and_animates() {
    let mut entities = vec![Ephemeral {
        id: 7,
        px: 1_000,
        py: 2_000,
        vx: 0,
        vy: 2_000,
        anim: AnimState::new(118, 117, 100),
        stage: Lifecycle::Alive,
    }];
    tick::tick_ephemerals(&mut entities, 100);
    assert_eq!(entities[0].py, 4_000);
    assert_eq!(entities[0].vy, 2_100);
    assert_eq!(entities[0].anim.current, 117);
    assert_eq!(entities[0].id, 7);
}
