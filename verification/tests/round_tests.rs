use suika::fruits::NextFruit;
use suika::geom::clamp_x;
use suika::round::GameRound;
use suika::tiers::fruit_of;

fn round_with_fruit(tier: i32, x: i32, y: i32) -> GameRound {
    let mut r = GameRound::new();
    r.spawn_collider_fruit(fruit_of(tier), x, y, 20);
    r
}

#[test]
fn merge_conservation_equal_tier() {
    let mut r = round_with_fruit(3, 100, 200);
    r.spawn_collider_fruit(fruit_of(3), 201, 300, 20);
    let h0 = r.fruits[0].handle;
    let h1 = r.fruits[1].handle;
    let events = vec![(h0, h1)];
    r.handle_merging(&events);
    assert_eq!(r.fruits.len(), 1);
    assert_eq!(r.fruits[0].tier, 4);
    assert_eq!(r.fruits[0].x, 150);
    assert_eq!(r.fruits[0].y, 250);
    assert_eq!(r.fruits[0].vx, 0);
    assert_eq!(r.fruits[0].vy, 0);
    assert_eq!(r.score.0, fruit_of(4).score);
}

#[test]
fn merge_midpoint_negative_coordinates() {
    let mut r = round_with_fruit(0, -100, -201);
    r.spawn_collider_fruit(fruit_of(0), -201, -100, 20);
    let events = vec![(r.fruits[0].handle, r.fruits[1].handle)];
    r.handle_merging(&events);
    assert_eq!(r.fruits.len(), 1);
    assert_eq!(r.fruits[0].x, -150);
    assert_eq!(r.fruits[0].y, -150);
}

#[test]
fn no_merge_at_max_tier() {
    let mut r = round_with_fruit(10, -100, 0);
    r.spawn_collider_fruit(fruit_of(10), 100, 0, 20);
    let events = vec![(r.fruits[0].handle, r.fruits[1].handle)];
    r.handle_merging(&events);
    assert_eq!(r.fruits.len(), 2);
    assert_eq!(r.score.0, 0);
}

#[test]
fn no_merge_on_unequal_tiers() {
    let mut r = round_with_fruit(1, 0, 0);
    r.spawn_collider_fruit(fruit_of(2), 10, 0, 20);
    let events = vec![(r.fruits[0].handle, r.fruits[1].handle)];
    r.handle_merging(&events);
    assert_eq!(r.fruits.len(), 2);
    assert_eq!(r.score.0, 0);
}

#[test]
fn stale_collision_reference_is_skipped() {
    let mut r = round_with_fruit(2, 0, 0);
    let events = vec![(999u64, 1000u64), (r.fruits[0].handle, r.fruits[0].handle)];
    r.handle_merging(&events);
    assert_eq!(r.fruits.len(), 1);
    assert_eq!(r.score.0, 0);
}

#[test]
fn only_first_merge_resolves_per_tick() {
    let mut r = round_with_fruit(2, 0, 0);
    r.spawn_collider_fruit(fruit_of(2), 100, 0, 20);
    r.spawn_collider_fruit(fruit_of(2), 200, 0, 20);
    let h0 = r.fruits[0].handle;
    let h1 = r.fruits[1].handle;
    let h2 = r.fruits[2].handle;
    let events = vec![(h0, h1), (h1, h2)];
    r.handle_merging(&events);
    // only the first qualifying pair merged
    assert_eq!(r.fruits.len(), 2);
    assert_eq!(r.score.0, fruit_of(3).score);
    // the third fruit survived untouched
    assert!(r.fruits.iter().any(|f| f.handle == h2));
}

#[test]
fn clamp_pins_exactly_at_boundary() {
    // tier 0: limit = 2030 - 338 / 2 = 1861
    assert_eq!(clamp_x(1862, 1861), 1861);
    assert_eq!(clamp_x(1861, 1861), 1861);
    assert_eq!(clamp_x(1860, 1861), 1860);
    assert_eq!(clamp_x(-1862, 1861), -1861);
    assert_eq!(clamp_x(0, 1861), 0);
}

#[test]
fn move_sequence_never_exceeds_limit() {
    let mut r = GameRound::new();
    r.spawn_active_fruit(fruit_of(0), 0);
    r.controls.move_dir = 1;
    for _ in 0..200 {
        r.handle_active_fruit();
        assert!(r.active.unwrap().x <= 1861);
    }
    assert_eq!(r.active.unwrap().x, 1861);
    r.controls.move_dir = -1;
    for _ in 0..400 {
        r.handle_active_fruit();
        assert!(r.active.unwrap().x >= -1861);
    }
    assert_eq!(r.active.unwrap().x, -1861);
}

#[test]
fn drop_promotes_active_and_next() {
    let mut r = GameRound::new();
    r.spawn_active_fruit(fruit_of(2), 123);
    r.next = Some(NextFruit { tier: 4 });
    r.controls.drop = true;
    r.handle_active_fruit();
    // exactly one physical fruit of the dropped tier at the prior x
    assert_eq!(r.fruits.len(), 1);
    assert_eq!(r.fruits[0].tier, 2);
    assert_eq!(r.fruits[0].x, 123);
    assert_eq!(r.fruits[0].y, 2763);
    assert_eq!(r.fruits[0].vx, 0);
    assert_eq!(r.fruits[0].vy, 0);
    // a new active fruit exists in the same tick, with the next fruit's tier
    let a = r.active.unwrap();
    assert_eq!(a.tier, 4);
    assert_eq!(a.x, 123);
    // the preview is replenished by the next-fruit step
    r.handle_next_fruit();
    let n = r.next.unwrap();
    assert!((0..5).contains(&n.tier));
}

#[test]
fn absent_active_fruit_respawns_at_centre() {
    let mut r = GameRound::new();
    r.next = Some(NextFruit { tier: 3 });
    r.handle_active_fruit();
    let a = r.active.unwrap();
    assert_eq!(a.tier, 3);
    assert_eq!(a.x, 0);
}

#[test]
fn absent_active_and_next_draws_low_tier() {
    let mut r = GameRound::new();
    r.handle_active_fruit();
    let a = r.active.unwrap();
    assert!((0..3).contains(&a.tier));
    r.handle_next_fruit();
    let n = r.next.unwrap();
    assert!((0..5).contains(&n.tier));
}

#[test]
fn next_fruit_kept_without_drop() {
    let mut r = GameRound::new();
    r.next = Some(NextFruit { tier: 4 });
    r.handle_next_fruit();
    assert_eq!(r.next.unwrap().tier, 4);
}

#[test]
fn spin_jitter_formula() {
    let mut r = GameRound::new();
    r.spawn_collider_fruit(fruit_of(0), 0, 0, 20);
    r.spawn_collider_fruit(fruit_of(0), 0, 0, 35);
    r.spawn_collider_fruit(fruit_of(0), 0, 0, 49);
    assert_eq!(r.fruits[0].angvel, -30);
    assert_eq!(r.fruits[1].angvel, 0);
    assert_eq!(r.fruits[2].angvel, 28);
}

#[test]
fn sync_updates_matching_body_only() {
    let mut r = round_with_fruit(1, 0, 0);
    r.spawn_collider_fruit(fruit_of(2), 10, 10, 20);
    let h0 = r.fruits[0].handle;
    r.sync_fruit_motion(h0, 7, 8, 9, -9);
    assert_eq!(r.fruits[0].x, 7);
    assert_eq!(r.fruits[0].y, 8);
    assert_eq!(r.fruits[0].vx, 9);
    assert_eq!(r.fruits[0].vy, -9);
    assert_eq!(r.fruits[0].tier, 1);
    assert_eq!(r.fruits[1].x, 10);
    // a handle that resolves to nothing is ignored
    r.sync_fruit_motion(12345, 1, 1, 1, 1);
    assert_eq!(r.fruits[0].x, 7);
    assert_eq!(r.fruits[1].x, 10);
}

#[test]
fn lateral_overflow_ends_game_instantly() {
    let mut r = round_with_fruit(0, 2151, 0);
    assert!(r.end_game(16));
    let mut r2 = round_with_fruit(0, 2150, 0);
    assert!(!r2.end_game(16));
    let mut r3 = round_with_fruit(0, -2151, 0);
    assert!(r3.end_game(16));
}

#[test]
fn quit_request_ends_game() {
    let mut r = GameRound::new();
    r.controls.end_game = true;
    assert!(r.end_game(16));
}

#[test]
fn height_grace_short_then_clear_no_game_over() {
    // a settled tier-0 fruit above the line: margin 4 * 338 / 10 = 135, so
    // any y above 2250 - 135 = 2115 is at risk
    let mut r = round_with_fruit(0, 0, 2200);
    let h = r.fruits[0].handle;
    assert!(!r.end_game(100));  // condition detected: grace timer arms
    assert!(!r.end_game(100));
    assert!(!r.end_game(100));  // 0.3 s sustained, below the 0.5 s grace
    r.sync_fruit_motion(h, 0, 0, 0, 0);  // the fruit falls away
    assert!(!r.end_game(100));
    assert!(r.grace.is_none());  // timer discarded, to be re-armed afresh
    // the condition returning later starts a fresh countdown
    r.sync_fruit_motion(h, 0, 2200, 0, 0);
    assert!(!r.end_game(400));  // re-armed
    assert!(!r.end_game(400));  // 0.4 s, still below grace
    assert!(r.end_game(400));  // past 0.5 s with the condition held
}

#[test]
fn height_grace_sustained_ends_game() {
    let mut r = round_with_fruit(0, 0, 2200);
    assert!(!r.end_game(300));  // detected, timer arms
    assert!(!r.end_game(300));  // 0.3 s
    assert!(r.end_game(300));  // 0.6 s total: past the 0.5 s grace
}

#[test]
fn fast_fruit_above_line_is_not_at_risk() {
    let mut r = GameRound::new();
    r.spawn_collider_fruit(fruit_of(0), 0, 2200, 20);
    let h = r.fruits[0].handle;
    r.sync_fruit_motion(h, 0, 2200, 25, 25);  // speed^2 = 1250 >= 900
    assert!(!r.end_game(600));
    assert!(r.grace.is_none());
}

#[test]
fn height_margin_scales_with_fruit_size() {
    // tier 0: margin 4 * 338 / 10 = 135, threshold y > 2250 - 135 = 2115
    let mut r = round_with_fruit(0, 0, 2115);
    assert!(!r.end_game(600));
    assert!(r.grace.is_none());
    let mut r2 = round_with_fruit(0, 0, 2116);
    r2.end_game(16);
    assert!(r2.grace.is_some());
    // tier 10: margin 4 * 2350 / 10 = 940, threshold y > 1310
    let mut r3 = round_with_fruit(10, 0, 1310);
    assert!(!r3.end_game(600));
    assert!(r3.grace.is_none());
    let mut r4 = round_with_fruit(10, 0, 1311);
    r4.end_game(16);
    assert!(r4.grace.is_some());
}

#[test]
fn settling_speed_threshold_is_strict() {
    // at risk only when vx^2 + vy^2 < 30^2
    let mut r = round_with_fruit(0, 0, 2200);
    let h = r.fruits[0].handle;
    r.sync_fruit_motion(h, 0, 2200, 30, 0);  // exactly the threshold: not settled
    r.end_game(16);
    assert!(r.grace.is_none());
    r.sync_fruit_motion(h, 0, 2200, 29, 0);  // just below: settled
    r.end_game(16);
    assert!(r.grace.is_some());
}

#[test]
fn drop_with_no_preview_draws_low_tier() {
    let mut r = GameRound::new();
    r.spawn_active_fruit(fruit_of(1), 50);
    r.controls.drop = true;
    r.handle_active_fruit();
    assert_eq!(r.fruits.len(), 1);
    let a = r.active.unwrap();
    assert!((0..4).contains(&a.tier));
    assert_eq!(a.x, 50);
}

#[test]
fn reset_clears_round_state() {
    let mut r = round_with_fruit(5, 0, 0);
    r.score.0 = 42;
    r.score.1 = 50;
    r.spawn_active_fruit(fruit_of(1), 7);
    r.next = Some(NextFruit { tier: 2 });
    r.reset_game_state();
    assert_eq!(r.score.0, 0);
    assert_eq!(r.score.1, 50);
    assert!(r.fruits.is_empty());
    assert!(r.active.is_none());
    assert!(r.next.is_none());
    assert!(r.grace.is_none());
}
