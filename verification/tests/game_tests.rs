use suika::controls::{CLICK_DELAY_MS, Controls, KeyState, handle_inputs};
use suika::score::HighScore;
use suika::state::{AppState, Game};
use suika::tiers::fruit_of;
use suika::timer::{CoolDown, Timer};

fn no_keys() -> KeyState {
    KeyState {
        left: false,
        right: false,
        drop_pressed: false,
        confirm_pressed: false,
        quit: false,
    }
}

#[test]
fn timer_one_shot_countdown() {
    let mut t = Timer::new(500);
    assert!(!t.finished());
    assert!(!t.tick(300));
    assert!(!t.finished());
    assert!(t.tick(300));  // crosses the duration on this tick
    assert!(t.finished());
    assert!(!t.tick(100));  // already finished: not "just" finished again
    t.reset();
    assert!(!t.finished());
}

#[test]
fn drop_debounce_and_cooldown() {
    let mut c = Controls::new();
    let mut cd = CoolDown { timer: Timer::new(CLICK_DELAY_MS) };
    let press = KeyState { drop_pressed: true, ..no_keys() };
    handle_inputs(&mut c, &mut cd, &press, 16);
    assert!(c.drop);  // first press fires
    handle_inputs(&mut c, &mut cd, &press, 16);
    assert!(!c.drop);  // locked while the cooldown runs
    handle_inputs(&mut c, &mut cd, &press, 400);
    assert!(c.drop);  // cooldown elapsed: fires again
}

#[test]
fn move_direction_from_keys() {
    let mut c = Controls::new();
    let mut cd = CoolDown { timer: Timer::new(CLICK_DELAY_MS) };
    handle_inputs(&mut c, &mut cd, &KeyState { left: true, ..no_keys() }, 16);
    assert_eq!(c.move_dir, -1);
    handle_inputs(&mut c, &mut cd, &KeyState { right: true, ..no_keys() }, 16);
    assert_eq!(c.move_dir, 1);
    handle_inputs(&mut c, &mut cd, &KeyState { left: true, right: true, ..no_keys() }, 16);
    assert_eq!(c.move_dir, 0);
    handle_inputs(&mut c, &mut cd, &no_keys(), 16);
    assert_eq!(c.move_dir, 0);
}

#[test]
fn quit_key_latches_end_game() {
    let mut c = Controls::new();
    let mut cd = CoolDown { timer: Timer::new(CLICK_DELAY_MS) };
    handle_inputs(&mut c, &mut cd, &KeyState { quit: true, ..no_keys() }, 16);
    assert!(c.end_game);
    handle_inputs(&mut c, &mut cd, &no_keys(), 16);
    assert!(c.end_game);
}

#[test]
fn random_tier_draws_stay_in_range() {
    // the next-fruit preview draws through the randomness wrapper; over
    // many draws every value must stay inside the low-tier range
    for _ in 0..50 {
        let mut r = suika::round::GameRound::new();
        r.handle_next_fruit();
        let n = r.next.unwrap();
        assert!((0..5).contains(&n.tier));
    }
}

#[test]
fn menu_confirm_enters_round() {
    let mut g = Game::new(HighScore::default_list());
    assert_eq!(g.state, AppState::Menu);
    let ended = g.tick(&no_keys(), 16, &vec![]);
    assert!(!ended);
    assert_eq!(g.state, AppState::Menu);
    let confirm = KeyState { confirm_pressed: true, ..no_keys() };
    let ended = g.tick(&confirm, 16, &vec![]);
    assert!(!ended);
    assert_eq!(g.state, AppState::InGame);
    assert_eq!(g.round.score.0, 0);
}

#[test]
fn quit_reconciles_scores_and_round_reset_clears_leftovers() {
    let mut g = Game::new(HighScore::default_list());
    let confirm = KeyState { confirm_pressed: true, ..no_keys() };
    g.tick(&confirm, 16, &vec![]);
    assert_eq!(g.state, AppState::InGame);
    // a running round with some score and leftover fruit
    g.round.score.0 = 77;
    g.round.spawn_collider_fruit(fruit_of(1), 0, 0, 20);
    let quit = KeyState { quit: true, ..no_keys() };
    let ended = g.tick(&quit, 16, &vec![]);
    assert!(ended);
    assert_eq!(g.state, AppState::GameOver);
    // the best score absorbed the round score; the list took it up
    assert_eq!(g.round.score.1, 77);
    assert_eq!(g.highscore.0[0], 77);
    assert!(g.round.active.is_none());
    assert!(g.round.next.is_none());
    // entering the next round clears everything left over
    let ended = g.tick(&confirm, 16, &vec![]);
    assert!(!ended);
    assert_eq!(g.state, AppState::InGame);
    assert_eq!(g.round.score.0, 0);
    assert_eq!(g.round.score.1, 77);
    assert_eq!(g.round.fruits.len(), 0);
    assert!(g.round.grace.is_none());
}

#[test]
fn game_over_confirm_restarts() {
    let mut g = Game::new(HighScore::default_list());
    let confirm = KeyState { confirm_pressed: true, ..no_keys() };
    g.tick(&confirm, 16, &vec![]);
    let quit = KeyState { quit: true, ..no_keys() };
    g.tick(&quit, 16, &vec![]);
    assert_eq!(g.state, AppState::GameOver);
    g.tick(&no_keys(), 16, &vec![]);
    assert_eq!(g.state, AppState::GameOver);
    g.tick(&confirm, 16, &vec![]);
    assert_eq!(g.state, AppState::InGame);
}

#[test]
fn in_game_tick_spawns_active_and_next() {
    let mut g = Game::new(HighScore::default_list());
    let confirm = KeyState { confirm_pressed: true, ..no_keys() };
    g.tick(&confirm, 16, &vec![]);
    let ended = g.tick(&no_keys(), 16, &vec![]);
    assert!(!ended);
    let a = g.round.active.unwrap();
    assert!((0..5).contains(&a.tier));
    assert_eq!(a.x, 0);
    let n = g.round.next.unwrap();
    assert!((0..5).contains(&n.tier));
}

#[test]
fn in_game_drop_tick_produces_body_same_tick() {
    let mut g = Game::new(HighScore::default_list());
    let confirm = KeyState { confirm_pressed: true, ..no_keys() };
    g.tick(&confirm, 16, &vec![]);
    g.tick(&no_keys(), 16, &vec![]);  // spawns active and next
    let prior = g.round.active.unwrap();
    let next_tier = g.round.next.unwrap().tier;
    let press = KeyState { drop_pressed: true, ..no_keys() };
    let ended = g.tick(&press, 16, &vec![]);
    assert!(!ended);
    assert_eq!(g.round.fruits.len(), 1);
    assert_eq!(g.round.fruits[0].tier, prior.tier);
    assert_eq!(g.round.fruits[0].x, prior.x);
    let fresh = g.round.active.unwrap();
    assert_eq!(fresh.tier, next_tier);
    assert_eq!(fresh.x, prior.x);
}
