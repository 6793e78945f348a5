//! The top-level application flow: the start menu, a running round, and the
//! game-over screen, with the transitions between them and the fixed order
//! of the per-tick systems while a round runs.

use vstd::prelude::*;
use crate::controls::{KeyState, handle_inputs};
use crate::round::{GRACE_MS, GameRound, spec_active_step, spec_any_height_risk, spec_any_lateral_out, spec_end_game_step, spec_inputs_round_step, spec_max_x, spec_merge_step, spec_next_step, spec_pause_step};
use crate::score::{HighScore, spec_insert_desc};

verus! {

/// The application states. A confirm press leaves the menu or the game-over
/// screen for a fresh round; the boundary monitor or a quit request leaves
/// the round for the game-over screen.
#[derive(Clone, Copy, Debug, PartialEq, Eq, Structural)]
pub enum AppState {
    Menu,
    InGame,
    GameOver,
}

/// The whole game: the application state, the round state it drives, and
/// the persisted high-score list.
#[derive(Clone, Debug)]
pub struct Game {
    pub state: AppState,
    pub round: GameRound,
    pub highscore: HighScore,
}

impl Game {
    /// The round state and the high-score list are well formed.
    pub open spec fn wf(self) -> bool {
        &&& self.round.wf()
        &&& self.highscore.wf()
    }

    /// A fresh game at the menu, with the high-score list the persistence
    /// collaborator loaded (or the all-zero default).
    pub fn new(highscore: HighScore) -> (g: Game)
        requires
            highscore.wf(),
        ensures
            g.wf(),
            g.state is Menu,
            g.highscore == highscore,
            g.round.score.0 == 0 && g.round.score.1 == 0,
            g.round.active is None,
            g.round.next is None,
            g.round.fruits@.len() == 0,
            g.round.grace is None,
    {
        Game { state: AppState::Menu, round: GameRound::new(), highscore }
    }

    /// One tick of the whole game.
    ///
    /// In the menu and on the game-over screen, a confirm press enters a
    /// fresh round: the current score resets to 0 and all leftover fruit is
    /// cleared. While a round runs, the systems execute in their fixed
    /// order: controls, boundary monitor, active fruit, next fruit, merge
    /// resolver; when the boundary monitor or a quit request ends the round,
    /// the score is reconciled into the best score and the high-score list.
    ///
    /// Returns whether the round ended on this tick, which is exactly when
    /// the high-score list changed and should be persisted.
    pub fn tick(&mut self, keys: &KeyState, dt_ms: u32, events: &Vec<(u64, u64)>) -> (round_ended:
        bool)
        requires
            old(self).wf(),
            old(self).round.score.0 <= i32::MAX - 55,
            old(self).round.next_handle < u64::MAX - 1,
        ensures
            final(self).wf(),
            old(self).state is Menu || old(self).state is GameOver ==> ({
                &&& !round_ended
                &&& final(self).highscore == old(self).highscore
                &&& final(self).state == (if keys.confirm_pressed {
                    AppState::InGame
                } else {
                    old(self).state
                })
                &&& keys.confirm_pressed ==> (final(self).round.score.0 == 0 && final(self).round.score.1 == old(self).round.score.1 && final(self).round.fruits@.len() == 0
                    && final(self).round.active is None && final(self).round.next is None && final(self).round.grace is None)
                &&& !keys.confirm_pressed ==> final(self).round == old(self).round
            }),
            old(self).state is InGame ==> ({
                &&& round_ended == (final(self).state is GameOver)
                &&& round_ended == ((old(self).round.controls.end_game || keys.quit)
                    || spec_any_lateral_out(
                    old(self).round.fruits@,
                    spec_max_x(old(self).round.positions),
                ) || (spec_any_height_risk(
                    old(self).round.fruits@,
                    old(self).round.positions.cup_max_y as int,
                ) && (old(self).round.grace matches Some(t) && t.elapsed_ms + dt_ms >= GRACE_MS)))
                &&& exists|r1: GameRound, r2: GameRound, r3: GameRound, r4: GameRound, r5: GameRound|
                    #![trigger spec_inputs_round_step(old(self).round, r1, *keys, dt_ms), spec_end_game_step(r1, r2, dt_ms, round_ended), spec_active_step(r2, r3), spec_next_step(r3, r4), spec_merge_step(r4, r5, events@)]
                    {
                        &&& spec_inputs_round_step(old(self).round, r1, *keys, dt_ms)
                        &&& spec_end_game_step(r1, r2, dt_ms, round_ended)
                        &&& spec_active_step(r2, r3)
                        &&& spec_next_step(r3, r4)
                        &&& spec_merge_step(r4, r5, events@)
                        &&& if round_ended {
                            spec_pause_step(
                                r5,
                                final(self).round,
                                old(self).highscore,
                                final(self).highscore,
                            )
                        } else {
                            final(self).round == r5 && final(self).highscore == old(
                                self,
                            ).highscore
                        }
                    }
                &&& !round_ended ==> (final(self).state is InGame && final(self).highscore == old(self).highscore)
                &&& round_ended ==> (final(self).round.active is None && final(self).round.next is None && final(self).highscore.0@ == spec_insert_desc(
                    old(self).highscore.0@,
                    final(self).round.score.0,
                ) && (forall|i: int|
                    0 <= i < 8 ==> final(self).highscore.0@[i] >= old(self).highscore.0@[i]))
                &&& final(self).round.score.0 >= old(self).round.score.0
                &&& final(self).round.score.1 >= old(self).round.score.1
                &&& !round_ended ==> (final(self).round.active is Some && final(self).round.next is Some)
            }),
    {
        match self.state {
            AppState::Menu => {
                if keys.confirm_pressed {
                    self.state = AppState::InGame;
                    self.round.reset_game_state();
                }
                false
            },
            AppState::GameOver => {
                if keys.confirm_pressed {
                    self.state = AppState::InGame;
                    self.round.reset_game_state();
                }
                false
            },
            AppState::InGame => {
                handle_inputs(&mut self.round.controls, &mut self.round.cooldown, keys, dt_ms);
                let ghost g1 = self.round;
                let over = self.round.end_game(dt_ms);
                let ghost g2 = self.round;
                self.round.handle_active_fruit();
                let ghost g3 = self.round;
                self.round.handle_next_fruit();
                let ghost g4 = self.round;
                self.round.handle_merging(events);
                let ghost g5 = self.round;
                if over {
                    self.state = AppState::GameOver;
                    self.round.pause_state(&mut self.highscore);
                }
                proof {
                    assert(spec_inputs_round_step(old(self).round, g1, *keys, dt_ms));
                    assert(spec_end_game_step(g1, g2, dt_ms, over));
                    assert(spec_active_step(g2, g3));
                    assert(spec_next_step(g3, g4));
                    assert(spec_merge_step(g4, g5, events@));
                }
                over
            },
        }
    }
}

} // verus!
