//! Debounced per-frame logical input: once per tick the raw key state is
//! folded into a `Controls` value, with a cooldown timer gating repeated
//! drops so that one press causes at most one drop per cooldown period.

use vstd::prelude::*;
use crate::timer::{CoolDown, Timer};

verus! {

/// Minimum spacing between two drops, milliseconds.
pub const CLICK_DELAY_MS: u32 = 400;

/// Raw key state sampled by the input collaborator for one tick.
#[derive(Clone, Copy, Debug, PartialEq, Eq, Structural)]
pub struct KeyState {
    /// A move-left key is held.
    pub left: bool,
    /// A move-right key is held.
    pub right: bool,
    /// A drop key went down on this tick (edge-triggered).
    pub drop_pressed: bool,
    /// The confirm key went down on this tick (edge-triggered); starts a
    /// round from the menu or the game-over screen.
    pub confirm_pressed: bool,
    /// A quit key is held (level-triggered).
    pub quit: bool,
}

/// Debounced logical control state for one tick.
#[derive(Clone, Copy, Debug, PartialEq, Eq, Structural)]
pub struct Controls {
    /// Horizontal move direction: -1, 0 or 1.
    pub move_dir: i32,
    /// A drop fired recently and the cooldown has not yet elapsed.
    pub drop_lock: bool,
    /// A drop fires on this tick.
    pub drop: bool,
    /// The player asked to end the round.
    pub end_game: bool,
}

impl Controls {
    /// The move direction is one of -1, 0, 1.
    pub open spec fn wf(self) -> bool {
        -1 <= self.move_dir <= 1
    }

    /// Fresh controls: no movement, no pending drop, no quit request.
    pub fn new() -> (c: Controls)
        ensures
            c.wf(),
            c.move_dir == 0,
            !c.drop_lock,
            !c.drop,
            !c.end_game,
    {
        Controls { move_dir: 0, drop_lock: false, drop: false, end_game: false }
    }
}

/// The drop lock after the cooldown has ticked by `dt_ms`: it opens on the
/// tick the cooldown finishes.
pub open spec fn spec_lock_after_tick(c: Controls, cd: Timer, dt_ms: u32) -> bool {
    if !cd.spec_finished() && cd.elapsed_ms + dt_ms >= cd.duration_ms {
        false
    } else {
        c.drop_lock
    }
}

/// Whether a drop fires on this tick: a drop key went down and the lock from
/// the previous drop has opened.
pub open spec fn spec_drop_fires(c: Controls, cd: Timer, keys: KeyState, dt_ms: u32) -> bool {
    !spec_lock_after_tick(c, cd, dt_ms) && keys.drop_pressed
}

/// The move direction encoded by the held keys: both or neither held cancel
/// out to 0.
pub open spec fn spec_move_dir(keys: KeyState) -> int {
    (if keys.right { 1int } else { 0int }) - (if keys.left { 1int } else { 0int })
}

/// The whole input fold of one tick: `c1`/`cd1` are exactly the controls and
/// cooldown that folding `keys` over `dt_ms` into `c0`/`cd0` produces. The
/// cooldown advances and opens the drop lock on the tick it finishes; a quit
/// key latches `end_game`; a drop fires exactly when a drop key went down
/// while the lock is open, re-locking and re-arming the cooldown; held move
/// keys give the direction.
pub open spec fn spec_inputs_step(
    c0: Controls,
    cd0: CoolDown,
    keys: KeyState,
    dt_ms: u32,
    c1: Controls,
    cd1: CoolDown,
) -> bool {
    &&& c1.wf()
    &&& cd1.timer.wf()
    &&& cd1.timer.duration_ms == cd0.timer.duration_ms
    &&& c1.end_game == (c0.end_game || keys.quit)
    &&& c1.drop == spec_drop_fires(c0, cd0.timer, keys, dt_ms)
    &&& c1.drop_lock == (c1.drop || spec_lock_after_tick(c0, cd0.timer, dt_ms))
    &&& c1.move_dir == spec_move_dir(keys)
    &&& cd1.timer.elapsed_ms == if spec_drop_fires(c0, cd0.timer, keys, dt_ms) {
        0int
    } else if cd0.timer.elapsed_ms + dt_ms >= cd0.timer.duration_ms {
        cd0.timer.duration_ms as int
    } else {
        cd0.timer.elapsed_ms + dt_ms
    }
}

/// Folds one tick of raw key state into the logical controls, exactly as
/// `spec_inputs_step` describes.
pub fn handle_inputs(controls: &mut Controls, cooldown: &mut CoolDown, keys: &KeyState, dt_ms: u32)
    requires
        old(controls).wf(),
        old(cooldown).timer.wf(),
    ensures
        spec_inputs_step(
            *old(controls),
            *old(cooldown),
            *keys,
            dt_ms,
            *final(controls),
            *final(cooldown),
        ),
{
    let just_finished = cooldown.timer.tick(dt_ms);
    if just_finished {
        controls.drop_lock = false;
    }
    if keys.quit {
        controls.end_game = true;
    }
    if !controls.drop_lock && keys.drop_pressed {
        controls.drop = true;
        controls.drop_lock = true;
        cooldown.timer.reset();
    } else {
        controls.drop = false;
    }
    let mut move_dir: i32 = 0;
    if keys.left {
        move_dir = move_dir - 1;
    }
    if keys.right {
        move_dir = move_dir + 1;
    }
    controls.move_dir = move_dir;
}

} // verus!
