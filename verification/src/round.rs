//! The state of one round and the per-tick systems that drive it: spawning
//! and steering the active fruit, replenishing the next-fruit preview,
//! resolving merges from collision events, and watching the container bounds
//! for the game-over conditions.

use vstd::prelude::*;
use crate::controls::{CLICK_DELAY_MS, Controls, KeyState, spec_inputs_step};
use crate::fruits::{ActiveFruit, NextFruit, PhysicalFruit};
use crate::geom::{CONTAINER_T, MOVE_SPEED, Positions, clamp_x, move_limit, spec_clamp, spec_move_limit};
use crate::rng::pick_in_range;
use crate::score::{HighScore, Score, merge_into_high_scores, spec_insert_desc};
use crate::tiers::{Fruit, MAX_TIER, TIER_COUNT, fruit_of, spec_tier_score, spec_tier_size};
use crate::timer::{CoolDown, Timer};

verus! {

/// Grace period between first detecting the height condition and ending the
/// game, milliseconds.
pub const GRACE_MS: u32 = 500;

/// All mutable state of one round, owned by the game tick: the score ledger,
/// the debounced controls with their drop cooldown, the at-most-one active
/// and next fruits, the mirrored physical fruit population, and the single
/// global grace timer for the height game-over condition.
#[derive(Clone, Debug)]
pub struct GameRound {
    pub score: Score,
    pub controls: Controls,
    pub cooldown: CoolDown,
    pub active: Option<ActiveFruit>,
    pub next: Option<NextFruit>,
    pub fruits: Vec<PhysicalFruit>,
    pub grace: Option<Timer>,
    pub next_handle: u64,
    pub positions: Positions,
}

impl GameRound {
    /// Every physical fruit has a catalog tier and a body handle that is
    /// unique and below the allocation counter.
    pub open spec fn fruits_wf(self) -> bool {
        &&& forall|i: int|
            0 <= i < self.fruits@.len() ==> 0 <= (#[trigger] self.fruits@[i]).tier < TIER_COUNT
        &&& forall|i: int|
            0 <= i < self.fruits@.len() ==> (#[trigger] self.fruits@[i]).handle < self.next_handle
        &&& forall|i: int, j: int|
            0 <= i < j < self.fruits@.len() ==> (#[trigger] self.fruits@[i]).handle != (
            #[trigger] self.fruits@[j]).handle
    }

    /// Round invariant: controls and timers well formed, the geometry is the
    /// standard container, active and next fruits hold catalog tiers, the
    /// active fruit sits between the walls, and the fruit population is well
    /// formed.
    pub open spec fn wf(self) -> bool {
        &&& self.controls.wf()
        &&& self.cooldown.timer.wf()
        &&& self.cooldown.timer.duration_ms == CLICK_DELAY_MS
        &&& self.positions == Positions::spec_standard()
        &&& (self.active matches Some(a) ==> 0 <= a.tier < TIER_COUNT
            && -self.positions.cup_right_x <= a.x <= self.positions.cup_right_x)
        &&& (self.next matches Some(n) ==> 0 <= n.tier < TIER_COUNT)
        &&& (self.grace matches Some(t) ==> t.wf() && t.duration_ms == GRACE_MS)
        &&& self.fruits_wf()
    }

    /// A fresh round in the standard container: zero scores, fresh controls,
    /// no fruit anywhere, no grace timer running.
    pub fn new() -> (r: GameRound)
        ensures
            r.wf(),
            r.score == (Score(0, 0)),
            r.controls.move_dir == 0 && !r.controls.drop && !r.controls.drop_lock
                && !r.controls.end_game,
            r.cooldown.timer.elapsed_ms == 0,
            r.active is None,
            r.next is None,
            r.fruits@.len() == 0,
            r.grace is None,
            r.next_handle == 0,
            r.positions == Positions::spec_standard(),
    {
        GameRound {
            score: Score(0, 0),
            controls: Controls::new(),
            cooldown: CoolDown { timer: Timer::new(CLICK_DELAY_MS) },
            active: None,
            next: None,
            fruits: Vec::new(),
            grace: None,
            next_handle: 0,
            positions: Positions::standard(),
        }
    }

    /// Entry into a round: the current score resets to 0 (the best score is
    /// kept), controls and cooldown are recreated fresh, and any leftover
    /// active fruit, next fruit, physical fruit and grace timer from a prior
    /// round are cleared.
    pub fn reset_game_state(&mut self)
        requires
            old(self).wf(),
        ensures
            final(self).wf(),
            final(self).score.0 == 0,
            final(self).score.1 == old(self).score.1,
            final(self).controls.move_dir == 0 && !final(self).controls.drop
                && !final(self).controls.drop_lock && !final(self).controls.end_game,
            final(self).cooldown.timer.elapsed_ms == 0,
            final(self).cooldown.timer.duration_ms == CLICK_DELAY_MS,
            final(self).active is None,
            final(self).next is None,
            final(self).fruits@.len() == 0,
            final(self).grace is None,
            final(self).next_handle == old(self).next_handle,
            final(self).positions == old(self).positions,
    {
        self.score.0 = 0;
        self.controls = Controls::new();
        self.cooldown = CoolDown { timer: Timer::new(CLICK_DELAY_MS) };
        self.active = None;
        self.next = None;
        self.fruits = Vec::new();
        self.grace = None;
    }

    /// Creates the player-controlled active fruit for `fruit`'s tier at the
    /// given x position; nothing else changes.
    pub fn spawn_active_fruit(&mut self, fruit: Fruit, x_pos: i32)
        requires
            old(self).wf(),
            0 <= fruit.id < TIER_COUNT,
            -old(self).positions.cup_right_x <= x_pos <= old(self).positions.cup_right_x,
        ensures
            final(self).wf(),
            final(self).active matches Some(a) && a.tier == fruit.id && a.x == x_pos,
            final(self).score == old(self).score,
            final(self).controls == old(self).controls,
            final(self).cooldown == old(self).cooldown,
            final(self).next == old(self).next,
            final(self).fruits@ == old(self).fruits@,
            final(self).grace == old(self).grace,
            final(self).next_handle == old(self).next_handle,
            final(self).positions == old(self).positions,
    {
        self.active = Some(ActiveFruit { tier: fruit.id, x: x_pos });
    }

    /// Hands a new fruit body of `cur_fruit`'s tier to the physics
    /// collaborator: the body starts at `(x, y)` with zero linear velocity
    /// and an angular velocity derived from the depth jitter `z` (tenths),
    /// and is appended to the mirrored population under a fresh handle.
    pub fn spawn_collider_fruit(&mut self, cur_fruit: Fruit, x: i32, y: i32, z: i32)
        requires
            old(self).wf(),
            0 <= cur_fruit.id < TIER_COUNT,
            old(self).next_handle < u64::MAX,
            20 <= z < 50,
        ensures
            final(self).wf(),
            final(self).fruits@ == old(self).fruits@.push(
                (PhysicalFruit {
                    handle: old(self).next_handle,
                    tier: cur_fruit.id,
                    x: x,
                    y: y,
                    vx: 0,
                    vy: 0,
                    angvel: ((z - 35) * 2) as i32,
                }),
            ),
            final(self).next_handle == old(self).next_handle + 1,
            final(self).score == old(self).score,
            final(self).controls == old(self).controls,
            final(self).cooldown == old(self).cooldown,
            final(self).active == old(self).active,
            final(self).next == old(self).next,
            final(self).grace == old(self).grace,
            final(self).positions == old(self).positions,
    {
        let angvel = (z - 35) * 2;
        let f = PhysicalFruit {
            handle: self.next_handle,
            tier: cur_fruit.id,
            x,
            y,
            vx: 0,
            vy: 0,
            angvel,
        };
        self.fruits.push(f);
        self.next_handle = self.next_handle + 1;
    }

    /// Boundary monitor, run once per tick: ends the round when the player
    /// asked to quit, when a fruit has escaped the container sideways, or
    /// when a fruit has been settled near the top for the whole grace
    /// period.
    ///
    /// The grace timer is global and one-shot: it arms on the first tick the
    /// height condition is detected, rides through later detections, fires
    /// when it has run for `GRACE_MS` while the condition still holds, and
    /// is discarded the moment the condition clears.
    pub fn end_game(&mut self, dt_ms: u32) -> (game_over: bool)
        requires
            old(self).wf(),
        ensures
            spec_end_game_step(*old(self), *final(self), dt_ms, game_over),
    {
        let mut over = self.controls.end_game;
        let max_x = self.positions.cup_right_x + CONTAINER_T;
        let max_y = self.positions.cup_max_y;

        // scan the population for the two fail conditions
        let mut lateral = false;
        let mut height = false;
        let n = self.fruits.len();
        let mut i: usize = 0;
        while i < n
            invariant
                self.wf(),
                n == self.fruits@.len(),
                0 <= i <= n,
                max_x == spec_max_x(self.positions),
                max_y == self.positions.cup_max_y,
                lateral == (exists|k: int|
                    0 <= k < i && spec_lateral_out(#[trigger] self.fruits@[k], max_x as int)),
                height == (exists|k: int|
                    0 <= k < i && spec_height_risk(#[trigger] self.fruits@[k], max_y as int)),
            decreases n - i,
        {
            let f = self.fruits[i];
            if f.x > max_x || f.x < -max_x {
                lateral = true;
            }
            let size = fruit_of(f.tier).size;
            let margin = 4 * size / 10;
            if crate::fruits::below_min_speed(f.vx, f.vy) && f.y > max_y - margin {
                height = true;
            }
            i = i + 1;
        }
        if lateral {
            over = true;
        }
        // single global grace timer for the height condition
        if height {
            match self.grace {
                Some(t) => {
                    let mut ticked = t;
                    ticked.tick(dt_ms);
                    if ticked.finished() {
                        over = true;
                    }
                    self.grace = Some(ticked);
                },
                None => {
                    self.grace = Some(Timer::new(GRACE_MS));
                },
            }
        } else {
            self.grace = None;
        }
        over
    }

    /// Spawn controller for the active fruit, run once per tick.
    ///
    /// With an active fruit and a pending drop: the active fruit becomes one
    /// new physical fruit at its current x and the drop height, and a new
    /// active fruit appears in the same tick at the same x, taking the next
    /// fruit's tier (or a random low tier when no next fruit exists yet).
    /// With an active fruit and no drop: the fruit moves by `MOVE_SPEED`
    /// times the move direction, hard-clamped to the walls. With no active
    /// fruit: a fresh one appears at the centre.
    pub fn handle_active_fruit(&mut self)
        requires
            old(self).wf(),
            old(self).next_handle < u64::MAX,
        ensures
            spec_active_step(*old(self), *final(self)),
    {
        let active = self.active;
        match active {
            Some(af) => {
                if self.controls.drop {
                    let cur_fruit = fruit_of(af.tier);
                    let cur_z = pick_in_range(20, 50);
                    let drop_y = self.positions.cup_max_y + fruit_of(5).size / 2;
                    // the active fruit becomes a physical body at its x
                    self.spawn_collider_fruit(cur_fruit, af.x, drop_y, cur_z);
                    // promote the next fruit's tier into a fresh active fruit
                    // at the same x, within the same tick
                    let num = match self.next {
                        Some(nf) => nf.tier,
                        None => pick_in_range(0, 4),
                    };
                    let next_active = fruit_of(num);
                    self.spawn_active_fruit(next_active, af.x);
                    proof {
                        assert(self.fruits@.subrange(0, old(self).fruits@.len() as int)
                            =~= old(self).fruits@);
                    }
                } else {
                    let limit = move_limit(&self.positions, fruit_of(af.tier).size);
                    let new_x = af.x + MOVE_SPEED * self.controls.move_dir;
                    let clamped = clamp_x(new_x, limit);
                    self.active = Some(ActiveFruit { tier: af.tier, x: clamped });
                }
            },
            None => {
                let num = match self.next {
                    Some(nf) => nf.tier,
                    None => pick_in_range(0, 3),
                };
                let next_active = fruit_of(num);
                self.spawn_active_fruit(next_active, 0);
            },
        }
    }

    /// Preview controller for the next fruit, run once per tick after the
    /// active-fruit step: when the preview was just consumed by a drop, or
    /// none exists yet, a fresh one is drawn uniformly from the low tiers.
    pub fn handle_next_fruit(&mut self)
        requires
            old(self).wf(),
        ensures
            spec_next_step(*old(self), *final(self)),
    {
        match self.next {
            Some(_) => {
                if self.controls.drop {
                    let num = pick_in_range(0, 5);
                    self.next = Some(NextFruit { tier: num });
                }
            },
            None => {
                let num = pick_in_range(0, 5);
                self.next = Some(NextFruit { tier: num });
            },
        }
    }

    /// Refreshes the mirrored position and velocity of the body `handle`
    /// from the physics collaborator's simulation step. A handle that no
    /// longer resolves to a fruit (already consumed by a merge) is silently
    /// ignored.
    pub fn sync_fruit_motion(&mut self, handle: u64, x: i32, y: i32, vx: i32, vy: i32)
        requires
            old(self).wf(),
        ensures
            final(self).wf(),
            final(self).score == old(self).score,
            final(self).controls == old(self).controls,
            final(self).cooldown == old(self).cooldown,
            final(self).active == old(self).active,
            final(self).next == old(self).next,
            final(self).grace == old(self).grace,
            final(self).next_handle == old(self).next_handle,
            final(self).positions == old(self).positions,
            (forall|i: int|
                0 <= i < old(self).fruits@.len() ==> (#[trigger] old(self).fruits@[i]).handle
                    != handle) ==> final(self).fruits@ == old(self).fruits@,
            (exists|i: int|
                0 <= i < old(self).fruits@.len() && (#[trigger] old(self).fruits@[i]).handle
                    == handle) ==> (exists|i: int|
                {
                    &&& 0 <= i < old(self).fruits@.len()
                    &&& (#[trigger] old(self).fruits@[i]).handle == handle
                    &&& final(self).fruits@ == old(self).fruits@.update(
                        i,
                        (PhysicalFruit {
                            handle,
                            tier: old(self).fruits@[i].tier,
                            x,
                            y,
                            vx,
                            vy,
                            angvel: old(self).fruits@[i].angvel,
                        }),
                    )
                }),
    {
        let n = self.fruits.len();
        let mut i: usize = 0;
        while i < n
            invariant
                *self == *old(self),
                self.wf(),
                n == self.fruits@.len(),
                0 <= i <= n,
                forall|k: int| 0 <= k < i ==> (#[trigger] self.fruits@[k]).handle != handle,
            decreases n - i,
        {
            if self.fruits[i].handle == handle {
                let f = self.fruits[i];
                self.fruits[i] = PhysicalFruit {
                    handle,
                    tier: f.tier,
                    x,
                    y,
                    vx,
                    vy,
                    angvel: f.angvel,
                };
                return ;
            }
            i = i + 1;
        }
    }

    /// Merge resolver, run once per tick on the collision-start events the
    /// physics collaborator reported, in report order.
    ///
    /// The first event whose two handles resolve to distinct fruits of equal
    /// tier `t < MAX_TIER` is resolved atomically: both fruits leave the
    /// population, one fruit of tier `t + 1` appears at their midpoint with
    /// zero linear velocity, and `t + 1`'s score value is credited exactly
    /// once. At most one merge resolves per tick; remaining pairs are
    /// re-detected on later ticks. Events that reference the container or an
    /// already-consumed body, pairs of unequal tier, and pairs at the
    /// maximum tier are skipped.
    pub fn handle_merging(&mut self, events: &Vec<(u64, u64)>)
        requires
            old(self).wf(),
            old(self).score.0 <= i32::MAX - 55,
            old(self).next_handle < u64::MAX,
        ensures
            spec_merge_step(*old(self), *final(self), events@),
    {
        let ne = events.len();
        let mut k: usize = 0;
        while k < ne
            invariant
                *self == *old(self),
                self.wf(),
                self.score.0 <= i32::MAX - 55,
                self.next_handle < u64::MAX,
                ne == events@.len(),
                0 <= k <= ne,
                forall|m: int|
                    0 <= m < k ==> !spec_qualifying(self.fruits@, #[trigger] events@[m]),
            decreases ne - k,
        {
            let e = events[k];
            let ia = find_fruit(&self.fruits, e.0);
            let ib = find_fruit(&self.fruits, e.1);
            match (ia, ib) {
                (Some(i), Some(j)) => {
                    let fa = self.fruits[i];
                    let fb = self.fruits[j];
                    if i != j && fa.tier == fb.tier && fa.tier < MAX_TIER {
                        let ghost pre = self.fruits@;
                        // this event merges: both sources leave, the
                        // next-tier fruit appears at their midpoint
                        assert(spec_qualifying(self.fruits@, events@[k as int]));
                        let z = pick_in_range(20, 50);
                        let mx = midpoint(fa.x, fb.x);
                        let my = midpoint(fa.y, fb.y);
                        let lo = if i < j {
                            i
                        } else {
                            j
                        };
                        let hi = if i < j {
                            j
                        } else {
                            i
                        };
                        self.fruits.remove(hi);
                        proof {
                            pre.remove_ensures(hi as int);
                            lemma_remove_keeps_fruits_wf(pre, hi as int, self.next_handle);
                        }
                        let ghost mid1 = self.fruits@;
                        self.fruits.remove(lo);
                        proof {
                            mid1.remove_ensures(lo as int);
                            lemma_remove_keeps_fruits_wf(mid1, lo as int, self.next_handle);
                        }
                        let new_fruit = fruit_of(fa.tier + 1);
                        self.spawn_collider_fruit(new_fruit, mx, my, z);
                        self.score.0 = self.score.0 + new_fruit.score;
                        proof {
                            let fs = final(self).fruits@;
                            assert(fs == spec_merged(pre, i as int, j as int, fs.last()));
                        }
                        return ;
                    } else {
                        proof {
                            if spec_qualifying(self.fruits@, events@[k as int]) {
                                let (i0, j0) = choose|i0: int, j0: int|
                                    {
                                        &&& 0 <= i0 < self.fruits@.len()
                                        &&& 0 <= j0 < self.fruits@.len()
                                        &&& i0 != j0
                                        &&& (#[trigger] self.fruits@[i0]).handle == events@[
                                            k as int].0
                                        &&& (#[trigger] self.fruits@[j0]).handle == events@[
                                            k as int].1
                                        &&& self.fruits@[i0].tier == self.fruits@[j0].tier
                                        &&& self.fruits@[i0].tier < MAX_TIER
                                    };
                                lemma_handle_unique(self.fruits@, i0, i as int);
                                lemma_handle_unique(self.fruits@, j0, j as int);
                                assert(false);
                            }
                        }
                    }
                },
                _ => {
                    proof {
                        if spec_qualifying(self.fruits@, events@[k as int]) {
                            let (i0, j0) = choose|i0: int, j0: int|
                                {
                                    &&& 0 <= i0 < self.fruits@.len()
                                    &&& 0 <= j0 < self.fruits@.len()
                                    &&& i0 != j0
                                    &&& (#[trigger] self.fruits@[i0]).handle == events@[k as int].0
                                    &&& (#[trigger] self.fruits@[j0]).handle == events@[k as int].1
                                    &&& self.fruits@[i0].tier == self.fruits@[j0].tier
                                    &&& self.fruits@[i0].tier < MAX_TIER
                                };
                            assert(false);
                        }
                    }
                },
            }
            k = k + 1;
        }
    }

    /// Exit from a round: the best score absorbs the round score where it
    /// beat it, the round score is merged into the persisted high-score
    /// list, and the controls, active fruit, next fruit and grace timer are
    /// released. The physical fruit bodies stay in place so the game-over
    /// screen can keep displaying them; entry into the next round clears
    /// them.
    pub fn pause_state(&mut self, highscore: &mut HighScore)
        requires
            old(self).wf(),
            old(highscore).wf(),
        ensures
            spec_pause_step(*old(self), *final(self), *old(highscore), *final(highscore)),
    {
        // release the per-round singletons
        self.active = None;
        self.next = None;
        self.grace = None;
        self.controls = Controls::new();
        self.cooldown = CoolDown { timer: Timer::new(CLICK_DELAY_MS) };
        // the best score absorbs the round score
        if self.score.0 > self.score.1 {
            self.score.1 = self.score.0;
        }
        // merge the round score into the persisted list
        merge_into_high_scores(highscore, self.score.0);
    }
}

/// One tick of the input fold, seen at the round level: the controls and
/// the cooldown fold `keys` in exactly as `spec_inputs_step` says, and
/// nothing else of the round changes.
pub open spec fn spec_inputs_round_step(
    pre: GameRound,
    post: GameRound,
    keys: KeyState,
    dt_ms: u32,
) -> bool {
    &&& spec_inputs_step(pre.controls, pre.cooldown, keys, dt_ms, post.controls, post.cooldown)
    &&& post.score == pre.score
    &&& post.active == pre.active
    &&& post.next == pre.next
    &&& post.fruits@ == pre.fruits@
    &&& post.grace == pre.grace
    &&& post.next_handle == pre.next_handle
    &&& post.positions == pre.positions
}

/// One tick of the boundary monitor: the round is untouched but for the
/// grace timer, and `game_over` holds exactly when the player asked to
/// quit, a fruit escaped sideways, or a fruit was settled near the top with
/// the grace timer expiring on this tick. The grace timer arms on first
/// detection, advances one `spec_ticked` step per detected tick, and is
/// discarded the moment the height condition clears.
pub open spec fn spec_end_game_step(
    pre: GameRound,
    post: GameRound,
    dt_ms: u32,
    game_over: bool,
) -> bool {
    &&& post.wf()
    &&& post.score == pre.score
    &&& post.controls == pre.controls
    &&& post.cooldown == pre.cooldown
    &&& post.active == pre.active
    &&& post.next == pre.next
    &&& post.fruits@ == pre.fruits@
    &&& post.next_handle == pre.next_handle
    &&& post.positions == pre.positions
    &&& game_over == (pre.controls.end_game || spec_any_lateral_out(
        pre.fruits@,
        spec_max_x(pre.positions),
    ) || (spec_any_height_risk(pre.fruits@, pre.positions.cup_max_y as int) && (
    pre.grace matches Some(t) && t.elapsed_ms + dt_ms >= GRACE_MS)))
    &&& !spec_any_height_risk(pre.fruits@, pre.positions.cup_max_y as int) ==> post.grace is None
    &&& (spec_any_height_risk(pre.fruits@, pre.positions.cup_max_y as int) && pre.grace is None)
        ==> (post.grace matches Some(t) && t.duration_ms == GRACE_MS && t.elapsed_ms == 0)
    &&& pre.grace matches Some(t0) ==> (spec_any_height_risk(
        pre.fruits@,
        pre.positions.cup_max_y as int,
    ) ==> post.grace == Some(crate::timer::spec_ticked(t0, dt_ms)))
}

/// One tick of the active-fruit spawn controller. With an active fruit and
/// a pending drop: exactly one new physical fruit of the active tier
/// appears at its x and the drop height with zero linear velocity, and a
/// new active fruit takes the next fruit's tier (a random low tier when no
/// preview exists) at the same x. With an active fruit and no drop: the
/// fruit takes the clamped step. With none: a fresh one appears at the
/// centre. Nothing else of the round changes.
pub open spec fn spec_active_step(pre: GameRound, post: GameRound) -> bool {
    &&& post.wf()
    &&& post.score == pre.score
    &&& post.controls == pre.controls
    &&& post.cooldown == pre.cooldown
    &&& post.next == pre.next
    &&& post.grace == pre.grace
    &&& post.positions == pre.positions
    &&& pre.active matches Some(af) ==> pre.controls.drop ==> ({
        &&& post.fruits@.len() == pre.fruits@.len() + 1
        &&& post.fruits@.subrange(0, pre.fruits@.len() as int) == pre.fruits@
        &&& post.fruits@.last().handle == pre.next_handle
        &&& post.fruits@.last().tier == af.tier
        &&& post.fruits@.last().x == af.x
        &&& post.fruits@.last().y == spec_drop_y(pre.positions)
        &&& post.fruits@.last().vx == 0
        &&& post.fruits@.last().vy == 0
        &&& -30 <= post.fruits@.last().angvel < 30
        &&& post.next_handle == pre.next_handle + 1
        &&& (post.active matches Some(a2) && a2.x == af.x && (pre.next matches Some(nf)
            ==> a2.tier == nf.tier) && (pre.next is None ==> 0 <= a2.tier < 4))
    })
    &&& pre.active matches Some(af) ==> !pre.controls.drop ==> ({
        &&& post.fruits@ == pre.fruits@
        &&& post.next_handle == pre.next_handle
        &&& (post.active matches Some(a2) && a2.tier == af.tier && a2.x == spec_clamp(
            af.x + MOVE_SPEED * pre.controls.move_dir,
            spec_move_limit(pre.positions.cup_right_x as int, spec_tier_size(af.tier as int)),
        ))
    })
    &&& (pre.active is None) ==> ({
        &&& post.fruits@ == pre.fruits@
        &&& post.next_handle == pre.next_handle
        &&& (post.active matches Some(a2) && a2.x == 0 && (pre.next matches Some(nf) ==> a2.tier
            == nf.tier) && (pre.next is None ==> 0 <= a2.tier < 3))
    })
}

/// One tick of the next-fruit preview controller: a preview consumed by a
/// drop, or absent, is drawn afresh from the low tiers; otherwise it is
/// kept. Nothing else of the round changes.
pub open spec fn spec_next_step(pre: GameRound, post: GameRound) -> bool {
    &&& post.wf()
    &&& post.score == pre.score
    &&& post.controls == pre.controls
    &&& post.cooldown == pre.cooldown
    &&& post.active == pre.active
    &&& post.fruits@ == pre.fruits@
    &&& post.grace == pre.grace
    &&& post.next_handle == pre.next_handle
    &&& post.positions == pre.positions
    &&& (pre.next matches Some(nf) && !pre.controls.drop) ==> post.next == pre.next
    &&& (pre.next is None || pre.controls.drop) ==> (post.next matches Some(n2) && 0 <= n2.tier
        < 5)
}

/// One tick of the merge resolver over the reported collision events. With
/// no qualifying event the round's population, score and handle counter are
/// unchanged; otherwise the first qualifying event merges exactly: its two
/// fruits leave, one fruit of the next tier appears at their midpoint under
/// a fresh handle, and that tier's score value is credited once.
pub open spec fn spec_merge_step(pre: GameRound, post: GameRound, events: Seq<(u64, u64)>) -> bool {
    &&& post.wf()
    &&& post.score.1 == pre.score.1
    &&& post.controls == pre.controls
    &&& post.cooldown == pre.cooldown
    &&& post.active == pre.active
    &&& post.next == pre.next
    &&& post.grace == pre.grace
    &&& post.positions == pre.positions
    &&& (forall|m: int|
        0 <= m < events.len() ==> !spec_qualifying(pre.fruits@, #[trigger] events[m])) ==> (
    post.fruits@ == pre.fruits@ && post.score == pre.score && post.next_handle == pre.next_handle)
    &&& (exists|m: int|
        0 <= m < events.len() && spec_qualifying(pre.fruits@, #[trigger] events[m])) ==> (exists|
        k: int,
        i: int,
        j: int,
    |
        #![trigger events[k], pre.fruits@[i], pre.fruits@[j]]
        {
            &&& 0 <= k < events.len()
            &&& spec_qualifying(pre.fruits@, events[k])
            &&& forall|m: int|
                0 <= m < k ==> !spec_qualifying(pre.fruits@, #[trigger] events[m])
            &&& 0 <= i < pre.fruits@.len()
            &&& 0 <= j < pre.fruits@.len()
            &&& i != j
            &&& pre.fruits@[i].handle == events[k].0
            &&& pre.fruits@[j].handle == events[k].1
            &&& pre.fruits@[i].tier == pre.fruits@[j].tier
            &&& pre.fruits@[i].tier < MAX_TIER
            &&& post.fruits@.len() == pre.fruits@.len() - 1
            &&& post.fruits@ == spec_merged(pre.fruits@, i, j, post.fruits@.last())
            &&& post.fruits@.last().handle == pre.next_handle
            &&& post.fruits@.last().tier == pre.fruits@[i].tier + 1
            &&& post.fruits@.last().x == spec_midpoint(
                pre.fruits@[i].x as int,
                pre.fruits@[j].x as int,
            )
            &&& post.fruits@.last().y == spec_midpoint(
                pre.fruits@[i].y as int,
                pre.fruits@[j].y as int,
            )
            &&& post.fruits@.last().vx == 0
            &&& post.fruits@.last().vy == 0
            &&& -30 <= post.fruits@.last().angvel < 30
            &&& post.next_handle == pre.next_handle + 1
            &&& post.score.0 == pre.score.0 + spec_tier_score(pre.fruits@[i].tier + 1)
        })
}

/// The round's exit step: the best score absorbs the round score where it
/// beat it, the round score is merged into the high-score list, and the
/// controls, cooldown, active fruit, next fruit and grace timer are torn
/// down to their fresh states. The fruit bodies stay for the game-over
/// display.
pub open spec fn spec_pause_step(
    pre: GameRound,
    post: GameRound,
    hs0: HighScore,
    hs1: HighScore,
) -> bool {
    &&& post.wf()
    &&& hs1.wf()
    &&& post.score.0 == pre.score.0
    &&& post.score.1 == (if pre.score.0 > pre.score.1 {
        pre.score.0
    } else {
        pre.score.1
    })
    &&& post.score.1 >= pre.score.1
    &&& post.active is None
    &&& post.next is None
    &&& post.grace is None
    &&& post.controls.move_dir == 0 && !post.controls.drop && !post.controls.drop_lock
        && !post.controls.end_game
    &&& post.cooldown.timer.elapsed_ms == 0
    &&& post.cooldown.timer.duration_ms == CLICK_DELAY_MS
    &&& post.fruits@ == pre.fruits@
    &&& post.next_handle == pre.next_handle
    &&& post.positions == pre.positions
    &&& hs1.0@ == spec_insert_desc(hs0.0@, pre.score.0)
    &&& forall|i: int| 0 <= i < 8 ==> hs1.0@[i] >= hs0.0@[i]
}

/// Removing one fruit keeps the population's tiers in the catalog and its
/// handles unique and below the allocation counter.
proof fn lemma_remove_keeps_fruits_wf(fruits: Seq<PhysicalFruit>, r: int, next_handle: u64)
    requires
        0 <= r < fruits.len(),
        forall|i: int| 0 <= i < fruits.len() ==> 0 <= (#[trigger] fruits[i]).tier < TIER_COUNT,
        forall|i: int| 0 <= i < fruits.len() ==> (#[trigger] fruits[i]).handle < next_handle,
        forall|a: int, b: int|
            0 <= a < b < fruits.len() ==> (#[trigger] fruits[a]).handle != (
            #[trigger] fruits[b]).handle,
    ensures
        forall|i: int|
            0 <= i < fruits.remove(r).len() ==> 0 <= (#[trigger] fruits.remove(r)[i]).tier
                < TIER_COUNT,
        forall|i: int|
            0 <= i < fruits.remove(r).len() ==> (#[trigger] fruits.remove(r)[i]).handle
                < next_handle,
        forall|a: int, b: int|
            0 <= a < b < fruits.remove(r).len() ==> (#[trigger] fruits.remove(r)[a]).handle != (
            #[trigger] fruits.remove(r)[b]).handle,
{
    fruits.remove_ensures(r);
    assert forall|i: int| 0 <= i < fruits.remove(r).len() implies 0 <= (#[trigger] fruits.remove(
        r,
    )[i]).tier < TIER_COUNT && fruits.remove(r)[i].handle < next_handle by {
        if i < r {
            assert(fruits.remove(r)[i] == fruits[i]);
        } else {
            assert(fruits.remove(r)[i] == fruits[i + 1]);
        }
    }
    assert forall|a: int, b: int| 0 <= a < b < fruits.remove(r).len() implies (
    #[trigger] fruits.remove(r)[a]).handle != (#[trigger] fruits.remove(r)[b]).handle by {
        let a0 = if a < r {
            a
        } else {
            a + 1
        };
        let b0 = if b < r {
            b
        } else {
            b + 1
        };
        assert(fruits.remove(r)[a] == fruits[a0]);
        assert(fruits.remove(r)[b] == fruits[b0]);
        assert(fruits[a0].handle != fruits[b0].handle);
    }
}

/// A collision event qualifies for a merge: both body handles resolve to
/// two distinct fruits of the population, of equal tier below the maximum.
pub open spec fn spec_qualifying(fruits: Seq<PhysicalFruit>, e: (u64, u64)) -> bool {
    exists|i: int, j: int|
        {
            &&& 0 <= i < fruits.len()
            &&& 0 <= j < fruits.len()
            &&& i != j
            &&& (#[trigger] fruits[i]).handle == e.0
            &&& (#[trigger] fruits[j]).handle == e.1
            &&& fruits[i].tier == fruits[j].tier
            &&& fruits[i].tier < MAX_TIER
        }
}

/// The population after merging the fruits at positions `i` and `j` into
/// the new fruit `nf`: both sources leave, `nf` is appended.
pub open spec fn spec_merged(fruits: Seq<PhysicalFruit>, i: int, j: int, nf: PhysicalFruit) -> Seq<
    PhysicalFruit,
> {
    let lo = if i < j {
        i
    } else {
        j
    };
    let hi = if i < j {
        j
    } else {
        i
    };
    fruits.remove(hi).remove(lo).push(nf)
}

/// The grace timer as the boundary monitor arms it on first detecting the
/// height condition.
pub open spec fn spec_fresh_grace() -> Timer {
    Timer { elapsed_ms: 0, duration_ms: GRACE_MS }
}

/// Height grace law. The boundary monitor evolves the grace timer by one
/// `spec_ticked` step per tick while the height condition holds, and ends
/// the game by height exactly on a tick whose step finishes the timer. So,
/// starting from the freshly armed timer: a condition sustained over ticks
/// totalling strictly less than the grace period never sees the timer
/// finish — at no prefix of the run can the monitor have ended the game by
/// height; sustained for the grace period or more, the timer finishes and
/// the monitor ends the game while the condition still stands.
pub proof fn lemma_height_grace_run(dts: Seq<u32>)
    ensures
        crate::timer::spec_total(dts) < GRACE_MS ==> (forall|p: int|
            0 <= p <= dts.len() ==> !(#[trigger] crate::timer::spec_run(
                spec_fresh_grace(),
                dts.take(p),
            )).spec_finished()),
        crate::timer::spec_total(dts) >= GRACE_MS ==> crate::timer::spec_run(
            spec_fresh_grace(),
            dts,
        ).spec_finished(),
{
    let t = spec_fresh_grace();
    if crate::timer::spec_total(dts) < GRACE_MS {
        assert forall|p: int| 0 <= p <= dts.len() implies !(#[trigger] crate::timer::spec_run(
            t,
            dts.take(p),
        )).spec_finished() by {
            crate::timer::lemma_total_prefix(dts, p);
            crate::timer::lemma_run_short(t, dts.take(p));
        }
    } else {
        crate::timer::lemma_run_expires(t, dts);
    }
}

/// No self-merge at the maximum tier: a collision event whose two handles
/// resolve to fruits that are both of the maximum tier never qualifies for
/// a merge, so the resolver leaves the population and the score unchanged
/// on its account.
pub proof fn lemma_no_merge_at_max_tier(r: GameRound, e: (u64, u64), i: int, j: int)
    requires
        r.wf(),
        0 <= i < r.fruits@.len(),
        0 <= j < r.fruits@.len(),
        r.fruits@[i].handle == e.0,
        r.fruits@[j].handle == e.1,
        r.fruits@[i].tier == MAX_TIER,
        r.fruits@[j].tier == MAX_TIER,
    ensures
        !spec_qualifying(r.fruits@, e),
{
    if spec_qualifying(r.fruits@, e) {
        let (i0, j0) = choose|i0: int, j0: int|
            {
                &&& 0 <= i0 < r.fruits@.len()
                &&& 0 <= j0 < r.fruits@.len()
                &&& i0 != j0
                &&& (#[trigger] r.fruits@[i0]).handle == e.0
                &&& (#[trigger] r.fruits@[j0]).handle == e.1
                &&& r.fruits@[i0].tier == r.fruits@[j0].tier
                &&& r.fruits@[i0].tier < MAX_TIER
            };
        lemma_handle_unique(r.fruits@, i0, i);
        lemma_handle_unique(r.fruits@, j0, j);
    }
}

/// Two positions of a duplicate-free population holding the same handle are
/// the same position.
proof fn lemma_handle_unique(fruits: Seq<PhysicalFruit>, i: int, j: int)
    requires
        forall|a: int, b: int|
            0 <= a < b < fruits.len() ==> (#[trigger] fruits[a]).handle != (
            #[trigger] fruits[b]).handle,
        0 <= i < fruits.len(),
        0 <= j < fruits.len(),
        fruits[i].handle == fruits[j].handle,
    ensures
        i == j,
{
    if i < j {
        assert(fruits[i].handle != fruits[j].handle);
    }
    if j < i {
        assert(fruits[j].handle != fruits[i].handle);
    }
}

/// Height at which active fruit hovers and dropped fruit enters the world:
/// just above the container's maximum height line.
pub open spec fn spec_drop_y(p: Positions) -> int {
    p.cup_max_y + spec_tier_size(5) / 2
}

/// Lateral overflow bound: a fruit centre past the outer face of a wall.
pub open spec fn spec_max_x(p: Positions) -> int {
    p.cup_right_x + CONTAINER_T
}

/// The fruit has escaped the container sideways.
pub open spec fn spec_lateral_out(f: PhysicalFruit, max_x: int) -> bool {
    f.x > max_x || f.x < -max_x
}

/// Some fruit of the population has escaped sideways.
pub open spec fn spec_any_lateral_out(fruits: Seq<PhysicalFruit>, max_x: int) -> bool {
    exists|i: int| 0 <= i < fruits.len() && spec_lateral_out(#[trigger] fruits[i], max_x)
}

/// The fruit is settled near the top: its speed is below the settling
/// threshold and its centre is above the maximum height line minus a margin
/// that scales with its own diameter.
pub open spec fn spec_height_risk(f: PhysicalFruit, max_y: int) -> bool {
    crate::fruits::spec_below_min_speed(f.vx as int, f.vy as int) && f.y > max_y - (4
        * spec_tier_size(f.tier as int)) / 10
}

/// Some fruit of the population is settled near the top.
pub open spec fn spec_any_height_risk(fruits: Seq<PhysicalFruit>, max_y: int) -> bool {
    exists|i: int| 0 <= i < fruits.len() && spec_height_risk(#[trigger] fruits[i], max_y)
}

/// Finds the population position of the body `handle`, if any.
fn find_fruit(fruits: &Vec<PhysicalFruit>, handle: u64) -> (r: Option<usize>)
    ensures
        r matches Some(i) ==> i < fruits@.len() && fruits@[i as int].handle == handle,
        r is None ==> forall|k: int|
            0 <= k < fruits@.len() ==> (#[trigger] fruits@[k]).handle != handle,
{
    let n = fruits.len();
    let mut i: usize = 0;
    while i < n
        invariant
            n == fruits@.len(),
            0 <= i <= n,
            forall|k: int| 0 <= k < i ==> (#[trigger] fruits@[k]).handle != handle,
        decreases n - i,
    {
        if fruits[i].handle == handle {
            return Some(i);
        }
        i = i + 1;
    }
    None
}

/// The arithmetic midpoint of two coordinates, rounded toward zero.
pub open spec fn spec_midpoint(a: int, b: int) -> int {
    if a + b >= 0 {
        (a + b) / 2
    } else {
        -((-(a + b)) / 2)
    }
}

/// Computes the midpoint of two coordinates without overflow.
pub fn midpoint(a: i32, b: i32) -> (m: i32)
    ensures
        m == spec_midpoint(a as int, b as int),
{
    let s: i64 = a as i64 + b as i64;
    if s >= 0 {
        let h: u64 = (s as u64) / 2;
        h as i32
    } else {
        let h: u64 = ((-s) as u64) / 2;
        let r: i64 = -(h as i64);
        r as i32
    }
}

} // verus!
