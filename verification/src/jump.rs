//! The jump controller: a single-shot vertical impulse gated by the
//! grounding state and a refractory timer.
//!
//! The timer counts up from zero at the last accepted jump and saturates at
//! its duration; a jump is accepted only once it has fully elapsed. The
//! debounce duration is a tunable constant fixed at a tenth of a second: it
//! keeps a held key or a single tick's residual grounded flag from firing
//! more than one impulse.

use crate::components::{GroundedState, Player, PlayerData};
use crate::math::COORD_LIMIT;
use vstd::prelude::*;

verus! {

/// How long after a jump the next one is refused, in thousandths of a
/// second: a debounce, not a gameplay cooldown.
pub const JUMP_DEBOUNCE: i64 = 100;

/// An elapsed-time counter compared against a duration: `reset` sets the
/// elapsed time to zero, `tick` adds delta time saturating at the duration,
/// `finished` compares the two.
#[derive(Clone, Copy, Debug, PartialEq, Eq, Structural)]
pub struct JumpTimer {
    pub elapsed: i64,
    pub duration: i64,
}

impl JumpTimer {
    /// The counter never runs past its duration and never exceeds the
    /// coordinate limit.
    pub open spec fn wf(self) -> bool {
        0 <= self.elapsed <= self.duration <= COORD_LIMIT
    }

    /// A timer that has already run out, so the first jump after spawn is
    /// not debounced away.
    pub open spec fn spec_ready() -> JumpTimer {
        JumpTimer { elapsed: JUMP_DEBOUNCE, duration: JUMP_DEBOUNCE }
    }

    /// Executable form of `spec_ready`.
    pub fn ready() -> (r: JumpTimer)
        ensures
            r == JumpTimer::spec_ready(),
            r.wf(),
    {
        JumpTimer { elapsed: JUMP_DEBOUNCE, duration: JUMP_DEBOUNCE }
    }

    /// What `tick` leaves behind: the elapsed time advanced by `dt`,
    /// saturating at the duration.
    pub open spec fn spec_tick(self, dt: i64) -> JumpTimer {
        if self.elapsed + dt >= self.duration {
            JumpTimer { elapsed: self.duration, duration: self.duration }
        } else {
            JumpTimer { elapsed: (self.elapsed + dt) as i64, duration: self.duration }
        }
    }

    /// Advances the counter by one tick's delta time.
    pub fn tick(&mut self, dt: i64)
        requires
            old(self).wf(),
            0 <= dt <= COORD_LIMIT,
        ensures
            *final(self) == old(self).spec_tick(dt),
            final(self).wf(),
    {
        if dt >= self.duration - self.elapsed {
            self.elapsed = self.duration;
        } else {
            self.elapsed = self.elapsed + dt;
        }
    }

    /// Whether the full duration has elapsed since the last reset.
    pub fn finished(&self) -> (r: bool)
        ensures
            r == (self.elapsed >= self.duration),
    {
        self.elapsed >= self.duration
    }
}

/// Whether a jump input on a tick of length `dt` is accepted: the key is
/// pressed, the classifier reported `Grounded`, and the debounce timer has
/// fully elapsed once this tick's delta is counted.
pub open spec fn spec_jump_accepted(
    grounded: GroundedState,
    timer: JumpTimer,
    jump_pressed: bool,
    dt: i64,
) -> bool {
    &&& jump_pressed
    &&& grounded == GroundedState::Grounded
    &&& timer.spec_tick(dt).elapsed >= timer.duration
}

/// One tick of the jump controller. The timer always advances by `dt`; on
/// an accepted jump the controller returns the vertical impulse to add to
/// the body's velocity and resets the timer to zero. Nothing else of the
/// player state changes.
pub fn jump_tick(state: &mut PlayerData, config: &Player, jump_pressed: bool, dt: i64) -> (impulse:
    Option<i64>)
    requires
        old(state).wf(),
        config.wf(),
        0 <= dt <= COORD_LIMIT,
    ensures
        ({
            let accepted = spec_jump_accepted(
                old(state).grounded,
                old(state).jump_cooldown,
                jump_pressed,
                dt,
            );
            let ticked = old(state).jump_cooldown.spec_tick(dt);
            &&& impulse == if accepted {
                Some(config.jump_height)
            } else {
                None::<i64>
            }
            &&& final(state).jump_cooldown == if accepted {
                (JumpTimer { elapsed: 0, duration: ticked.duration })
            } else {
                ticked
            }
            &&& *final(state) == (PlayerData {
                jump_cooldown: final(state).jump_cooldown,
                ..*old(state)
            })
            &&& final(state).wf()
        }),
{
    state.jump_cooldown.tick(dt);
    let grounded = matches!(state.grounded, GroundedState::Grounded);
    if jump_pressed && grounded && state.jump_cooldown.finished() {
        state.jump_cooldown.elapsed = 0;
        Some(config.jump_height)
    } else {
        None
    }
}

/// The timer after a run of ticks, first tick first.
pub open spec fn spec_tick_seq(timer: JumpTimer, dts: Seq<i64>) -> JumpTimer
    decreases dts.len(),
{
    if dts.len() == 0 {
        timer
    } else {
        spec_tick_seq(timer.spec_tick(dts[0]), dts.drop_first())
    }
}

/// The total simulated time of a run of ticks.
pub open spec fn spec_sum(dts: Seq<i64>) -> int
    decreases dts.len(),
{
    if dts.len() == 0 {
        0
    } else {
        dts[0] + spec_sum(dts.drop_first())
    }
}

proof fn lemma_sum_nonneg(dts: Seq<i64>)
    requires
        forall|i: int| 0 <= i < dts.len() ==> 0 <= #[trigger] dts[i],
    ensures
        spec_sum(dts) >= 0,
    decreases dts.len(),
{
    if dts.len() > 0 {
        lemma_sum_nonneg(dts.drop_first());
    }
}

/// Ticking a well-formed timer accumulates delta times, saturating at the
/// duration, and never touches the duration.
proof fn lemma_tick_seq_elapsed(timer: JumpTimer, dts: Seq<i64>)
    requires
        timer.wf(),
        forall|i: int| 0 <= i < dts.len() ==> 0 <= #[trigger] dts[i] <= COORD_LIMIT,
    ensures
        spec_tick_seq(timer, dts).duration == timer.duration,
        spec_tick_seq(timer, dts).elapsed == if timer.elapsed + spec_sum(dts) >= timer.duration {
            timer.duration as int
        } else {
            timer.elapsed + spec_sum(dts)
        },
    decreases dts.len(),
{
    if dts.len() > 0 {
        let stepped = timer.spec_tick(dts[0]);
        assert(stepped.wf());
        lemma_tick_seq_elapsed(stepped, dts.drop_first());
        lemma_sum_nonneg(dts.drop_first());
    }
}

/// The jump debounce law: right after an accepted jump the timer reads
/// zero; run any ticks whose delta times total `d`, and a second jump input
/// on the last of them is accepted if and only if `d` reaches the debounce
/// duration. Two jump inputs separated by less simulated time than the
/// duration therefore produce exactly one impulse; separated by at least
/// the duration, two.
pub proof fn lemma_jump_debounce(duration: i64, dts: Seq<i64>)
    requires
        0 < duration <= COORD_LIMIT,
        dts.len() >= 1,
        forall|i: int| 0 <= i < dts.len() ==> 0 <= #[trigger] dts[i] <= COORD_LIMIT,
    ensures
        ({
            let just_jumped = JumpTimer { elapsed: 0, duration };
            let before_last = spec_tick_seq(just_jumped, dts.drop_last());
            spec_jump_accepted(
                GroundedState::Grounded,
                before_last,
                true,
                dts.last(),
            ) <==> spec_sum(dts) >= duration
        }),
{
    let just_jumped = JumpTimer { elapsed: 0, duration };
    let front = dts.drop_last();
    lemma_tick_seq_elapsed(just_jumped, front);
    lemma_sum_nonneg(front);
    let before_last = spec_tick_seq(just_jumped, front);
    assert(before_last.wf());
    lemma_sum_split_last(dts);
}

/// The total of a run of ticks is the total of its front plus its last.
proof fn lemma_sum_split_last(dts: Seq<i64>)
    requires
        dts.len() >= 1,
    ensures
        spec_sum(dts) == spec_sum(dts.drop_last()) + dts.last(),
    decreases dts.len(),
{
    assert(spec_sum(dts) == dts[0] + spec_sum(dts.drop_first()));
    if dts.len() == 1 {
        assert(spec_sum(dts.drop_last()) == 0);
    } else {
        lemma_sum_split_last(dts.drop_first());
        assert(dts.drop_first().drop_last() =~= dts.drop_last().drop_first());
        assert(dts.drop_first().last() == dts.last());
        assert(dts.drop_last()[0] == dts[0]);
        assert(spec_sum(dts.drop_last()) == dts.drop_last()[0] + spec_sum(
            dts.drop_last().drop_first(),
        ));
    }
}

} // verus!
