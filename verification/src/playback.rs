//! Playing an animation: which frame comes next, and when the animation is over.
//!
//! The library holds no clock and sends nothing. A driver shows the frames and
//! waits between them; before each frame it asks here what to do, and says how
//! many frames it has shown so far and how much time has passed since it began.
//! The policy is consulted where a pass over the frames begins, the first one
//! included, and nowhere else: a pass that has begun is played to its end.
use vstd::prelude::*;
use vstd::arithmetic::div_mod::lemma_fundamental_div_mod;
use vstd::arithmetic::div_mod::lemma_fundamental_div_mod_converse;
use vstd::arithmetic::div_mod::lemma_mod_bound;
use std::time::Duration;
use crate::gif::AnimeGif;
use crate::gif::AnimTime;
use crate::time::duration_nanos;

verus! {

/// What the driver does next.
#[derive(Clone, Copy, Debug, PartialEq, Eq, Structural)]
pub enum Step {
    /// Show the frame with this index, then wait for its delay.
    Show(usize),
    /// The animation is over.
    Finished,
}

impl AnimTime {
    /// Whether an animation under this policy is over once `passes` full passes
    /// over its frames are done and `elapsed` nanoseconds have passed.
    pub open spec fn finished(self, passes: nat, elapsed: nat) -> bool {
        match self {
            AnimTime::Time(limit) => elapsed >= duration_nanos(limit),
            AnimTime::Cycles(count) => passes >= count,
            AnimTime::Infinite => false,
        }
    }

    /// Whether an animation under this policy is over once `passes` full passes
    /// over its frames are done and `elapsed` has passed.
    pub fn is_finished(&self, passes: u64, elapsed: Duration) -> (over: bool)
        ensures
            over == self.finished(passes as nat, duration_nanos(elapsed)),
    {
        match self {
            AnimTime::Time(limit) => elapsed.as_nanos() >= limit.as_nanos(),
            AnimTime::Cycles(count) => passes >= *count as u64,
            AnimTime::Infinite => false,
        }
    }
}

/// What the driver of an animation of `len` frames does next, once it has shown
/// `shown` frames and `elapsed` nanoseconds have passed.
///
/// The frames are shown in order, pass after pass. Where a pass begins, the policy
/// decides whether the animation is over.
pub open spec fn step_after(policy: AnimTime, len: nat, shown: nat, elapsed: nat) -> Step
    recommends
        len > 0,
{
    if shown % len == 0 && policy.finished(shown / len, elapsed) {
        Step::Finished
    } else {
        Step::Show((shown % len) as usize)
    }
}

impl AnimeGif {
    /// What the driver does next, once it has shown `shown` frames of this
    /// animation and `elapsed` has passed since it began.
    pub fn step(&self, shown: u64, elapsed: Duration) -> (next: Step)
        ensures
            next == step_after(
                self@.policy,
                self@.frames.len(),
                shown as nat,
                duration_nanos(elapsed),
            ),
            next matches Step::Show(index) ==> index < self@.frames.len(),
    {
        let frames = self.frames();
        let len: u64 = frames.len() as u64;
        let index: u64 = shown % len;
        if index == 0 && self.duration().is_finished(shown / len, elapsed) {
            Step::Finished
        } else {
            Step::Show(index as usize)
        }
    }
}

/// Under `Cycles(count)` the driver makes exactly `count` full passes: each of the
/// first `count * len` frames that it asks for is shown, in the order of the
/// animation, and when it asks for the next one the animation is over. This holds
/// whatever time has passed.
pub proof fn lemma_cycles_passes(count: u32, len: nat, shown: nat, elapsed: nat)
    requires
        len > 0,
        shown <= count * len,
    ensures
        shown < count * len ==> step_after(AnimTime::Cycles(count), len, shown, elapsed)
            == Step::Show((shown % len) as usize),
        shown == count * len ==> step_after(AnimTime::Cycles(count), len, shown, elapsed)
            == Step::Finished,
{
    let q: int = shown as int / len as int;
    let r: int = shown as int % len as int;
    lemma_fundamental_div_mod(shown as int, len as int);
    lemma_mod_bound(shown as int, len as int);
    if shown < count * len {
        assert(q < count) by (nonlinear_arith)
            requires
                shown == len * q + r,
                0 <= r,
                shown < count * len,
                len > 0,
        ;
    } else {
        lemma_fundamental_div_mod_converse(shown as int, len as int, count as int, 0);
    }
}

/// Under `Infinite` the animation is never over: whatever the driver has shown
/// and whatever time has passed, the next frame in order is shown.
pub proof fn lemma_infinite_never_finishes(len: nat, shown: nat, elapsed: nat)
    requires
        len > 0,
    ensures
        step_after(AnimTime::Infinite, len, shown, elapsed) == Step::Show((shown % len) as usize),
{
}

/// Under `Time(limit)` the animation is over at the first beginning of a pass at
/// which the limit has been reached, and not before.
pub proof fn lemma_time_limit(limit: Duration, len: nat, shown: nat, elapsed: nat)
    requires
        len > 0,
    ensures
        step_after(AnimTime::Time(limit), len, shown, elapsed) == Step::Finished <==> shown % len
            == 0 && elapsed >= duration_nanos(limit),
{
}

} // verus!
