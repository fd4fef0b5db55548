//! Frame pacing: a fixed-timestep scheduler with an accumulator.
//!
//! Wall-clock time arrives in irregular deltas. The clock caps each delta, adds
//! it to an accumulator, and releases one update tick for every whole target
//! frame time that the accumulator holds. Update logic therefore always sees
//! the same time step, and a stall never costs more catch-up work than the cap
//! allows. All times are in nanoseconds.

use vstd::arithmetic::div_mod::{
    lemma_div_is_ordered_by_denominator, lemma_fundamental_div_mod,
    lemma_fundamental_div_mod_converse, lemma_mod_bound,
};
use vstd::prelude::*;

verus! {

/// The nanoseconds in a second.
pub const NANOS_PER_SEC: u64 = 1_000_000_000;

/// The length, in nanoseconds, of a time span given as whole seconds and the
/// nanoseconds beyond them.
pub open spec fn nanos_of(secs: u64, subsec_nanos: u32) -> nat {
    (secs * NANOS_PER_SEC + subsec_nanos) as nat
}

/// Turns a time span, given as whole seconds and the nanoseconds beyond them,
/// into nanoseconds. A span too long to be counted in 64 bits (more than 584
/// years) gives the largest count there is.
pub fn nanos_saturating(secs: u64, subsec_nanos: u32) -> (nanos: u64)
    ensures
        nanos_of(secs, subsec_nanos) <= u64::MAX ==> nanos == nanos_of(secs, subsec_nanos),
        nanos_of(secs, subsec_nanos) > u64::MAX ==> nanos == u64::MAX,
{
    assert(secs * NANOS_PER_SEC <= u64::MAX * NANOS_PER_SEC) by (nonlinear_arith)
        requires
            secs <= u64::MAX,
    ;
    let total: u128 = secs as u128 * NANOS_PER_SEC as u128 + subsec_nanos as u128;
    if total > u64::MAX as u128 {
        u64::MAX
    } else {
        total as u64
    }
}

/// The delta that enters the accumulator: the raw delta, capped at the maximum
/// frame time.
pub open spec fn clamped_delta(raw_delta: u64, max_frame_time: u64) -> u64 {
    if raw_delta > max_frame_time {
        max_frame_time
    } else {
        raw_delta
    }
}

/// The number of update ticks that fall due when `delta` is added to an
/// accumulator holding `accumulated`: one for every whole `target` in the sum.
pub open spec fn ticks_due(accumulated: nat, delta: nat, target: nat) -> nat {
    (accumulated + delta) / target
}

/// What stays in the accumulator once the due ticks have been taken out.
pub open spec fn carried_over(accumulated: nat, delta: nat, target: nat) -> nat {
    (accumulated + delta) % target
}

/// The tick-consuming loop, step by step: while the accumulator holds at least
/// one target frame time, emit a tick and take one target frame time out.
/// Gives the number of ticks emitted and the accumulator at the end.
pub open spec fn drained(accumulated: nat, target: nat) -> (nat, nat)
    decreases accumulated,
{
    if target > 0 && accumulated >= target {
        let (ticks, rest) = drained((accumulated - target) as nat, target);
        (ticks + 1, rest)
    } else {
        (0, accumulated)
    }
}

/// The tick-consuming loop emits `ticks_due` ticks and leaves `carried_over`
/// in the accumulator, which is then below the target frame time.
pub proof fn lemma_drained_is_division(accumulated: nat, delta: nat, target: nat)
    requires
        target > 0,
    ensures
        drained(accumulated + delta, target) == (
            ticks_due(accumulated, delta, target),
            carried_over(accumulated, delta, target),
        ),
        carried_over(accumulated, delta, target) < target,
    decreases accumulated + delta,
{
    let total = accumulated + delta;
    lemma_mod_bound(total as int, target as int);
    lemma_fundamental_div_mod(total as int, target as int);
    if total >= target {
        let rest = (total - target) as nat;
        lemma_drained_is_division(rest, 0, target);
        lemma_fundamental_div_mod(rest as int, target as int);
        lemma_mod_bound(rest as int, target as int);
        let q = rest as int / target as int;
        let r = rest as int % target as int;
        assert(total as int == (q + 1) * target as int + r) by (nonlinear_arith)
            requires
                rest as int == target as int * q + r,
                total as int == rest as int + target as int,
        ;
        lemma_fundamental_div_mod_converse(total as int, target as int, q + 1, r);
    } else {
        lemma_fundamental_div_mod_converse(total as int, target as int, 0, total as int);
    }
}

/// The capped delta never exceeds the maximum frame time, nor the raw delta.
pub proof fn lemma_clamped_delta_bounds(raw_delta: u64, max_frame_time: u64)
    ensures
        clamped_delta(raw_delta, max_frame_time) <= max_frame_time,
        clamped_delta(raw_delta, max_frame_time) <= raw_delta,
        raw_delta <= max_frame_time ==> clamped_delta(raw_delta, max_frame_time) == raw_delta,
{
}

/// The catch-up work of one frame is bounded. With an accumulator below the
/// target frame time, a frame releases at most one tick more than the maximum
/// frame time holds whole target frame times; and it stays within that number
/// exactly when the sum in the accumulator stays below the next multiple of the
/// target. That is so for every delta if the remainder of the maximum by the
/// target still fits beside what the accumulator already holds, and so in
/// particular if the maximum is a multiple of the target.
pub proof fn lemma_ticks_bounded(accumulated: u64, raw_delta: u64, target: u64, max: u64)
    requires
        target > 0,
        accumulated < target,
    ensures
        ticks_due(accumulated as nat, clamped_delta(raw_delta, max) as nat, target as nat) <= max
            / target + 1,
        ticks_due(accumulated as nat, clamped_delta(raw_delta, max) as nat, target as nat) <= max
            / target <==> accumulated + clamped_delta(raw_delta, max) < (max / target + 1)
            * target,
        accumulated + max % target < target ==> ticks_due(
            accumulated as nat,
            clamped_delta(raw_delta, max) as nat,
            target as nat,
        ) <= max / target,
{
    let t = target as int;
    let total = accumulated as int + clamped_delta(raw_delta, max) as int;
    let q = max as int / t;
    let r = max as int % t;
    let n = total / t;
    lemma_fundamental_div_mod(max as int, t);
    lemma_mod_bound(max as int, t);
    lemma_fundamental_div_mod(total, t);
    lemma_mod_bound(total, t);
    // total < max + target = (q + 1) * target + r < (q + 2) * target
    assert(n <= q + 1) by (nonlinear_arith)
        requires
            t > 0,
            total == t * n + total % t,
            0 <= total % t < t,
            max as int == t * q + r,
            0 <= r < t,
            total < max as int + t,
    ;
    assert(n <= q <==> total < (q + 1) * t) by (nonlinear_arith)
        requires
            t > 0,
            total == t * n + total % t,
            0 <= total % t < t,
    ;
    if accumulated + r < t {
        assert(total < (q + 1) * t) by (nonlinear_arith)
            requires
                total <= accumulated as int + max as int,
                max as int == t * q + r,
                accumulated as int + r < t,
        ;
    }
}

/// With an accumulator below the target frame time, the ticks of one frame
/// can be counted in 64 bits, and what is carried over is again below the
/// target frame time.
pub proof fn lemma_ticks_fit(accumulated: u64, delta: u64, target: u64)
    requires
        target > 0,
        accumulated < target,
    ensures
        ticks_due(accumulated as nat, delta as nat, target as nat) <= u64::MAX,
        carried_over(accumulated as nat, delta as nat, target as nat) < target,
{
    let total = accumulated as int + delta as int;
    lemma_mod_bound(total, target as int);
    if target == 1 {
        assert(total / (target as int) == total) by (nonlinear_arith)
            requires
                target == 1,
        ;
    } else {
        lemma_div_is_ordered_by_denominator(total, 2, target as int);
    }
}

/// The accumulator of the frame loop with its two fixed settings.
///
/// The target frame time is the fixed step of the update logic and is never
/// zero; the accumulator is below it whenever the clock is at rest.
#[derive(Debug, Clone, Copy)]
pub struct FrameClock {
    target_frame_time: u64,
    max_frame_time: u64,
    accumulated_time: u64,
}

impl FrameClock {
    /// What holds of every clock: the step is positive and the accumulator
    /// holds less than one step.
    #[verifier::type_invariant]
    pub open spec fn wf(self) -> bool {
        0 < self.spec_target_frame_time() && self.spec_accumulated_time()
            < self.spec_target_frame_time()
    }

    /// The fixed step of the update logic.
    pub closed spec fn spec_target_frame_time(&self) -> u64 {
        self.target_frame_time
    }

    /// The cap on the delta of one frame.
    pub closed spec fn spec_max_frame_time(&self) -> u64 {
        self.max_frame_time
    }

    /// The time accumulated and not yet handed out as ticks.
    pub closed spec fn spec_accumulated_time(&self) -> u64 {
        self.accumulated_time
    }

    /// A clock at rest with an empty accumulator, or `None` if the target frame
    /// time is zero: a zero step would never use up any accumulated time.
    pub fn new(target_frame_time: u64, max_frame_time: u64) -> (r: Option<Self>)
        ensures
            r is None <==> target_frame_time == 0,
            r matches Some(clock) ==> {
                &&& clock.wf()
                &&& clock.target_frame_time() == target_frame_time
                &&& clock.max_frame_time() == max_frame_time
                &&& clock.accumulated_time() == 0
            },
    {
        if target_frame_time == 0 {
            None
        } else {
            Some(FrameClock { target_frame_time, max_frame_time, accumulated_time: 0 })
        }
    }

    /// The fixed step of the update logic; never zero.
    #[verifier::when_used_as_spec(spec_target_frame_time)]
    pub fn target_frame_time(&self) -> (r: u64)
        ensures
            r == self.spec_target_frame_time(),
            r > 0,
    {
        proof {
            use_type_invariant(self);
        }
        self.target_frame_time
    }

    /// The cap on the delta of one frame.
    #[verifier::when_used_as_spec(spec_max_frame_time)]
    pub fn max_frame_time(&self) -> (r: u64)
        ensures
            r == self.spec_max_frame_time(),
    {
        self.max_frame_time
    }

    /// The time accumulated and not yet handed out as ticks; always less than
    /// the target frame time.
    #[verifier::when_used_as_spec(spec_accumulated_time)]
    pub fn accumulated_time(&self) -> (r: u64)
        ensures
            r == self.spec_accumulated_time(),
            r < self.target_frame_time(),
    {
        proof {
            use_type_invariant(self);
        }
        self.accumulated_time
    }

    /// Accounts for one frame: caps `raw_delta` at the maximum frame time, adds
    /// it to the accumulator, and takes out one target frame time for every
    /// update tick that is now due. Returns the number of ticks; the settings
    /// stay as they are.
    pub fn advance(&mut self, raw_delta: u64) -> (ticks: u64)
        ensures
            final(self).wf(),
            final(self).target_frame_time() == old(self).target_frame_time(),
            final(self).max_frame_time() == old(self).max_frame_time(),
            ticks == ticks_due(
                old(self).accumulated_time() as nat,
                clamped_delta(raw_delta, old(self).max_frame_time()) as nat,
                old(self).target_frame_time() as nat,
            ),
            final(self).accumulated_time() == carried_over(
                old(self).accumulated_time() as nat,
                clamped_delta(raw_delta, old(self).max_frame_time()) as nat,
                old(self).target_frame_time() as nat,
            ),
            final(self).accumulated_time() < final(self).target_frame_time(),
    {
        proof {
            use_type_invariant(&*self);
        }
        let delta: u64 = if raw_delta > self.max_frame_time {
            self.max_frame_time
        } else {
            raw_delta
        };
        let target: u128 = self.target_frame_time as u128;
        let total: u128 = self.accumulated_time as u128 + delta as u128;
        let ticks: u128 = total / target;
        let rest: u128 = total % target;
        proof {
            lemma_ticks_fit(self.accumulated_time, delta, self.target_frame_time);
        }
        self.accumulated_time = rest as u64;
        ticks as u64
    }
}

} // verus!
