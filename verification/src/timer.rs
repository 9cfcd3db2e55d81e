//! Countdowns that pace what happens on the board.
//!
//! All times are whole nanoseconds. A countdown is plain data; the passing
//! of time is delegated to the engine's own timer.

use vstd::prelude::*;

verus! {

/// A countdown: how long it runs, how much of that has passed, and whether
/// it starts over when it runs out.
#[derive(Clone, Copy, Debug, PartialEq, Eq)]
pub struct Countdown {
    pub duration: u64,
    pub elapsed: u64,
    pub repeating: bool,
}

impl Countdown {
    /// The countdown `delta` nanoseconds later, and whether it ran out in
    /// that time.
    ///
    /// A countdown that does not repeat stops at its duration. One that
    /// repeats starts over, keeping the time that went beyond a whole number
    /// of rounds. The rounds completed in one step are counted in 32 bits,
    /// so a step of an exact multiple of 2^32 rounds does not report that
    /// the countdown ran out.
    pub open spec fn spec_tick(self, delta: u64) -> (Countdown, bool) {
        let total = self.elapsed + delta;
        if total < self.duration {
            (Countdown { elapsed: total as u64, ..self }, false)
        } else if !self.repeating {
            (Countdown { elapsed: self.duration, ..self }, true)
        } else if self.duration == 0 {
            (Countdown { elapsed: 0, ..self }, true)
        } else {
            (
                Countdown { elapsed: (total % (self.duration as int)) as u64, ..self },
                (total / (self.duration as int)) % 0x1_0000_0000 != 0,
            )
        }
    }

    /// A countdown of `duration` nanoseconds of which nothing has passed.
    pub fn new(duration: u64, repeating: bool) -> (countdown: Self)
        ensures
            countdown == (Countdown { duration, elapsed: 0, repeating }),
    {
        Countdown { duration, elapsed: 0, repeating }
    }

    /// Lets `delta` nanoseconds pass and tells whether the countdown ran out
    /// in that time.
    pub fn tick(&mut self, delta: u64) -> (just_finished: bool)
        ensures
            (*final(self), just_finished) == old(self).spec_tick(delta),
    {
        let (elapsed, just_finished) = timer_tick(
            self.duration,
            self.repeating,
            self.elapsed,
            delta,
        );
        self.elapsed = elapsed;
        just_finished
    }

    /// The time left until the countdown runs out.
    pub fn remaining(&self) -> (left: u64)
        ensures
            left == if self.elapsed < self.duration {
                self.duration - self.elapsed
            } else {
                0
            },
    {
        if self.elapsed < self.duration {
            self.duration - self.elapsed
        } else {
            0
        }
    }
}

/// Runs one `bevy::time::Timer::tick` on a fresh, unpaused timer of the
/// given duration and mode whose elapsed time was set to `elapsed`, and
/// reads back `Timer::elapsed` and `Timer::just_finished`.
///
/// Not proved: that the engine's timer behaves as `Countdown::spec_tick`
/// says. The claim follows its source: the elapsed time grows by `delta`;
/// a timer in mode `Once` that reaches its duration is clamped to it and has
/// finished once; a repeating one keeps the remainder and has finished as
/// many times as the quotient, cut to 32 bits, says (with a zero duration:
/// `u32::MAX` times, elapsed zero).
#[verifier::external_body]
fn timer_tick(duration: u64, repeating: bool, elapsed: u64, delta: u64) -> (ticked: (u64, bool))
    ensures
        ticked.0 == (Countdown { duration, elapsed, repeating }).spec_tick(delta).0.elapsed,
        ticked.1 == (Countdown { duration, elapsed, repeating }).spec_tick(delta).1,
{
    let mode = if repeating {
        bevy::time::TimerMode::Repeating
    } else {
        bevy::time::TimerMode::Once
    };
    let mut timer = bevy::time::Timer::new(std::time::Duration::from_nanos(duration), mode);
    timer.set_elapsed(std::time::Duration::from_nanos(elapsed));
    timer.tick(std::time::Duration::from_nanos(delta));
    (timer.elapsed().as_nanos() as u64, timer.just_finished())
}

/// A countdown that does not repeat runs out in the step in which the time
/// passed reaches its duration, and not before.
pub proof fn lemma_once_runs_out_on_time(countdown: Countdown, delta: u64)
    requires
        !countdown.repeating,
    ensures
        countdown.spec_tick(delta).1 <==> countdown.elapsed + delta >= countdown.duration,
        countdown.spec_tick(delta).0.duration == countdown.duration,
        !countdown.spec_tick(delta).1 ==> countdown.spec_tick(delta).0.elapsed
            == countdown.elapsed + delta,
{
}

/// A countdown that repeats runs out in every step in which the time
/// passed reaches its duration, as long as the step does not span 2^32
/// rounds or more, and then starts over with less than a round passed.
pub proof fn lemma_repeating_runs_out_on_time(countdown: Countdown, delta: u64)
    requires
        countdown.repeating,
        countdown.duration > 0,
        countdown.elapsed + delta < 0x1_0000_0000 * countdown.duration,
    ensures
        countdown.spec_tick(delta).1 <==> countdown.elapsed + delta >= countdown.duration,
        countdown.spec_tick(delta).1 ==> countdown.spec_tick(delta).0.elapsed
            < countdown.duration,
{
    let total = countdown.elapsed + delta;
    let duration = countdown.duration as int;
    if total >= duration {
        vstd::arithmetic::div_mod::lemma_fundamental_div_mod(total, duration);
        vstd::arithmetic::div_mod::lemma_mod_bound(total, duration);
        let rounds = total / duration;
        assert(1 <= rounds < 0x1_0000_0000) by (nonlinear_arith)
            requires
                total == duration * rounds + total % duration,
                0 <= total % duration < duration,
                duration <= total < 0x1_0000_0000 * duration,
        ;
        assert(rounds % 0x1_0000_0000 == rounds);
    }
}

} // verus!
