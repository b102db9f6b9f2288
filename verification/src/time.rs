use crate::state::State;
use std::time::{Duration, Instant};
use vstd::prelude::*;

verus! {

/// The length of one step in nanoseconds.
pub const FRAME_TIME: u32 = 16_660_000;

/// `std::time::Instant`: a reading of the clock, carried as it is. Nothing
/// is known of what it holds.
#[verifier::external_type_specification]
#[verifier::external_body]
pub struct ExInstant(Instant);

/// Reads the clock with `std::time::Instant::now`. Nothing is claimed of the
/// reading.
#[verifier::external_body]
fn clock() -> Instant {
    Instant::now()
}

/// The time from `earlier` to `later` by `Instant::duration_since`, which
/// gives zero where `earlier` is the later one. Nothing is claimed of the
/// span.
#[verifier::external_body]
fn span(later: &Instant, earlier: &Instant) -> Duration {
    later.duration_since(*earlier)
}

/// The length of a span in nanoseconds by `Duration::as_nanos`. Nothing is
/// claimed of the number.
#[verifier::external_body]
fn nanos(span: &Duration) -> u128 {
    span.as_nanos()
}

/// `value`, held to the range of a count of nanoseconds.
pub open spec fn capped(value: int) -> u128 {
    if value > u128::MAX {
        u128::MAX
    } else {
        value as u128
    }
}

/// The clock of a run in fixed steps: frames are gathered as they pass and
/// spent one step at a time.
pub struct Time {
    /// The length of a step in nanoseconds.
    pub dt: u32,
    /// The time stepped through in nanoseconds.
    pub t: u128,
    /// The clock's last reading.
    pub now: Instant,
    /// The time gathered and not yet stepped through, in nanoseconds.
    pub acc: u128,
}

impl Time {
    /// A clock that starts now, with nothing gathered.
    pub fn new() -> (time: Time)
        ensures
            time.dt == FRAME_TIME,
            time.t == 0,
            time.acc == 0,
    {
        Time { dt: FRAME_TIME, t: 0, now: clock(), acc: 0 }
    }

    /// Gathers a frame of `frame_time` nanoseconds.
    pub fn gather(&mut self, frame_time: u128)
        ensures
            final(self).acc == capped(old(self).acc + frame_time),
            final(self).dt == old(self).dt,
            final(self).t == old(self).t,
            final(self).now == old(self).now,
    {
        self.acc = self.acc.saturating_add(frame_time);
    }

    /// Reads the clock and gathers the frame since the last reading. The
    /// frame is as long as the clock says, so no more is known of what is
    /// gathered than that nothing is lost.
    pub fn diff(&mut self)
        ensures
            final(self).acc >= old(self).acc,
            final(self).dt == old(self).dt,
            final(self).t == old(self).t,
    {
        let new_time = clock();
        let frame_time = nanos(&span(&new_time, &self.now));
        self.now = new_time;
        self.gather(frame_time);
    }

    /// Spends what is gathered: makes as many steps of `dt` as fit in it, and
    /// keeps the rest.
    pub fn update(&mut self, state: &mut State)
        requires
            old(self).dt > 0,
        ensures
            State::ran(
                *old(state),
                *final(state),
                old(self).dt,
                (old(self).acc / old(self).dt as u128) as nat,
            ),
            final(self).acc == old(self).acc % old(self).dt as u128,
            final(self).t == capped(old(self).t + old(self).acc - final(self).acc),
            final(self).dt == old(self).dt,
            final(self).now == old(self).now,
    {
        let ghost mut steps: nat = 0;
        while self.acc >= self.dt as u128
            invariant
                self.dt == old(self).dt,
                self.dt > 0,
                self.now == old(self).now,
                old(self).acc == self.acc + steps * self.dt,
                self.t == capped(old(self).t + steps * self.dt),
                State::ran(*old(state), *state, self.dt, steps),
            decreases self.acc,
        {
            let ghost before = *state;
            state.update(self.dt);
            proof {
                State::lemma_ran_once_more(*old(state), before, *state, self.dt, steps);
                assert((steps + 1) * self.dt == steps * self.dt + self.dt) by (nonlinear_arith);
                steps = steps + 1;
            }
            self.acc -= self.dt as u128;
            self.t = self.t.saturating_add(self.dt as u128);
        }
        proof {
            let dt = self.dt as int;
            let rest = self.acc as int;
            let all = old(self).acc as int;
            assert(all / dt == steps && all % dt == rest) by (nonlinear_arith)
                requires
                    all == rest + steps * dt,
                    0 <= rest < dt,
            ;
        }
    }
}

} // verus!
