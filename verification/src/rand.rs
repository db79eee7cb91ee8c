//! The pseudo-random generator behind synthetic packets: a state that is
//! replaced by its FxHash at every draw, seeded from the clock.
use vstd::prelude::*;
use crate::hashing::{fx_finish, FxState};

verus! {

/// Reads the wall clock by `time::get_time()` and hands back its seconds and
/// nanoseconds. `time::Timespec::new` asserts that the nanoseconds lie in
/// `0..1_000_000_000`, which is all that is claimed of the result.
#[verifier::external_body]
fn current_time() -> (t: (i64, i32))
    ensures
        0 <= t.1 < 1_000_000_000,
{
    let now = time::get_time();
    (now.sec, now.nsec)
}

/// The seed taken from a clock reading: the seconds plus the whole
/// milliseconds of the nanosecond part (not the seconds times a thousand),
/// reduced modulo 2^64.
pub open spec fn time_seed(sec: i64, nsec: i32) -> u64 {
    ((sec + nsec / 1_000_000) % 0x1_0000_0000_0000_0000int) as u64
}

/// The state that follows `x` at one draw: the FxHash of `x` written as a
/// `u64` into a fresh hasher.
pub open spec fn next_rand(x: u64) -> u64 {
    fx_finish(usize::BITS, seq![(x, 8u8)])
}

/// The state after `n` draws from state `x`.
pub open spec fn rand_after(x: u64, n: nat) -> u64
    decreases n,
{
    if n == 0 {
        x
    } else {
        next_rand(rand_after(x, (n - 1) as nat))
    }
}

/// Drawing `m` numbers and then `n` more leaves the generator where drawing
/// `m + n` numbers does: the draws of one call continue those of the last.
pub proof fn lemma_draws_compose(x: u64, m: nat, n: nat)
    ensures
        rand_after(rand_after(x, m), n) == rand_after(x, m + n),
    decreases n,
{
    if n > 0 {
        lemma_draws_compose(x, m, (n - 1) as nat);
        assert(rand_after(x, m + n) == next_rand(rand_after(x, (m + n - 1) as nat)));
    }
}

/// A pseudo-random generator; each draw returns the new state.
#[allow(non_camel_case_types)]
pub struct myrand {
    pub holdrand: u64,
}

impl myrand {
    /// A generator seeded from the current time.
    pub fn new() -> (r: myrand)
        ensures
            exists|sec: i64, nsec: i32|
                0 <= nsec < 1_000_000_000 && #[trigger] time_seed(sec, nsec) == r.holdrand,
    {
        let (sec, nsec) = current_time();
        myrand::from_time(sec, nsec)
    }

    /// A generator seeded from the clock reading `sec` seconds and `nsec`
    /// nanoseconds.
    pub fn from_time(sec: i64, nsec: i32) -> (r: myrand)
        requires
            0 <= nsec < 1_000_000_000,
        ensures
            r.holdrand == time_seed(sec, nsec),
    {
        let millis: i64 = (nsec / 1000 / 1000) as i64;
        let seed: u64 = if sec >= 0 {
            sec as u64 + millis as u64
        } else {
            let m: i64 = sec + millis;
            if m >= 0 {
                m as u64
            } else {
                (m + i64::MAX + 1) as u64 + 0x8000_0000_0000_0000u64
            }
        };
        myrand { holdrand: seed }
    }

    /// Draws the next number: the FxHash of the current state, which also
    /// becomes the new state.
    pub fn rand(&mut self) -> (r: u64)
        ensures
            r == next_rand(old(self).holdrand),
            final(self).holdrand == r,
    {
        let mut hasher = FxState::new();
        hasher.write_u64(self.holdrand);
        let new_rand = hasher.finish();
        self.holdrand = new_rand;
        new_rand
    }
}

} // verus!
