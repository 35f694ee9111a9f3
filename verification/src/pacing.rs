use vstd::arithmetic::div_mod::{
    lemma_div_is_ordered, lemma_div_multiples_vanish, lemma_fundamental_div_mod,
};
use vstd::prelude::*;

verus! {

/// One second, in nanoseconds: the time budget a speed of 1 would give a
/// single frame.
pub const NANOS_PER_SECOND: u32 = 1_000_000_000;

/// The inter-frame delay in nanoseconds for a given speed: one second
/// divided by the speed, rounded down.
pub open spec fn frame_delay_spec(speed: nat) -> nat
    recommends
        speed >= 1,
{
    (NANOS_PER_SECOND as nat) / speed
}

/// How long the game loop blocks between frames.
pub fn frame_delay_ns(speed: u32) -> (delay: u32)
    requires
        speed >= 1,
    ensures
        delay == frame_delay_spec(speed as nat),
{
    NANOS_PER_SECOND / speed
}

/// Frame pacing: a higher speed gives a strictly shorter delay, as long as
/// the two speeds are small enough for whole nanoseconds to separate their
/// delays (their product is at most one second in nanoseconds; for two
/// speeds whose product exceeds it, the rounded delays can coincide).
pub proof fn lemma_frame_pacing(slow: nat, fast: nat)
    requires
        1 <= slow < fast,
        slow * fast <= NANOS_PER_SECOND,
    ensures
        frame_delay_spec(fast) < frame_delay_spec(slow),
{
    let n = NANOS_PER_SECOND as int;
    let s = slow as int;
    let f = fast as int;
    let q = n / f;
    lemma_fundamental_div_mod(n, f);
    assert(n == f * q + n % f);
    assert(s <= q) by (nonlinear_arith)
        requires
            n == f * (n / f) + n % f,
            0 <= n % f < f,
            q == n / f,
            s * f <= n,
            1 <= s < f,
    ;
    assert(s * (q + 1) <= n) by (nonlinear_arith)
        requires
            n == f * q + n % f,
            0 <= n % f,
            1 <= s < f,
            s <= q,
    ;
    lemma_div_multiples_vanish(q + 1, s);
    assert((s * (q + 1)) / s == q + 1);
    lemma_div_is_ordered(s * (q + 1), n, s);
    assert(n / s >= q + 1);
}

} // verus!
