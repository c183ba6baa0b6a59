use vstd::prelude::*;
use vstd::arithmetic::div_mod::{
    lemma_fundamental_div_mod, lemma_fundamental_div_mod_converse, lemma_mod_pos_bound,
};
use crate::phase::{next_phase, Phase};
use crate::timer::TimerModel;

verus! {

/// Counting up by one moves a remainder up by one, or wraps it to zero.
proof fn lemma_mod_step(t: int, p: int)
    requires
        t >= 0,
        p > 0,
    ensures
        t % p + 1 < p ==> (t + 1) % p == t % p + 1,
        t % p + 1 >= p ==> (t + 1) % p == 0,
{
    let q = t / p;
    let r = t % p;
    lemma_fundamental_div_mod(t, p);
    lemma_mod_pos_bound(t, p);
    assert(t == q * p + r) by (nonlinear_arith)
        requires t == p * q + r;
    if r + 1 < p {
        lemma_fundamental_div_mod_converse(t + 1, p, q, r + 1);
    } else {
        assert(t + 1 == (q + 1) * p + 0) by (nonlinear_arith)
            requires t == q * p + r, r + 1 == p;
        lemma_fundamental_div_mod_converse(t + 1, p, q + 1, 0);
    }
}

/// A tick at which the current phase is overdue switches to the other phase exactly
/// once: the new phase starts at that tick with its full length left, which is never
/// negative, so a second tick at the same time changes nothing.
pub proof fn lemma_overdue_advance_flips_once(m: TimerModel, now: int)
    requires
        m.sit >= 0,
        m.stand >= 0,
        m.remaining_at(now) < 0,
    ensures
        m.advanced(now).phase == next_phase(m.phase),
        m.advanced(now).phase != m.phase,
        m.advanced(now).last_switch == now,
        m.advanced(now).remaining_at(now) == m.duration_of(next_phase(m.phase)),
        m.advanced(now).remaining_at(now) >= 0,
        m.advanced(now).advanced(now) == m.advanced(now),
{
}

/// After a tick at `now` the current phase is never overdue at `now`, so ticking
/// again at the same time leaves the state as it is.
pub proof fn lemma_advance_settles(m: TimerModel, now: int)
    requires
        m.sit >= 0,
        m.stand >= 0,
    ensures
        m.advanced(now).remaining_at(now) >= 0,
        m.advanced(now).advanced(now) == m.advanced(now),
{
}

/// With the timer ticked at every time unit from the start of a sit phase, the
/// phase at `t` units after the start is Sit when `t` modulo the cycle length is
/// at most the sit length, and Stand otherwise. The cycle is the two lengths plus
/// one unit each: a phase ends only once its time left has gone below zero, so a
/// zero-length phase lasts a single tick.
pub proof fn lemma_phase_schedule(m: TimerModel, start: int, t: nat)
    requires
        m.sit >= 0,
        m.stand >= 0,
        m.phase == Phase::Sit,
        m.last_switch == start,
    ensures
        m.ticked_each_unit(start, t).phase == (if (t as int) % (m.sit + m.stand + 2) <= m.sit {
            Phase::Sit
        } else {
            Phase::Stand
        }),
{
    lemma_schedule_state(m, start, t);
}

/// The full state along the schedule of `lemma_phase_schedule`: which phase runs,
/// and when it started.
proof fn lemma_schedule_state(m: TimerModel, start: int, t: nat)
    requires
        m.sit >= 0,
        m.stand >= 0,
        m.phase == Phase::Sit,
        m.last_switch == start,
    ensures
        ({
            let s = m.ticked_each_unit(start, t);
            let p = (t as int) % (m.sit + m.stand + 2);
            &&& s.sit == m.sit
            &&& s.stand == m.stand
            &&& p <= m.sit ==> s.phase == Phase::Sit && s.last_switch == start + t - p
            &&& p > m.sit ==> s.phase == Phase::Stand && s.last_switch == start + t - p + m.sit + 1
        }),
    decreases t,
{
    let c = m.sit + m.stand + 2;
    if t == 0 {
        assert(0int % c == 0) by (nonlinear_arith)
            requires c > 0;
    } else {
        let u = (t - 1) as nat;
        lemma_schedule_state(m, start, u);
        lemma_mod_step(u as int, c);
        lemma_mod_pos_bound(u as int, c);
    }
}

} // verus!
