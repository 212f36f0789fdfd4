use vstd::prelude::*;
use crate::time::{fraction, run, LoopModel, LAPSE_ONE};

verus! {

/// Steps never change the settings: mode, update interval, whether the clock
/// runs, its timescale and its start.
pub proof fn lemma_run_keeps_settings(m: LoopModel, nows: Seq<u64>)
    ensures
        run(m, nows).realtime == m.realtime,
        run(m, nows).update_interval == m.update_interval,
        run(m, nows).state.simulate == m.state.simulate,
        run(m, nows).state.timescale == m.state.timescale,
        run(m, nows).state.clock_start == m.state.clock_start,
    decreases nows.len(),
{
    if nows.len() > 0 {
        lemma_run_keeps_settings(m, nows.drop_last());
    }
}

/// The loop after the first `k` steps is the loop after `k - 1` steps, stepped once more.
proof fn lemma_run_prefix(m: LoopModel, nows: Seq<u64>, k: int)
    requires
        0 < k <= nows.len(),
    ensures
        run(m, nows.take(k)) == run(m, nows.take(k - 1)).next(nows[k - 1]),
{
    assert(nows.take(k).drop_last() =~= nows.take(k - 1));
}

/// While the clock is paused, any number of steps leaves the loop as it was.
pub proof fn lemma_paused_steps_change_nothing(m: LoopModel, nows: Seq<u64>)
    requires
        !m.state.simulate,
    ensures
        run(m, nows) == m,
    decreases nows.len(),
{
    if nows.len() > 0 {
        lemma_paused_steps_change_nothing(m, nows.drop_last());
    }
}

/// Out of real-time mode, every step of a running clock is a tick, whatever
/// time it comes at, and its delta time is exactly the update interval.
pub proof fn lemma_non_realtime_every_step_ticks(m: LoopModel, nows: Seq<u64>)
    requires
        m.state.simulate,
        !m.realtime,
    ensures
        forall|i: int|
            0 <= i < nows.len() ==> {
                &&& (#[trigger] run(m, nows.take(i + 1))).awake
                &&& run(m, nows.take(i + 1)).state.delta_time == m.update_interval
            },
{
    assert forall|i: int| 0 <= i < nows.len() implies {
        &&& (#[trigger] run(m, nows.take(i + 1))).awake
        &&& run(m, nows.take(i + 1)).state.delta_time == m.update_interval
    } by {
        lemma_run_prefix(m, nows, i + 1);
        lemma_run_keeps_settings(m, nows.take(i));
    }
}

/// In real-time mode, after `k` steps that each came at least one update
/// interval after the one before (the first, after the last tick), each was a tick.
proof fn lemma_spaced_prefix_ticks(m: LoopModel, nows: Seq<u64>, k: int)
    requires
        m.state.simulate,
        m.realtime,
        0 <= k <= nows.len(),
        nows.len() > 0 && m.state.last_tick is Some ==> nows[0] >= m.state.last_tick->0
            + m.update_interval,
        forall|i: int| 0 < i < nows.len() ==> #[trigger] nows[i] >= nows[i - 1] + m.update_interval,
    ensures
        k > 0 ==> run(m, nows.take(k)).awake,
        k > 0 ==> run(m, nows.take(k)).state.last_tick == Some(nows[k - 1]),
    decreases k,
{
    if k > 0 {
        lemma_spaced_prefix_ticks(m, nows, k - 1);
        lemma_run_prefix(m, nows, k);
        lemma_run_keeps_settings(m, nows.take(k - 1));
        if k == 1 {
            assert(nows.take(0) =~= Seq::<u64>::empty());
        }
    }
}

/// In real-time mode, when each step comes at least one update interval after
/// the one before (the first, after the last tick), every step is a tick.
pub proof fn lemma_spaced_steps_all_tick(m: LoopModel, nows: Seq<u64>)
    requires
        m.state.simulate,
        m.realtime,
        nows.len() > 0 && m.state.last_tick is Some ==> nows[0] >= m.state.last_tick->0
            + m.update_interval,
        forall|i: int| 0 < i < nows.len() ==> #[trigger] nows[i] >= nows[i - 1] + m.update_interval,
    ensures
        forall|i: int| 0 <= i < nows.len() ==> (#[trigger] run(m, nows.take(i + 1))).awake,
{
    assert forall|i: int| 0 <= i < nows.len() implies (#[trigger] run(
        m,
        nows.take(i + 1),
    )).awake by {
        lemma_spaced_prefix_ticks(m, nows, i + 1);
    }
}

/// In real-time mode, after `k` steps that all came before a whole update
/// interval had passed since the last tick, none was a tick and the last tick stays.
proof fn lemma_short_prefix_sleeps(m: LoopModel, nows: Seq<u64>, k: int)
    requires
        m.state.simulate,
        m.realtime,
        m.update_interval > 0,
        m.state.last_tick is Some,
        0 <= k <= nows.len(),
        forall|i: int| 0 <= i < nows.len() ==> nows[i] < m.state.last_tick->0 + m.update_interval,
    ensures
        run(m, nows.take(k)).state.last_tick == m.state.last_tick,
        k > 0 ==> !run(m, nows.take(k)).awake,
    decreases k,
{
    if k == 0 {
        assert(nows.take(0) =~= Seq::<u64>::empty());
    } else {
        lemma_short_prefix_sleeps(m, nows, k - 1);
        lemma_run_prefix(m, nows, k);
        lemma_run_keeps_settings(m, nows.take(k - 1));
    }
}

/// In real-time mode, steps that come before a whole update interval has passed
/// since the last tick are not ticks; the first step once it has passed is one.
pub proof fn lemma_short_steps_sleep_until_interval(m: LoopModel, nows: Seq<u64>, later: u64)
    requires
        m.state.simulate,
        m.realtime,
        m.update_interval > 0,
        m.state.last_tick is Some,
        forall|i: int| 0 <= i < nows.len() ==> nows[i] < m.state.last_tick->0 + m.update_interval,
        later >= m.state.last_tick->0 + m.update_interval,
    ensures
        forall|i: int| 0 <= i < nows.len() ==> !(#[trigger] run(m, nows.take(i + 1))).awake,
        run(m, nows).next(later).awake,
{
    assert forall|i: int| 0 <= i < nows.len() implies !(#[trigger] run(
        m,
        nows.take(i + 1),
    )).awake by {
        lemma_short_prefix_sleeps(m, nows, i + 1);
    }
    lemma_short_prefix_sleeps(m, nows, nows.len() as int);
    assert(nows.take(nows.len() as int) =~= nows);
    lemma_run_keeps_settings(m, nows);
}

/// The lapse stays within [0, 1) of an update interval after every step, and a
/// step that comes exactly one update interval after the last tick leaves it at 0.
pub proof fn lemma_lapse_in_range(m: LoopModel, now: u64)
    requires
        m.wf(),
    ensures
        m.next(now).wf(),
        0 <= m.next(now).state.lapse < LAPSE_ONE,
        m.state.simulate && m.since_last_tick(now) == m.update_interval ==> m.next(now).state.lapse
            == 0,
        fraction(m.update_interval, m.update_interval) == 0,
{
    let i = m.update_interval;
    assert((i * LAPSE_ONE) / (i as int) == LAPSE_ONE) by (nonlinear_arith)
        requires
            i > 0,
    ;
}

} // verus!
