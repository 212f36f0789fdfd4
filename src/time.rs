use vstd::prelude::*;

verus! {

/// One millisecond, in the nanoseconds that every timestamp and duration here is counted in.
pub const NANOS_PER_MILLI: u64 = 1_000_000;

/// The update interval a new loop starts with: 40 ms.
pub const DEFAULT_UPDATE_INTERVAL: u64 = 40 * NANOS_PER_MILLI;

/// A timescale of 1.0: timescales are counted in millionths.
pub const TIMESCALE_ONE: u64 = 1_000_000;

/// A lapse of one whole update interval: lapses are counted in millionths of it.
pub const LAPSE_ONE: u64 = 1_000_000;

/// Real time that has passed from `earlier` to `now`; a clock that reports a
/// time before `earlier` counts as no time having passed.
pub open spec fn elapsed(earlier: u64, now: u64) -> u64 {
    if now >= earlier {
        (now - earlier) as u64
    } else {
        0
    }
}

/// `x`, held to what a `u64` can count.
pub open spec fn saturate(x: int) -> u64 {
    if x > u64::MAX {
        u64::MAX
    } else if x < 0 {
        0
    } else {
        x as u64
    }
}

/// Simulation time that `passed` nanoseconds of real time are worth at `timescale`
/// (in millionths), rounded down.
pub open spec fn scaled(passed: u64, timescale: u64) -> int {
    (passed * timescale) / (TIMESCALE_ONE as int)
}

/// How far `since` nanoseconds reach into an update interval of `interval`
/// nanoseconds, in millionths of it, rounded down. A whole interval or more,
/// or an interval of zero, gives 0.
pub open spec fn fraction(since: u64, interval: u64) -> u64 {
    if interval == 0 {
        0
    } else if (since * LAPSE_ONE) / (interval as int) >= LAPSE_ONE {
        0
    } else {
        ((since * LAPSE_ONE) / (interval as int)) as u64
    }
}

/// Nanoseconds that have passed between the timestamp `earlier` and `now`.
pub fn delta_time(earlier: u64, now: u64) -> (r: u64)
    ensures
        r == elapsed(earlier, now),
{
    if now >= earlier {
        now - earlier
    } else {
        0
    }
}

/// The lapse of a call that comes `since` nanoseconds after the last tick, for
/// an update interval of `interval` nanoseconds: always below one whole interval.
pub fn fraction_of(since: u64, interval: u64) -> (r: u64)
    ensures
        r == fraction(since, interval),
        r < LAPSE_ONE,
        since == interval ==> r == 0,
{
    if interval == 0 {
        return 0;
    }
    proof {
        assert(since * LAPSE_ONE <= u64::MAX * LAPSE_ONE) by (nonlinear_arith)
            requires
                since <= u64::MAX,
        ;
    }
    let q: u128 = (since as u128) * (LAPSE_ONE as u128) / (interval as u128);
    proof {
        if since == interval {
            assert((since * LAPSE_ONE) / (interval as int) == LAPSE_ONE) by (nonlinear_arith)
                requires
                    since == interval,
                    interval > 0,
            ;
        }
    }
    if q >= LAPSE_ONE as u128 {
        0
    } else {
        q as u64
    }
}

/// `sim` advanced by `passed` nanoseconds of real time at `timescale`, held to
/// what a `u64` can count.
fn advance_scaled(sim: u64, passed: u64, timescale: u64) -> (r: u64)
    ensures
        r == saturate(sim + scaled(passed, timescale)),
{
    proof {
        assert(passed * timescale <= u64::MAX * u64::MAX) by (nonlinear_arith)
            requires
                passed <= u64::MAX,
                timescale <= u64::MAX,
        ;
        assert((passed * timescale) / (TIMESCALE_ONE as int) <= passed * timescale) by (nonlinear_arith)
            requires
                passed * timescale >= 0,
        ;
    }
    let inc: u128 = (passed as u128) * (timescale as u128) / (TIMESCALE_ONE as u128);
    let total: u128 = (sim as u128) + inc;
    if total > u64::MAX as u128 {
        u64::MAX
    } else {
        total as u64
    }
}

/// What a `State` holds, as Verus sees it.
pub struct StateModel {
    pub timescale: u64,
    pub simulate: bool,
    pub clock_start: u64,
    pub last_tick: Option<u64>,
    pub delta_time: u64,
    pub lapse: u64,
    pub irl_time: u64,
    pub sim_time: u64,
}

impl StateModel {
    /// A running clock started at `now`, at a timescale of 1.0, that has not ticked yet.
    pub open spec fn started_at(now: u64) -> StateModel {
        StateModel {
            timescale: TIMESCALE_ONE,
            simulate: true,
            clock_start: now,
            last_tick: None,
            delta_time: 0,
            lapse: 0,
            irl_time: 0,
            sim_time: 0,
        }
    }

    /// The lapse stays below one whole update interval.
    pub open spec fn wf(self) -> bool {
        self.lapse < LAPSE_ONE
    }
}

/// What a `Loop` holds, as Verus sees it.
pub struct LoopModel {
    pub state: StateModel,
    pub realtime: bool,
    pub scale_fixed_ticks: bool,
    pub update_interval: u64,
    pub awake: bool,
}

impl LoopModel {
    /// The update interval is never zero, and the state is well formed.
    pub open spec fn wf(self) -> bool {
        self.update_interval > 0 && self.state.wf()
    }

    /// Real time since the last tick at `now`; before the first tick, since the clock started.
    pub open spec fn since_last_tick(self, now: u64) -> u64 {
        match self.state.last_tick {
            Some(t) => elapsed(t, now),
            None => elapsed(self.state.clock_start, now),
        }
    }

    /// Whether a step at `now` is a tick: always when not in real time and for the
    /// first tick, else once a whole update interval has passed since the last tick.
    pub open spec fn crosses_tick(self, now: u64) -> bool {
        ||| !self.realtime
        ||| self.state.last_tick is None
        ||| self.since_last_tick(now) >= self.update_interval
    }

    /// The clock after a tick at `now`. Out of real-time mode a tick lasts one
    /// update interval of simulation time, scaled by the timescale only where
    /// `scale_fixed_ticks` is set.
    pub open spec fn ticked_state(self, now: u64) -> StateModel {
        let e = self.since_last_tick(now);
        let s = self.state;
        if self.realtime {
            StateModel {
                delta_time: e,
                sim_time: saturate(s.sim_time + scaled(e, s.timescale)),
                irl_time: saturate(s.irl_time + e),
                last_tick: Some(now),
                lapse: 0,
                ..s
            }
        } else {
            let advance = if self.scale_fixed_ticks {
                scaled(self.update_interval, s.timescale)
            } else {
                self.update_interval as int
            };
            StateModel {
                delta_time: self.update_interval,
                sim_time: saturate(s.sim_time + advance),
                irl_time: elapsed(s.clock_start, now),
                last_tick: Some(now),
                lapse: 0,
                ..s
            }
        }
    }

    /// The loop after a step at `now`.
    pub open spec fn next(self, now: u64) -> LoopModel {
        if !self.state.simulate {
            self
        } else if self.crosses_tick(now) {
            LoopModel { state: self.ticked_state(now), awake: true, ..self }
        } else {
            LoopModel {
                state: StateModel {
                    lapse: fraction(self.since_last_tick(now), self.update_interval),
                    ..self.state
                },
                awake: false,
                ..self
            }
        }
    }
}

/// The loop after a step at each time of `nows`, in order.
pub open spec fn run(m: LoopModel, nows: Seq<u64>) -> LoopModel
    decreases nows.len(),
{
    if nows.len() == 0 {
        m
    } else {
        run(m, nows.drop_last()).next(nows.last())
    }
}

/// The timing state of a simulation, which update logic may read and adjust.
#[derive(Clone, Copy)]
pub struct State {
    timescale: u64,
    simulate: bool,
    clock_start: u64,
    last_tick: Option<u64>,
    delta_time: u64,
    lapse: u64,
    irl_time: u64,
    sim_time: u64,
}

impl View for State {
    type V = StateModel;

    closed spec fn view(&self) -> StateModel {
        StateModel {
            timescale: self.timescale,
            simulate: self.simulate,
            clock_start: self.clock_start,
            last_tick: self.last_tick,
            delta_time: self.delta_time,
            lapse: self.lapse,
            irl_time: self.irl_time,
            sim_time: self.sim_time,
        }
    }
}

impl State {
    /// A running clock started at `now`, at a timescale of 1.0, that has not ticked yet.
    pub fn new(now: u64) -> (r: State)
        ensures
            r@ == StateModel::started_at(now),
            r@.wf(),
    {
        State {
            timescale: TIMESCALE_ONE,
            simulate: true,
            clock_start: now,
            last_tick: None,
            delta_time: 0,
            lapse: 0,
            irl_time: 0,
            sim_time: 0,
        }
    }

    /// Real time (ns) attributed to the last tick.
    pub fn get_delta_time(self) -> (r: u64)
        ensures
            r == self@.delta_time,
    {
        self.delta_time
    }

    /// How far the last sleeping step came into the update interval, in millionths of it.
    pub fn get_lapse(self) -> (r: u64)
        ensures
            r == self@.lapse,
    {
        self.lapse
    }

    /// Real time (ns) counted since the clock was last initialized.
    pub fn get_irl_time(self) -> (r: u64)
        ensures
            r == self@.irl_time,
    {
        self.irl_time
    }

    /// Simulation time (ns) counted since the clock was last initialized.
    pub fn get_sim_time(self) -> (r: u64)
        ensures
            r == self@.sim_time,
    {
        self.sim_time
    }

    /// Speed of simulation time relative to real time, in millionths.
    pub fn get_timescale(self) -> (r: u64)
        ensures
            r == self@.timescale,
    {
        self.timescale
    }

    /// Time of the last tick, if the clock has ticked.
    pub fn get_last_tick(self) -> (r: Option<u64>)
        ensures
            r == self@.last_tick,
    {
        self.last_tick
    }

    /// Stops the clock: steps change nothing until it resumes.
    pub fn pause(&mut self)
        ensures
            final(self)@ == (StateModel { simulate: false, ..old(self)@ }),
    {
        self.simulate = false;
    }

    /// Lets the clock run again.
    pub fn resume(&mut self)
        ensures
            final(self)@ == (StateModel { simulate: true, ..old(self)@ }),
    {
        self.simulate = true;
    }

    /// Sets the timescale (in millionths) that the next real-time tick applies.
    /// A timescale of zero holds simulation time still.
    pub fn set_timescale(&mut self, timescale: u64)
        ensures
            final(self)@ == (StateModel { timescale, ..old(self)@ }),
    {
        self.timescale = timescale;
    }
}

/// Why a loop refused a setting.
#[derive(Clone, Copy, Debug, PartialEq, Eq, Structural)]
pub enum ConfigError {
    /// An update interval must be longer than zero.
    ZeroUpdateInterval,
}

/// The simulation loop: decides at each step whether update logic runs.
pub struct Loop {
    state: State,
    realtime: bool,
    scale_fixed_ticks: bool,
    update_interval: u64,
    awake: bool,
}

impl View for Loop {
    type V = LoopModel;

    closed spec fn view(&self) -> LoopModel {
        LoopModel {
            state: self.state@,
            realtime: self.realtime,
            scale_fixed_ticks: self.scale_fixed_ticks,
            update_interval: self.update_interval,
            awake: self.awake,
        }
    }
}

impl Loop {
    /// A real-time loop with the default update interval, whose clock started at
    /// `now`; its delta time starts at the update interval, so it is never zero
    /// before the first tick.
    pub fn new(now: u64) -> (r: Loop)
        ensures
            r@ == (LoopModel {
                state: StateModel { delta_time: DEFAULT_UPDATE_INTERVAL, ..StateModel::started_at(now) },
                realtime: true,
                scale_fixed_ticks: false,
                update_interval: DEFAULT_UPDATE_INTERVAL,
                awake: false,
            }),
            r@.state.delta_time == r@.update_interval,
            r@.wf(),
    {
        let mut state = State::new(now);
        state.delta_time = DEFAULT_UPDATE_INTERVAL;
        Loop {
            state,
            realtime: true,
            scale_fixed_ticks: false,
            update_interval: DEFAULT_UPDATE_INTERVAL,
            awake: false,
        }
    }

    /// Restarts the clock at `now`: it runs again, and the real and simulation
    /// times count from zero. Settings, the last tick, the delta time and the
    /// awake flag are kept.
    pub fn init(&mut self, now: u64)
        ensures
            final(self)@ == (LoopModel {
                state: StateModel {
                    simulate: true,
                    clock_start: now,
                    irl_time: 0,
                    sim_time: 0,
                    ..old(self)@.state
                },
                ..old(self)@
            }),
            old(self)@.wf() ==> final(self)@.wf(),
    {
        self.state.simulate = true;
        self.state.clock_start = now;
        self.state.irl_time = 0;
        self.state.sim_time = 0;
    }

    /// Whether the last step was a tick, so that update logic should run.
    pub fn is_awake(&self) -> (r: bool)
        ensures
            r == self@.awake,
    {
        self.awake
    }

    /// The loop's timing state.
    pub fn get_state(&self) -> (r: &State)
        ensures
            r@ == self@.state,
    {
        &self.state
    }

    /// The loop's timing state, to pause, resume or rescale it.
    pub fn get_state_mut(&mut self) -> (r: &mut State)
        ensures
            r@ == old(self)@.state,
            final(self)@ == (LoopModel { state: final(r)@, ..old(self)@ }),
    {
        &mut self.state
    }

    /// One call of the loop at `now`: a tick or a sleeping step as `LoopModel::next`
    /// says; nothing changes while the clock is paused.
    pub fn step(&mut self, now: u64)
        ensures
            final(self)@ == old(self)@.next(now),
            old(self)@.wf() ==> final(self)@.wf(),
    {
        if !self.state.simulate {
            return;
        }
        let since = match self.state.last_tick {
            Some(t) => delta_time(t, now),
            None => delta_time(self.state.clock_start, now),
        };
        if !self.realtime || self.state.last_tick.is_none() || since >= self.update_interval {
            if self.realtime {
                self.state.delta_time = since;
                self.state.sim_time = advance_scaled(self.state.sim_time, since, self.state.timescale);
                self.state.irl_time = self.state.irl_time.saturating_add(since);
            } else {
                self.state.delta_time = self.update_interval;
                if self.scale_fixed_ticks {
                    self.state.sim_time = advance_scaled(
                        self.state.sim_time,
                        self.update_interval,
                        self.state.timescale,
                    );
                } else {
                    self.state.sim_time = self.state.sim_time.saturating_add(self.update_interval);
                }
                self.state.irl_time = delta_time(self.state.clock_start, now);
            }
            self.state.last_tick = Some(now);
            self.state.lapse = 0;
            self.awake = true;
        } else {
            self.state.lapse = fraction_of(since, self.update_interval);
            self.awake = false;
        }
    }

    /// Turns real-time mode on or off, from the next step on.
    pub fn set_realtime(&mut self, realtime: bool)
        ensures
            final(self)@ == (LoopModel { realtime, ..old(self)@ }),
    {
        self.realtime = realtime;
    }

    /// Whether ticks out of real-time mode advance simulation time by the update
    /// interval scaled by the timescale, rather than by the update interval alone
    /// (the default), from the next step on.
    pub fn set_scale_fixed_ticks(&mut self, scale: bool)
        ensures
            final(self)@ == (LoopModel { scale_fixed_ticks: scale, ..old(self)@ }),
    {
        self.scale_fixed_ticks = scale;
    }

    /// The shortest real time (ns) between two ticks in real-time mode, and the
    /// length of every tick otherwise.
    pub fn get_update_interval(self) -> (r: u64)
        ensures
            r == self@.update_interval,
    {
        self.update_interval
    }

    /// Sets the update interval (ns), from the next step on; an interval of zero
    /// is refused and changes nothing.
    pub fn set_update_interval(&mut self, update_interval: u64) -> (r: Result<(), ConfigError>)
        ensures
            update_interval == 0 <==> r == Err::<(), ConfigError>(ConfigError::ZeroUpdateInterval),
            update_interval > 0 <==> r is Ok,
            r is Ok ==> final(self)@ == (LoopModel { update_interval, ..old(self)@ }),
            r is Err ==> final(self)@ == old(self)@,
            old(self)@.wf() ==> final(self)@.wf(),
    {
        if update_interval == 0 {
            return Err(ConfigError::ZeroUpdateInterval);
        }
        self.update_interval = update_interval;
        Ok(())
    }
}

} // verus!
