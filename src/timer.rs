use vstd::prelude::*;
use crate::clock::now_micros;
use crate::display::{clock_text, format_clock, micros_to_seconds, whole_seconds};
use crate::phase::{next_phase, Phase};

verus! {

/// The number of microseconds in one minute.
pub const MICROS_PER_MINUTE: i64 = 60_000_000;

/// The mathematical state of the timer. Times are in microseconds.
pub struct TimerModel {
    pub phase: Phase,
    pub sit: int,
    pub stand: int,
    pub last_switch: int,
    pub exit: bool,
}

impl TimerModel {
    /// The configured length of phase `p`.
    pub open spec fn duration_of(self, p: Phase) -> int {
        match p {
            Phase::Sit => self.sit,
            Phase::Stand => self.stand,
        }
    }

    /// The time left in the current phase at time `now`; negative once it is overdue.
    pub open spec fn remaining_at(self, now: int) -> int {
        self.duration_of(self.phase) - (now - self.last_switch)
    }

    /// The state after a tick at `now`: when the current phase is overdue, the
    /// other phase starts at `now`; otherwise nothing changes.
    pub open spec fn advanced(self, now: int) -> TimerModel {
        if self.remaining_at(now) < 0 {
            TimerModel { phase: next_phase(self.phase), last_switch: now, ..self }
        } else {
            self
        }
    }

    /// The state after ticks at every time unit `start`, `start + 1`, ..., `start + t`.
    pub open spec fn ticked_each_unit(self, start: int, t: nat) -> TimerModel
        decreases t,
    {
        if t == 0 {
            self.advanced(start)
        } else {
            self.ticked_each_unit(start, (t - 1) as nat).advanced(start + t)
        }
    }
}

/// The interval timer: the current phase, the two phase lengths, the time of the
/// last phase switch, and whether the user asked to quit.
pub struct App {
    phase: Phase,
    sit_time: i64,
    stand_time: i64,
    last_switch: i64,
    exit: bool,
}

/// The longest phase that can be configured, in microseconds.
pub open spec fn max_duration() -> int {
    u32::MAX as int * MICROS_PER_MINUTE as int
}

impl View for App {
    type V = TimerModel;

    closed spec fn view(&self) -> TimerModel {
        TimerModel {
            phase: self.phase,
            sit: self.sit_time as int,
            stand: self.stand_time as int,
            last_switch: self.last_switch as int,
            exit: self.exit,
        }
    }
}

impl App {
    /// Both phase lengths are whole minutes of a `u32` count.
    pub open spec fn wf(&self) -> bool {
        &&& 0 <= self@.sit <= max_duration()
        &&& 0 <= self@.stand <= max_duration()
        &&& self@.last_switch == self@.last_switch as i64 as int
    }

    /// A timer in the sit phase with the given lengths in minutes, its last switch
    /// at time zero.
    pub fn new(sit_time: u32, stand_time: u32) -> (r: App)
        ensures
            r.wf(),
            r@ == (TimerModel {
                phase: Phase::Sit,
                sit: sit_time as int * MICROS_PER_MINUTE as int,
                stand: stand_time as int * MICROS_PER_MINUTE as int,
                last_switch: 0,
                exit: false,
            }),
    {
        proof {
            assert(sit_time as int * MICROS_PER_MINUTE as int <= max_duration()) by (nonlinear_arith)
                requires sit_time <= u32::MAX;
            assert(stand_time as int * MICROS_PER_MINUTE as int <= max_duration()) by (nonlinear_arith)
                requires stand_time <= u32::MAX;
        }
        App {
            phase: Phase::Sit,
            sit_time: sit_time as i64 * MICROS_PER_MINUTE,
            stand_time: stand_time as i64 * MICROS_PER_MINUTE,
            last_switch: 0,
            exit: false,
        }
    }

    /// Starts the current phase at `now`.
    pub fn start_at(&mut self, now: i64)
        requires
            old(self).wf(),
        ensures
            final(self).wf(),
            final(self)@ == (TimerModel { last_switch: now as int, ..old(self)@ }),
    {
        self.last_switch = now;
    }

    /// Starts the current phase at the present time, read from the system clock.
    /// Returns the reading; without one (`None`) the state is left as it was.
    pub fn start(&mut self) -> (r: Option<i64>)
        requires
            old(self).wf(),
        ensures
            final(self).wf(),
            match r {
                Some(now) => final(self)@ == (TimerModel { last_switch: now as int, ..old(self)@ }),
                None => final(self)@ == old(self)@,
            },
    {
        let now = now_micros();
        if let Some(t) = now {
            self.start_at(t);
        }
        now
    }

    /// The current phase.
    pub fn current_phase(&self) -> (r: Phase)
        ensures
            r == self@.phase,
    {
        self.phase
    }

    /// Whether the user asked to quit.
    pub fn should_exit(&self) -> (r: bool)
        ensures
            r == self@.exit,
    {
        self.exit
    }

    /// The time left in the current phase at `now`, in microseconds. It depends on
    /// `now` and the state alone, and is negative once the phase is overdue.
    pub fn remaining(&self, now: i64) -> (r: i128)
        requires
            self.wf(),
        ensures
            r == self@.remaining_at(now as int),
    {
        let d: i64 = match self.phase {
            Phase::Sit => self.sit_time,
            Phase::Stand => self.stand_time,
        };
        (d as i128) - ((now as i128) - (self.last_switch as i128))
    }

    /// One tick of the timer at `now`: when the current phase is overdue it flips to
    /// the other phase, which starts at `now`.
    pub fn advance(&mut self, now: i64)
        requires
            old(self).wf(),
        ensures
            final(self).wf(),
            final(self)@ == old(self)@.advanced(now as int),
    {
        if self.remaining(now) < 0 {
            self.phase = self.phase.next();
            self.last_switch = now;
        }
    }

    /// One tick of the timer at the present time, read from the system clock.
    /// Returns the reading; without one (`None`) the state is left as it was.
    pub fn advance_now(&mut self) -> (r: Option<i64>)
        requires
            old(self).wf(),
        ensures
            final(self).wf(),
            match r {
                Some(now) => final(self)@ == old(self)@.advanced(now as int),
                None => final(self)@ == old(self)@,
            },
    {
        let now = now_micros();
        if let Some(t) = now {
            self.advance(t);
        }
        now
    }

    /// The countdown shown at `now`: the whole seconds left, as `M:SS`.
    pub fn clock_text(&self, now: i64) -> (r: String)
        requires
            self.wf(),
        ensures
            r@ == clock_text(whole_seconds(self@.remaining_at(now as int))),
    {
        format_clock(micros_to_seconds(self.remaining(now)))
    }

    /// Handles a key event: a press of `q` asks to quit; every other key, and every
    /// release, is ignored.
    pub fn handle_key(&mut self, key: char, press: bool)
        requires
            old(self).wf(),
        ensures
            final(self).wf(),
            final(self)@ == (TimerModel { exit: old(self)@.exit || (press && key == 'q'), ..old(self)@ }),
    {
        if press && key == 'q' {
            self.exit = true;
        }
    }
}

} // verus!
