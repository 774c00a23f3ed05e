//! The timer state machine and tick-accounting engine.
//!
//! The engine owns a configuration (chime interval, completion mode), a
//! lifecycle state, an elapsed-seconds counter and a derived round/chime
//! counter. It consumes discrete commands (ticks from an external clock,
//! control commands on user action) and reports a chime effect after each
//! command; collaborators render its read-only snapshot and play the chime.

use vstd::arithmetic::div_mod::lemma_mod_division_less_than_divisor;
use vstd::arithmetic::mul::{lemma_mul_strictly_positive, lemma_mul_upper_bound};
use vstd::prelude::*;

use crate::parse::{dec_value, is_dec_digits, parse_u32};

verus! {

/// Lifecycle state of the timer engine.
#[derive(Clone, Copy, Debug, PartialEq, Eq, Structural)]
pub enum Lifecycle {
    Stopped,
    Running,
    Paused,
}

/// How a run completes: after a fixed number of chime intervals ("rounds"),
/// or after a fixed number of minutes with chimes merely counted.
#[derive(Clone, Copy, Debug, PartialEq, Eq, Structural)]
pub enum CompletionMode {
    FixedRounds { num_rounds: u32 },
    FixedDuration { duration_mins: u32 },
}

/// Which configuration field a `Configure` command edits.
#[derive(Clone, Copy, Debug, PartialEq, Eq, Structural)]
pub enum ConfigField {
    Interval,
    RoundsOrDuration,
}

/// A command delivered to the engine: one tick of the external one-second
/// clock, or a control command on user action. `Configure` carries the raw
/// text of an edit; the engine itself validates it.
pub enum Command {
    Configure(ConfigField, String),
    Start,
    Pause,
    Resume,
    Stop,
    Tick,
}

/// The mathematical model of an engine: its fields as plain values, with the
/// raw configuration texts as character sequences.
pub struct EngineModel {
    pub interval_secs: u32,
    pub mode: CompletionMode,
    pub lifecycle: Lifecycle,
    pub elapsed_secs: u64,
    pub total_duration_secs: u64,
    pub counter: u64,
    pub interval_text: Seq<char>,
    pub quantity_text: Seq<char>,
}

/// The round count or duration quantity of a completion mode.
pub open spec fn mode_quantity(mode: CompletionMode) -> int {
    match mode {
        CompletionMode::FixedRounds { num_rounds } => num_rounds as int,
        CompletionMode::FixedDuration { duration_mins } => duration_mins as int,
    }
}

/// The same completion mode with its quantity replaced.
pub open spec fn with_quantity(mode: CompletionMode, q: u32) -> CompletionMode {
    match mode {
        CompletionMode::FixedRounds { .. } => CompletionMode::FixedRounds { num_rounds: q },
        CompletionMode::FixedDuration { .. } => CompletionMode::FixedDuration { duration_mins: q },
    }
}

/// Total run duration in seconds determined by a configuration.
pub open spec fn total_of(interval_secs: u32, mode: CompletionMode) -> int {
    match mode {
        CompletionMode::FixedRounds { num_rounds } => interval_secs * num_rounds,
        CompletionMode::FixedDuration { duration_mins } => duration_mins * 60,
    }
}

/// Start value of the round/chime counter: the current round is 1-based,
/// the chime count 0-based.
pub open spec fn initial_counter(mode: CompletionMode) -> int {
    match mode {
        CompletionMode::FixedRounds { .. } => 1,
        CompletionMode::FixedDuration { .. } => 0,
    }
}

impl EngineModel {
    /// Well-formedness: the configuration is positive, the stored total
    /// matches the configuration, a running or paused engine has not yet
    /// reached its total, and the counter never runs ahead of elapsed time
    /// by more than its start value.
    pub open spec fn wf(self) -> bool {
        &&& self.interval_secs > 0
        &&& mode_quantity(self.mode) > 0
        &&& self.total_duration_secs == total_of(self.interval_secs, self.mode)
        &&& ((self.lifecycle is Running || self.lifecycle is Paused) ==> self.elapsed_secs
            < self.total_duration_secs)
        &&& self.counter <= self.elapsed_secs + 1
    }
}

/// A positive total fits in `u64`: it is at most `(2^32 - 1)^2`.
pub proof fn lemma_total_of_bounds(interval_secs: u32, mode: CompletionMode)
    requires
        interval_secs > 0,
        mode_quantity(mode) > 0,
    ensures
        0 < total_of(interval_secs, mode) <= 0xFFFF_FFFE_0000_0001,
{
    match mode {
        CompletionMode::FixedRounds { num_rounds } => {
            lemma_mul_strictly_positive(interval_secs as int, num_rounds as int);
            lemma_mul_upper_bound(
                interval_secs as int,
                u32::MAX as int,
                num_rounds as int,
                u32::MAX as int,
            );
        },
        CompletionMode::FixedDuration { duration_mins } => {},
    }
}

/// Raw text is accepted as a configuration value exactly when it is a
/// non-empty all-digit numeral whose value is positive and fits in `u32`.
pub open spec fn accepts_config_text(text: Seq<char>) -> bool {
    &&& text.len() > 0
    &&& is_dec_digits(text)
    &&& 0 < dec_value(text) <= u32::MAX
}

/// Effect of `Configure(field, text)`: only while Stopped; the raw text is
/// always stored for redisplay, the configuration (and the total computed
/// from it) changes only on accepted text.
pub open spec fn spec_configure(m: EngineModel, field: ConfigField, text: Seq<char>) -> EngineModel {
    if !(m.lifecycle is Stopped) {
        m
    } else {
        match field {
            ConfigField::Interval => {
                if accepts_config_text(text) {
                    let v = dec_value(text) as u32;
                    EngineModel {
                        interval_text: text,
                        interval_secs: v,
                        total_duration_secs: total_of(v, m.mode) as u64,
                        ..m
                    }
                } else {
                    EngineModel { interval_text: text, ..m }
                }
            },
            ConfigField::RoundsOrDuration => {
                if accepts_config_text(text) {
                    let mode2 = with_quantity(m.mode, dec_value(text) as u32);
                    EngineModel {
                        quantity_text: text,
                        mode: mode2,
                        total_duration_secs: total_of(m.interval_secs, mode2) as u64,
                        ..m
                    }
                } else {
                    EngineModel { quantity_text: text, ..m }
                }
            },
        }
    }
}

/// Effect of `Start`: only while Stopped; elapsed time and the counter are
/// reset and the total is recomputed from the current configuration.
pub open spec fn spec_start(m: EngineModel) -> EngineModel {
    if m.lifecycle is Stopped {
        EngineModel {
            lifecycle: Lifecycle::Running,
            elapsed_secs: 0,
            counter: initial_counter(m.mode) as u64,
            total_duration_secs: total_of(m.interval_secs, m.mode) as u64,
            ..m
        }
    } else {
        m
    }
}

/// Effect of `Pause`: only while Running; nothing else changes.
pub open spec fn spec_pause(m: EngineModel) -> EngineModel {
    if m.lifecycle is Running {
        EngineModel { lifecycle: Lifecycle::Paused, ..m }
    } else {
        m
    }
}

/// Effect of `Resume`: only while Paused; nothing else changes.
pub open spec fn spec_resume(m: EngineModel) -> EngineModel {
    if m.lifecycle is Paused {
        EngineModel { lifecycle: Lifecycle::Running, ..m }
    } else {
        m
    }
}

/// Effect of `Stop`: only while Running or Paused; elapsed time and the
/// counter are reset to their start values.
pub open spec fn spec_stop(m: EngineModel) -> EngineModel {
    if m.lifecycle is Running || m.lifecycle is Paused {
        EngineModel {
            lifecycle: Lifecycle::Stopped,
            elapsed_secs: 0,
            counter: initial_counter(m.mode) as u64,
            ..m
        }
    } else {
        m
    }
}

/// Effect of one `Tick` while Running: elapsed time advances by one second;
/// on a chime the counter advances (under FixedRounds only if this is not
/// the final chime); reaching the total stops the engine without resetting
/// the completed values. A tick in any other state is ignored.
pub open spec fn spec_tick(m: EngineModel) -> EngineModel {
    if !(m.lifecycle is Running) {
        m
    } else {
        let elapsed2 = m.elapsed_secs + 1;
        let chime = elapsed2 % (m.interval_secs as int) == 0;
        let counter2 = if chime {
            match m.mode {
                CompletionMode::FixedRounds { .. } => {
                    if elapsed2 < m.total_duration_secs {
                        m.counter + 1
                    } else {
                        m.counter as int
                    }
                },
                CompletionMode::FixedDuration { .. } => m.counter + 1,
            }
        } else {
            m.counter as int
        };
        let lifecycle2 = if elapsed2 >= m.total_duration_secs {
            Lifecycle::Stopped
        } else {
            Lifecycle::Running
        };
        EngineModel {
            elapsed_secs: elapsed2 as u64,
            counter: counter2 as u64,
            lifecycle: lifecycle2,
            ..m
        }
    }
}

/// A chime fires on a tick delivered while Running whose new elapsed time is
/// a multiple of the interval, and only then.
pub open spec fn spec_chime(m: EngineModel) -> bool {
    &&& m.lifecycle is Running
    &&& (m.elapsed_secs + 1) % (m.interval_secs as int) == 0
}

/// Effect of any command on the model: the total transition function of the
/// state machine.
pub open spec fn spec_update(m: EngineModel, cmd: Command) -> EngineModel {
    match cmd {
        Command::Configure(field, text) => spec_configure(m, field, text@),
        Command::Start => spec_start(m),
        Command::Pause => spec_pause(m),
        Command::Resume => spec_resume(m),
        Command::Stop => spec_stop(m),
        Command::Tick => spec_tick(m),
    }
}

/// Whether a command makes a chime fire: only a tick can.
pub open spec fn spec_update_chime(m: EngineModel, cmd: Command) -> bool {
    cmd is Tick && spec_chime(m)
}

/// The timer engine. Construct it with [`TimerEngine::new_fixed_rounds`] or
/// [`TimerEngine::new_fixed_duration`], drive it with [`TimerEngine::update`],
/// and read it through the snapshot methods.
pub struct TimerEngine {
    interval_input: String,
    quantity_input: String,
    interval_secs: u32,
    mode: CompletionMode,
    lifecycle: Lifecycle,
    elapsed_secs: u64,
    total_duration_secs: u64,
    counter: u64,
}

impl View for TimerEngine {
    type V = EngineModel;

    closed spec fn view(&self) -> EngineModel {
        EngineModel {
            interval_secs: self.interval_secs,
            mode: self.mode,
            lifecycle: self.lifecycle,
            elapsed_secs: self.elapsed_secs,
            total_duration_secs: self.total_duration_secs,
            counter: self.counter,
            interval_text: self.interval_input@,
            quantity_text: self.quantity_input@,
        }
    }
}

/// Computes the total run duration of a configuration; it always fits in
/// `u64`.
fn compute_total(interval_secs: u32, mode: CompletionMode) -> (r: u64)
    ensures
        r == total_of(interval_secs, mode),
{
    match mode {
        CompletionMode::FixedRounds { num_rounds } => {
            proof {
                lemma_mul_upper_bound(
                    interval_secs as int,
                    u32::MAX as int,
                    num_rounds as int,
                    u32::MAX as int,
                );
            }
            (interval_secs as u64) * (num_rounds as u64)
        },
        CompletionMode::FixedDuration { duration_mins } => (duration_mins as u64) * 60,
    }
}

impl TimerEngine {
    /// A fresh engine in FixedRounds mode with the default configuration:
    /// a 60-second interval and 20 rounds.
    pub fn new_fixed_rounds() -> (e: Self)
        ensures
            e@.wf(),
            e@.lifecycle is Stopped,
            e@.interval_secs == 60,
            e@.mode == (CompletionMode::FixedRounds { num_rounds: 20 }),
            e@.elapsed_secs == 0,
            e@.total_duration_secs == 1200,
            e@.counter == 1,
            e@.interval_text == "60"@,
            e@.quantity_text == "20"@,
    {
        TimerEngine {
            interval_input: "60".to_owned(),
            quantity_input: "20".to_owned(),
            interval_secs: 60,
            mode: CompletionMode::FixedRounds { num_rounds: 20 },
            lifecycle: Lifecycle::Stopped,
            elapsed_secs: 0,
            total_duration_secs: 1200,
            counter: 1,
        }
    }

    /// A fresh engine in FixedDuration mode with the default configuration:
    /// a 60-second interval and 20 minutes.
    pub fn new_fixed_duration() -> (e: Self)
        ensures
            e@.wf(),
            e@.lifecycle is Stopped,
            e@.interval_secs == 60,
            e@.mode == (CompletionMode::FixedDuration { duration_mins: 20 }),
            e@.elapsed_secs == 0,
            e@.total_duration_secs == 1200,
            e@.counter == 0,
            e@.interval_text == "60"@,
            e@.quantity_text == "20"@,
    {
        TimerEngine {
            interval_input: "60".to_owned(),
            quantity_input: "20".to_owned(),
            interval_secs: 60,
            mode: CompletionMode::FixedDuration { duration_mins: 20 },
            lifecycle: Lifecycle::Stopped,
            elapsed_secs: 0,
            total_duration_secs: 1200,
            counter: 0,
        }
    }

    /// Applies a `Configure` edit.
    fn apply_configure(&mut self, field: ConfigField, text: String)
        requires
            old(self)@.wf(),
        ensures
            final(self)@.wf(),
            final(self)@ == spec_configure(old(self)@, field, text@),
    {
        if !(self.lifecycle == Lifecycle::Stopped) {
            return ;
        }
        let accepted: Option<u32> = match parse_u32(text.as_str()) {
            Some(v) if v > 0 => Some(v),
            _ => None,
        };
        match field {
            ConfigField::Interval => {
                self.interval_input = text;
                if let Some(v) = accepted {
                    self.interval_secs = v;
                    self.total_duration_secs = compute_total(v, self.mode);
                }
            },
            ConfigField::RoundsOrDuration => {
                self.quantity_input = text;
                if let Some(v) = accepted {
                    let mode2 = match self.mode {
                        CompletionMode::FixedRounds { .. } => CompletionMode::FixedRounds {
                            num_rounds: v,
                        },
                        CompletionMode::FixedDuration { .. } => CompletionMode::FixedDuration {
                            duration_mins: v,
                        },
                    };
                    self.mode = mode2;
                    self.total_duration_secs = compute_total(self.interval_secs, mode2);
                }
            },
        }
    }

    /// Applies one tick of the one-second clock; returns whether a chime
    /// fired.
    fn apply_tick(&mut self) -> (chime: bool)
        requires
            old(self)@.wf(),
        ensures
            final(self)@.wf(),
            final(self)@ == spec_tick(old(self)@),
            chime == spec_chime(old(self)@),
    {
        if !(self.lifecycle == Lifecycle::Running) {
            return false;
        }
        proof {
            lemma_total_of_bounds(self.interval_secs, self.mode);
        }
        self.elapsed_secs = self.elapsed_secs + 1;
        let chime = self.elapsed_secs % (self.interval_secs as u64) == 0;
        if chime {
            let advance = match self.mode {
                CompletionMode::FixedRounds { .. } => self.elapsed_secs
                    < self.total_duration_secs,
                CompletionMode::FixedDuration { .. } => true,
            };
            if advance {
                self.counter = self.counter + 1;
            }
        }
        if self.elapsed_secs >= self.total_duration_secs {
            self.lifecycle = Lifecycle::Stopped;
        }
        chime
    }

    /// Processes one command and returns whether a chime fired: the audio
    /// collaborator samples this flag after each command.
    pub fn update(&mut self, cmd: Command) -> (chime: bool)
        requires
            old(self)@.wf(),
        ensures
            final(self)@.wf(),
            final(self)@ == spec_update(old(self)@, cmd),
            chime == spec_update_chime(old(self)@, cmd),
    {
        match cmd {
            Command::Configure(field, text) => {
                self.apply_configure(field, text);
                false
            },
            Command::Start => {
                if self.lifecycle == Lifecycle::Stopped {
                    proof {
                        lemma_total_of_bounds(self.interval_secs, self.mode);
                    }
                    self.lifecycle = Lifecycle::Running;
                    self.elapsed_secs = 0;
                    self.counter = match self.mode {
                        CompletionMode::FixedRounds { .. } => 1,
                        CompletionMode::FixedDuration { .. } => 0,
                    };
                    self.total_duration_secs = compute_total(self.interval_secs, self.mode);
                }
                false
            },
            Command::Pause => {
                if self.lifecycle == Lifecycle::Running {
                    self.lifecycle = Lifecycle::Paused;
                }
                false
            },
            Command::Resume => {
                if self.lifecycle == Lifecycle::Paused {
                    self.lifecycle = Lifecycle::Running;
                }
                false
            },
            Command::Stop => {
                if self.lifecycle == Lifecycle::Running || self.lifecycle == Lifecycle::Paused {
                    self.lifecycle = Lifecycle::Stopped;
                    self.elapsed_secs = 0;
                    self.counter = match self.mode {
                        CompletionMode::FixedRounds { .. } => 1,
                        CompletionMode::FixedDuration { .. } => 0,
                    };
                }
                false
            },
            Command::Tick => self.apply_tick(),
        }
    }
}


/// Seconds left until the total duration, saturating at zero.
pub open spec fn spec_remaining_secs(m: EngineModel) -> int {
    if m.elapsed_secs <= m.total_duration_secs {
        m.total_duration_secs - m.elapsed_secs
    } else {
        0
    }
}

/// Overall progress through the run as a fraction (numerator, denominator),
/// clamped to the unit interval; a zero total yields zero progress.
pub open spec fn spec_overall_progress(m: EngineModel) -> (int, int) {
    if m.total_duration_secs > 0 {
        if m.elapsed_secs <= m.total_duration_secs {
            (m.elapsed_secs as int, m.total_duration_secs as int)
        } else {
            (m.total_duration_secs as int, m.total_duration_secs as int)
        }
    } else {
        (0, 1)
    }
}

/// Seconds spent inside the current chime interval; zero when the interval
/// is zero (which a well-formed engine never holds).
pub open spec fn spec_time_in_interval(m: EngineModel) -> int {
    if m.interval_secs > 0 {
        m.elapsed_secs as int % m.interval_secs as int
    } else {
        0
    }
}

/// Seconds left in the current chime interval: a full interval right after a
/// chime, shrinking to one just before the next.
pub open spec fn spec_interval_remaining(m: EngineModel) -> int {
    if spec_time_in_interval(m) == 0 {
        m.interval_secs as int
    } else {
        m.interval_secs - spec_time_in_interval(m)
    }
}

/// The fraction (numerator, denominator) of the current interval still to
/// run: it snaps to one right after each chime and shrinks toward zero.
pub open spec fn spec_interval_progress_remaining(m: EngineModel) -> (int, int) {
    if m.interval_secs > 0 {
        (spec_interval_remaining(m), m.interval_secs as int)
    } else {
        (0, 1)
    }
}

/// A read-only snapshot of the engine for the rendering collaborator: the
/// lifecycle state, the counters, and the progress fractions as integer
/// numerator/denominator pairs (the collaborator divides them for display).
pub struct Snapshot {
    pub lifecycle: Lifecycle,
    pub elapsed_secs: u64,
    pub remaining_secs: u64,
    pub counter: u64,
    pub progress_num: u64,
    pub progress_den: u64,
    pub interval_elapsed_secs: u32,
    pub interval_remaining_secs: u32,
    pub interval_progress_num: u32,
    pub interval_progress_den: u32,
}

impl TimerEngine {
    /// The current lifecycle state.
    pub fn lifecycle(&self) -> (r: Lifecycle)
        ensures
            r == self@.lifecycle,
    {
        self.lifecycle
    }

    /// Seconds elapsed in the current (or just-completed) run.
    pub fn elapsed_secs(&self) -> (r: u64)
        ensures
            r == self@.elapsed_secs,
    {
        self.elapsed_secs
    }

    /// The round/chime counter: the 1-based current round under FixedRounds,
    /// the chime count under FixedDuration.
    pub fn counter(&self) -> (r: u64)
        ensures
            r == self@.counter,
    {
        self.counter
    }

    /// The configured chime interval in seconds.
    pub fn interval_secs(&self) -> (r: u32)
        ensures
            r == self@.interval_secs,
    {
        self.interval_secs
    }

    /// The configured completion mode.
    pub fn completion_mode(&self) -> (r: CompletionMode)
        ensures
            r == self@.mode,
    {
        self.mode
    }

    /// The total run duration in seconds computed from the configuration.
    pub fn total_duration_secs(&self) -> (r: u64)
        ensures
            r == self@.total_duration_secs,
    {
        self.total_duration_secs
    }

    /// The raw interval text of the last `Configure` edit, for redisplay.
    pub fn interval_text(&self) -> (r: &String)
        ensures
            r@ == self@.interval_text,
    {
        &self.interval_input
    }

    /// The raw rounds/duration text of the last `Configure` edit, for
    /// redisplay.
    pub fn quantity_text(&self) -> (r: &String)
        ensures
            r@ == self@.quantity_text,
    {
        &self.quantity_input
    }

    /// Seconds left until the total duration, saturating at zero.
    pub fn remaining_secs(&self) -> (r: u64)
        ensures
            r == spec_remaining_secs(self@),
    {
        if self.elapsed_secs <= self.total_duration_secs {
            self.total_duration_secs - self.elapsed_secs
        } else {
            0
        }
    }

    /// Overall progress through the run as a clamped fraction
    /// `(numerator, denominator)` with a positive denominator.
    pub fn overall_progress(&self) -> (r: (u64, u64))
        ensures
            (r.0 as int, r.1 as int) == spec_overall_progress(self@),
            0 < r.1,
            r.0 <= r.1,
    {
        if self.total_duration_secs > 0 {
            if self.elapsed_secs <= self.total_duration_secs {
                (self.elapsed_secs, self.total_duration_secs)
            } else {
                (self.total_duration_secs, self.total_duration_secs)
            }
        } else {
            (0, 1)
        }
    }

    /// Seconds spent inside the current chime interval.
    pub fn time_in_current_interval(&self) -> (r: u32)
        ensures
            r == spec_time_in_interval(self@),
    {
        if self.interval_secs > 0 {
            proof {
                lemma_mod_division_less_than_divisor(
                    self.elapsed_secs as int,
                    self.interval_secs as int,
                );
            }
            (self.elapsed_secs % (self.interval_secs as u64)) as u32
        } else {
            0
        }
    }

    /// Seconds left in the current chime interval.
    pub fn interval_remaining_secs(&self) -> (r: u32)
        ensures
            r == spec_interval_remaining(self@),
    {
        let t = self.time_in_current_interval();
        if t == 0 {
            self.interval_secs
        } else {
            self.interval_secs - t
        }
    }

    /// The fraction of the current interval still to run, as
    /// `(numerator, denominator)` with a positive denominator.
    pub fn interval_progress_remaining(&self) -> (r: (u32, u32))
        ensures
            (r.0 as int, r.1 as int) == spec_interval_progress_remaining(self@),
            0 < r.1,
    {
        if self.interval_secs > 0 {
            (self.interval_remaining_secs(), self.interval_secs)
        } else {
            (0, 1)
        }
    }

    /// The full read-only snapshot exposed to the rendering collaborator.
    pub fn snapshot(&self) -> (s: Snapshot)
        ensures
            s.lifecycle == self@.lifecycle,
            s.elapsed_secs == self@.elapsed_secs,
            s.remaining_secs == spec_remaining_secs(self@),
            s.counter == self@.counter,
            (s.progress_num as int, s.progress_den as int) == spec_overall_progress(self@),
            s.interval_elapsed_secs == spec_time_in_interval(self@),
            s.interval_remaining_secs == spec_interval_remaining(self@),
            (s.interval_progress_num as int, s.interval_progress_den as int)
                == spec_interval_progress_remaining(self@),
    {
        let progress = self.overall_progress();
        let interval_progress = self.interval_progress_remaining();
        Snapshot {
            lifecycle: self.lifecycle(),
            elapsed_secs: self.elapsed_secs,
            remaining_secs: self.remaining_secs(),
            counter: self.counter,
            progress_num: progress.0,
            progress_den: progress.1,
            interval_elapsed_secs: self.time_in_current_interval(),
            interval_remaining_secs: self.interval_remaining_secs(),
            interval_progress_num: interval_progress.0,
            interval_progress_den: interval_progress.1,
        }
    }
}

} // verus!
