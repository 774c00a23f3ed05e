//! Laws of the engine: properties of whole command sequences, proved over
//! the spec-level transition functions of [`crate::engine`].

use vstd::arithmetic::div_mod::{
    lemma_fundamental_div_mod, lemma_fundamental_div_mod_converse,
    lemma_mod_division_less_than_divisor,
};
use vstd::math::min;
use vstd::prelude::*;

use crate::engine::{
    accepts_config_text, initial_counter, lemma_total_of_bounds, spec_configure, spec_start,
    spec_stop, spec_tick, total_of, CompletionMode, ConfigField, EngineModel,
};

verus! {

/// The state after `n` ticks.
pub open spec fn spec_ticks(m: EngineModel, n: nat) -> EngineModel
    decreases n,
{
    if n == 0 {
        m
    } else {
        spec_tick(spec_ticks(m, (n - 1) as nat))
    }
}

/// Relates integer division before and after an increment of the dividend:
/// the quotient grows by one exactly when the increment lands on a multiple
/// of the divisor.
proof fn lemma_div_succ(e: int, i: int)
    requires
        0 <= e,
        0 < i,
    ensures
        (e + 1) % i == 0 ==> (e + 1) / i == e / i + 1,
        (e + 1) % i != 0 ==> (e + 1) / i == e / i,
{
    let q = (e + 1) / i;
    let r = (e + 1) % i;
    lemma_fundamental_div_mod(e + 1, i);
    lemma_mod_division_less_than_divisor(e + 1, i);
    if r == 0 {
        assert(e == (q - 1) * i + (i - 1)) by (nonlinear_arith)
            requires
                e + 1 == i * q,
                0 < i,
        ;
        lemma_fundamental_div_mod_converse(e, i, q - 1, i - 1);
    } else {
        assert(e == q * i + (r - 1)) by (nonlinear_arith)
            requires
                e + 1 == i * q + r,
        ;
        lemma_fundamental_div_mod_converse(e, i, q, r - 1);
    }
}

/// During a run the counter is determined by the elapsed time: under
/// FixedRounds it is the 1-based current round, capped at the configured
/// round count; under FixedDuration it is the number of chimes so far.
pub open spec fn counter_tracks(m: EngineModel) -> bool {
    match m.mode {
        CompletionMode::FixedRounds { num_rounds } => m.counter == min(
            m.elapsed_secs as int / m.interval_secs as int + 1,
            num_rounds as int,
        ),
        CompletionMode::FixedDuration { .. } => m.counter == m.elapsed_secs as int
            / m.interval_secs as int,
    }
}

/// Invariant of every state reachable within one run (from `Start` through
/// any number of ticks).
pub open spec fn run_inv(m: EngineModel) -> bool {
    &&& m.wf()
    &&& m.elapsed_secs <= m.total_duration_secs
    &&& counter_tracks(m)
}

/// `Start` from a stopped, well-formed engine establishes the run invariant.
pub proof fn lemma_start_establishes_run_inv(m: EngineModel)
    requires
        m.wf(),
        m.lifecycle is Stopped,
    ensures
        run_inv(spec_start(m)),
        spec_start(m).lifecycle is Running,
        spec_start(m).elapsed_secs == 0,
        spec_start(m).counter == initial_counter(m.mode),
        spec_start(m).total_duration_secs == total_of(m.interval_secs, m.mode),
        spec_start(m).interval_secs == m.interval_secs,
        spec_start(m).mode == m.mode,
{
    lemma_total_of_bounds(m.interval_secs, m.mode);
    let i = m.interval_secs as int;
    lemma_fundamental_div_mod_converse(0, i, 0, 0);
    assert(0int / i == 0);
}

/// One tick preserves the run invariant and leaves the configuration alone.
pub proof fn lemma_tick_preserves_run_inv(m: EngineModel)
    requires
        run_inv(m),
    ensures
        run_inv(spec_tick(m)),
        spec_tick(m).interval_secs == m.interval_secs,
        spec_tick(m).mode == m.mode,
        spec_tick(m).total_duration_secs == m.total_duration_secs,
        spec_tick(m).interval_text == m.interval_text,
        spec_tick(m).quantity_text == m.quantity_text,
{
    if m.lifecycle is Running {
        lemma_total_of_bounds(m.interval_secs, m.mode);
        let i = m.interval_secs as int;
        let e = m.elapsed_secs as int;
        let e2 = e + 1;
        lemma_div_succ(e, i);
        if e2 % i == 0 {
            lemma_fundamental_div_mod(e2, i);
            let q = e2 / i;
            match m.mode {
                CompletionMode::FixedRounds { num_rounds } => {
                    let rounds = num_rounds as int;
                    if e2 < m.total_duration_secs {
                        assert(q < rounds) by (nonlinear_arith)
                            requires
                                e2 == i * q,
                                e2 < i * rounds,
                                0 < i,
                        ;
                    } else {
                        assert(e2 == m.total_duration_secs);
                        assert(q == rounds) by (nonlinear_arith)
                            requires
                                e2 == i * q,
                                e2 == i * rounds,
                                0 < i,
                        ;
                    }
                },
                CompletionMode::FixedDuration { .. } => {},
            }
        }
    }
}

/// Any number of ticks preserves the run invariant and the configuration.
pub proof fn lemma_ticks_preserve_run_inv(m: EngineModel, n: nat)
    requires
        run_inv(m),
    ensures
        run_inv(spec_ticks(m, n)),
        spec_ticks(m, n).interval_secs == m.interval_secs,
        spec_ticks(m, n).mode == m.mode,
        spec_ticks(m, n).total_duration_secs == m.total_duration_secs,
    decreases n,
{
    if n > 0 {
        lemma_ticks_preserve_run_inv(m, (n - 1) as nat);
        lemma_tick_preserves_run_inv(spec_ticks(m, (n - 1) as nat));
    }
}

/// Tick monotonicity: `n` ticks delivered to a running engine advance the
/// elapsed time by exactly `n`, capped at the total duration; once the total
/// is reached the engine has stopped itself and further ticks are no-ops.
pub proof fn lemma_ticks_elapsed(m: EngineModel, n: nat)
    requires
        m.wf(),
        m.lifecycle is Running,
    ensures
        ({
            let t = spec_ticks(m, n);
            &&& t.elapsed_secs == min(m.elapsed_secs + n, m.total_duration_secs as int)
            &&& t.wf()
            &&& (t.lifecycle is Running <==> m.elapsed_secs + n < m.total_duration_secs)
            &&& (m.elapsed_secs + n >= m.total_duration_secs ==> t.lifecycle is Stopped)
            &&& t.interval_secs == m.interval_secs
            &&& t.mode == m.mode
            &&& t.total_duration_secs == m.total_duration_secs
        }),
    decreases n,
{
    lemma_total_of_bounds(m.interval_secs, m.mode);
    if n > 0 {
        lemma_ticks_elapsed(m, (n - 1) as nat);
    }
}

/// Ticks delivered while the engine is not running (paused or stopped) are
/// ignored: they change nothing at all.
pub proof fn lemma_ticks_ignored_unless_running(m: EngineModel, n: nat)
    requires
        !(m.lifecycle is Running),
    ensures
        spec_ticks(m, n) == m,
    decreases n,
{
    if n > 0 {
        lemma_ticks_ignored_unless_running(m, (n - 1) as nat);
    }
}

/// The counter law for whole runs: after `Start` and any number of ticks the
/// counter is determined by the elapsed time — the capped 1-based round
/// under FixedRounds, the chime count under FixedDuration.
pub proof fn lemma_run_counter(m: EngineModel, n: nat)
    requires
        m.wf(),
        m.lifecycle is Stopped,
    ensures
        ({
            let t = spec_ticks(spec_start(m), n);
            &&& t.wf()
            &&& t.mode == m.mode
            &&& t.interval_secs == m.interval_secs
            &&& counter_tracks(t)
        }),
{
    lemma_start_establishes_run_inv(m);
    lemma_ticks_preserve_run_inv(spec_start(m), n);
}

/// A `Configure` edit whose raw text is not accepted (empty, non-digit,
/// zero, or too large for the field) leaves everything but the redisplayed
/// raw text exactly as it was.
pub proof fn lemma_configure_rejects_invalid(m: EngineModel, field: ConfigField, text: Seq<char>)
    requires
        !accepts_config_text(text),
    ensures
        spec_configure(m, field, text).interval_secs == m.interval_secs,
        spec_configure(m, field, text).mode == m.mode,
        spec_configure(m, field, text).total_duration_secs == m.total_duration_secs,
        spec_configure(m, field, text).elapsed_secs == m.elapsed_secs,
        spec_configure(m, field, text).counter == m.counter,
        spec_configure(m, field, text).lifecycle == m.lifecycle,
{
}

/// Stop resets the run fields to their start values, and a following Start
/// begins a run that depends on the configuration alone: two engines with
/// the same configuration restart identically whatever their prior runs
/// held.
pub proof fn lemma_stop_resets_start_reinitializes(m1: EngineModel, m2: EngineModel)
    requires
        m1.lifecycle is Running || m1.lifecycle is Paused,
        m2.lifecycle is Running || m2.lifecycle is Paused,
        m1.interval_secs == m2.interval_secs,
        m1.mode == m2.mode,
    ensures
        spec_stop(m1).lifecycle is Stopped,
        spec_stop(m1).elapsed_secs == 0,
        spec_stop(m1).counter == initial_counter(m1.mode),
        ({
            let s1 = spec_start(spec_stop(m1));
            let s2 = spec_start(spec_stop(m2));
            &&& s1.lifecycle == s2.lifecycle
            &&& s1.elapsed_secs == s2.elapsed_secs
            &&& s1.counter == s2.counter
            &&& s1.total_duration_secs == s2.total_duration_secs
        }),
{
}

} // verus!
