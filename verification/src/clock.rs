use vstd::prelude::*;
use vstd::arithmetic::div_mod::{
    lemma_fundamental_div_mod, lemma_fundamental_div_mod_converse_div,
    lemma_fundamental_div_mod_converse_mod, lemma_mod_bound,
};

verus! {

/// The scheduler measures time in *scaled units*: wall-clock milliseconds
/// multiplied by the target rate. One scaled unit is `1 / (1000 * fps)`
/// seconds, so one fixed simulation step — the frame budget of exactly
/// `1 / fps` seconds — is always [`STEP_UNITS`] scaled units, whatever the
/// rate. The budget therefore carries no rounding: it is fixed once by the
/// target rate and never drifts.
pub const STEP_UNITS: u64 = 1000;

/// The number of fixed simulation steps one catch-up phase runs when it
/// starts with `accum` scaled units unspent and observes `elapsed_ms` new
/// wall-clock milliseconds at the target rate `fps`.
pub open spec fn frame_ticks(accum: int, elapsed_ms: int, fps: int) -> int {
    (accum + elapsed_ms * fps) / (STEP_UNITS as int)
}

/// The unspent scaled units the same catch-up phase leaves behind; always
/// in `[0, STEP_UNITS)` — less than one full step.
pub open spec fn frame_rem(accum: int, elapsed_ms: int, fps: int) -> int {
    (accum + elapsed_ms * fps) % (STEP_UNITS as int)
}

/// The unspent time carried by the accumulator after a whole run: one
/// catch-up phase per frame, fed by that frame's elapsed-time sample, with
/// nothing unspent at the start.
pub open spec fn accum_after(samples: Seq<int>, fps: int) -> int
    decreases samples.len(),
{
    if samples.len() == 0 {
        0
    } else {
        frame_rem(accum_after(samples.drop_last(), fps), samples.last(), fps)
    }
}

/// The total number of fixed simulation steps a whole run performs.
pub open spec fn run_ticks(samples: Seq<int>, fps: int) -> int
    decreases samples.len(),
{
    if samples.len() == 0 {
        0
    } else {
        run_ticks(samples.drop_last(), fps) + frame_ticks(
            accum_after(samples.drop_last(), fps),
            samples.last(),
            fps,
        )
    }
}

/// The wall-clock duration of a whole run, in milliseconds: the sum of its
/// elapsed-time samples.
pub open spec fn total_elapsed(samples: Seq<int>) -> int
    decreases samples.len(),
{
    if samples.len() == 0 {
        0
    } else {
        total_elapsed(samples.drop_last()) + samples.last()
    }
}

/// Turn unspent scaled units into whole microseconds of wall time, for the
/// pacing sleep: `scaled` units at rate `fps` last `scaled * 1000 / fps`
/// microseconds, rounded down.
pub fn scaled_to_micros(scaled: u64, fps: u32) -> (r: u64)
    requires
        fps >= 1,
        scaled * 1000 <= u64::MAX,
    ensures
        r == scaled * 1000 / (fps as int),
{
    (scaled * 1000) / (fps as u64)
}

/// Accumulator non-negativity: for every sequence of elapsed-time samples
/// and every target rate, the unspent time left after each frame's catch-up
/// phase lies in `[0, STEP_UNITS)` — it never goes negative and never holds
/// a full pending step.
pub proof fn lemma_accum_in_range(samples: Seq<int>, fps: int)
    ensures
        0 <= accum_after(samples, fps) < STEP_UNITS,
{
    if samples.len() == 0 {
    } else {
        lemma_mod_bound(
            accum_after(samples.drop_last(), fps) + samples.last() * fps,
            STEP_UNITS as int,
        );
    }
}

/// The accumulator mechanism loses no time and invents none: over a whole
/// run the steps performed are exactly the total elapsed scaled time
/// divided by one step, and the accumulator holds exactly the remainder.
pub proof fn lemma_run_totals(samples: Seq<int>, fps: int)
    ensures
        run_ticks(samples, fps) == total_elapsed(samples) * fps / (STEP_UNITS as int),
        accum_after(samples, fps) == total_elapsed(samples) * fps % (STEP_UNITS as int),
    decreases samples.len(),
{
    let step = STEP_UNITS as int;
    if samples.len() == 0 {
        assert(0 as int / step == 0);
        assert(0 as int % step == 0);
    } else {
        let prior = samples.drop_last();
        let e = samples.last();
        lemma_run_totals(prior, fps);
        let x_prior = total_elapsed(prior) * fps;
        let x = total_elapsed(samples) * fps;
        assert(x == x_prior + e * fps) by (nonlinear_arith)
            requires
                total_elapsed(samples) == total_elapsed(prior) + e,
                x == total_elapsed(samples) * fps,
                x_prior == total_elapsed(prior) * fps;
        let q1 = x_prior / step;
        let r1 = x_prior % step;
        lemma_fundamental_div_mod(x_prior, step);
        lemma_mod_bound(x_prior, step);
        let q2 = (r1 + e * fps) / step;
        let r2 = (r1 + e * fps) % step;
        lemma_fundamental_div_mod(r1 + e * fps, step);
        lemma_mod_bound(r1 + e * fps, step);
        assert(x == step * (q1 + q2) + r2);
        lemma_fundamental_div_mod_converse_div(x, step, q1 + q2, r2);
        lemma_fundamental_div_mod_converse_mod(x, step, q1 + q2, r2);
    }
}

/// Tick-count bound: over a run of total wall-clock duration `T`
/// milliseconds against a target of `fps` frames per second, the number of
/// simulation steps `N` stays within one step of `T * fps`: scaled to
/// avoid fractions, `N * 1000 <= T_ms * fps < (N + 1) * 1000`, for every
/// rate and every sequence of samples. Real time never drifts ahead of or
/// behind simulated time by a full step.
pub proof fn lemma_tick_count_bound(samples: Seq<int>, fps: int)
    ensures
        run_ticks(samples, fps) * 1000 <= total_elapsed(samples) * fps,
        total_elapsed(samples) * fps < (run_ticks(samples, fps) + 1) * 1000,
{
    lemma_run_totals(samples, fps);
    let x = total_elapsed(samples) * fps;
    lemma_fundamental_div_mod(x, STEP_UNITS as int);
    lemma_mod_bound(x, STEP_UNITS as int);
}

} // verus!
