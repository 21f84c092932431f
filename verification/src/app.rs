use vstd::prelude::*;
use vstd::arithmetic::div_mod::{
    lemma_fundamental_div_mod_converse_div, lemma_fundamental_div_mod_converse_mod,
};
use crate::clock::{frame_rem, frame_ticks, STEP_UNITS};
use crate::error::{AppError, MaybeResult};
use crate::state::{Action, Event, State};

verus! {

/// The context every handler operates on: the opaque window handle and the
/// application payload. The window is set once at construction and the
/// dispatch protocol keeps it unchanged; the payload is the single piece of
/// mutable application state.
pub struct Data<D, W> {
    pub window: W,
    pub data: D,
}

impl<D, W> Data<D, W> {
    /// Construct the context in two short-circuiting stages: `f` produces
    /// the window, and only if that succeeds is `g` given a borrow of the
    /// window to produce the payload. A failure of either stage is returned
    /// tagged with the stage it came from.
    pub fn construct<R1, R2, F, G>(f: F, g: G) -> (r: Result<Data<D, W>, AppError<R1::Error, R2::Error>>)
        where
            R1: MaybeResult<W>,
            R2: MaybeResult<D>,
            F: FnOnce() -> R1,
            G: FnOnce(&W) -> R2,
        requires
            call_requires(f, ()),
            forall|w: &W| call_requires(g, (w,)),
        ensures
            match r {
                Ok(ctx) => exists|rw: R1, rd: R2|
                    call_ensures(f, (), rw) && rw.spec_result() == Ok::<W, R1::Error>(ctx.window)
                        && call_ensures(g, (&ctx.window,), rd)
                        && rd.spec_result() == Ok::<D, R2::Error>(ctx.data),
                Err(AppError::WindowError(e)) => exists|rw: R1|
                    call_ensures(f, (), rw) && rw.spec_result() == Err::<W, R1::Error>(e),
                Err(AppError::DataError(e)) => exists|rw: R1, w: W, rd: R2|
                    call_ensures(f, (), rw) && rw.spec_result() == Ok::<W, R1::Error>(w)
                        && call_ensures(g, (&w,), rd)
                        && rd.spec_result() == Err::<D, R2::Error>(e),
            },
    {
        let window = match f().as_result() {
            Ok(w) => w,
            Err(e) => {
                return Err(AppError::WindowError(e));
            },
        };
        let data = match g(&window).as_result() {
            Ok(d) => d,
            Err(e) => {
                return Err(AppError::DataError(e));
            },
        };
        Ok(Data { window, data })
    }

    /// Shared read-only access to the window handle.
    pub fn window(&self) -> (r: &W)
        ensures
            *r == self.window,
    {
        &self.window
    }

    /// Shared read-only access to the application payload.
    pub fn data(&self) -> (r: &D)
        ensures
            *r == self.data,
    {
        &self.data
    }

    /// Exclusive access to the application payload; the window cannot be
    /// reached, let alone changed, through it.
    pub fn data_mut(&mut self) -> (r: &mut D)
        ensures
            *r == old(self).data,
            final(self).data == *final(r),
            final(self).window == old(self).window,
    {
        &mut self.data
    }
}

/// The event phase's policy over one batch of queued events: each event, in
/// arrival order, is dispatched to the then-current state; a `Done` replaces
/// the state before the next event is dispatched, so later events of the
/// batch reach the new state; a `Quit` ends the drain at once — no later
/// event of the batch reaches any handler — and reports that the loop is to
/// terminate (`None`).
pub open spec fn drain_spec<D, W, S: State<D, W>>(
    state: S,
    ctx: Data<D, W>,
    events: Seq<Event>,
) -> (Option<S>, Data<D, W>)
    decreases events.len(),
{
    if events.len() == 0 {
        (Some(state), ctx)
    } else {
        let step = state.event_spec(ctx, events.first());
        let ctx2 = Data { window: ctx.window, data: step.1 };
        match step.0 {
            Action::Continue => drain_spec(state, ctx2, events.drop_first()),
            Action::Done(next) => drain_spec(next, ctx2, events.drop_first()),
            Action::Quit => (None, ctx2),
        }
    }
}

/// Dispatch one batch of queued events under the policy of [`drain_spec`]:
/// the result is the state to resume, or `None` when a handler asked to
/// quit, and the context holds whatever the dispatched handlers left in it.
pub fn drain_events<D, W, S: State<D, W>>(
    ctx: &mut Data<D, W>,
    state: S,
    events: &Vec<Event>,
) -> (r: Option<S>)
    ensures
        (r, *final(ctx)) == drain_spec(state, *old(ctx), events@),
{
    let mut cur = state;
    let mut i: usize = 0;
    assert(events@.skip(0) =~= events@);
    while i < events.len()
        invariant
            i <= events.len(),
            drain_spec(state, *old(ctx), events@) == drain_spec(cur, *ctx, events@.skip(i as int)),
        decreases events.len() - i,
    {
        let ghost pending = events@.skip(i as int);
        assert(pending.first() == events@[i as int]);
        assert(pending.drop_first() =~= events@.skip(i as int + 1));
        let action = cur.handle_event(ctx, events[i]);
        match action {
            Action::Continue => {},
            Action::Done(next) => {
                cur = next;
            },
            Action::Quit => {
                return None;
            },
        }
        i = i + 1;
    }
    Some(cur)
}

/// The context after `n` fixed simulation steps of `state` starting from
/// `ctx`: ticks replace the payload step by step and never change the state
/// value or the window.
pub open spec fn iter_ticks<D, W, S: State<D, W>>(state: S, ctx: Data<D, W>, n: nat) -> Data<
    D,
    W,
>
    decreases n,
{
    if n == 0 {
        ctx
    } else {
        let prev = iter_ticks(state, ctx, (n - 1) as nat);
        Data { window: prev.window, data: state.tick_spec(prev) }
    }
}

/// One catch-up phase: convert the newly elapsed wall-clock milliseconds
/// to scaled units (milliseconds times the target rate, so one fixed step
/// is exactly [`STEP_UNITS`] — the budget of `1 / fps` seconds carries no
/// rounding), add them to the unspent time, then repeatedly spend one step
/// and run one fixed simulation step until less than one step remains.
/// Returns the unspent remainder and the number of steps run; the phase
/// never runs a fractional step.
pub fn catch_up<D, W, S: State<D, W>>(
    ctx: &mut Data<D, W>,
    state: S,
    accum: u64,
    elapsed_ms: u64,
    fps: u32,
) -> (r: (u64, u64))
    requires
        fps >= 1,
        accum + elapsed_ms * fps <= u64::MAX,
    ensures
        r.0 == frame_rem(accum as int, elapsed_ms as int, fps as int),
        r.1 == frame_ticks(accum as int, elapsed_ms as int, fps as int),
        r.0 < STEP_UNITS,
        *final(ctx) == iter_ticks(state, *old(ctx), r.1 as nat),
{
    let total = accum + elapsed_ms * (fps as u64);
    let mut unspent = total;
    let mut ticks: u64 = 0;
    while unspent >= STEP_UNITS
        invariant
            total <= u64::MAX,
            ticks * STEP_UNITS + unspent == total,
            *ctx == iter_ticks(state, *old(ctx), ticks as nat),
        decreases unspent,
    {
        unspent = unspent - STEP_UNITS;
        state.handle_tick(ctx);
        ticks = ticks + 1;
    }
    proof {
        lemma_fundamental_div_mod_converse_div(
            total as int,
            STEP_UNITS as int,
            ticks as int,
            unspent as int,
        );
        lemma_fundamental_div_mod_converse_mod(
            total as int,
            STEP_UNITS as int,
            ticks as int,
            unspent as int,
        );
    }
    (unspent, ticks)
}

/// What one frame decides when the loop is to go on: the state to resume,
/// the unspent time left after catch-up, the number of simulation steps
/// run, and the pacing sleep that fills the rest of the frame budget.
/// `accum` and `sleep` are in scaled units — thousandths of one fixed
/// simulation step (see [`STEP_UNITS`]).
pub struct FramePlan<S> {
    pub state: S,
    pub accum: u64,
    pub ticks: u64,
    pub sleep: u64,
}

/// Run one frame of the loop: dispatch the queued events, and — only if no
/// handler asked to quit — render once on the resulting state, then catch
/// the simulation up to wall-clock time, and compute the pacing sleep.
///
/// When the event phase decides to quit, the frame ends at once: no render
/// and no simulation step follows, this frame or ever, and the context holds
/// exactly what the dispatched handlers left in it.
pub fn run_frame<D, W, S: State<D, W>>(
    ctx: &mut Data<D, W>,
    state: S,
    events: &Vec<Event>,
    elapsed_ms: u64,
    accum: u64,
    fps: u32,
) -> (r: Option<FramePlan<S>>)
    requires
        fps >= 1,
        accum < STEP_UNITS,
        accum + elapsed_ms * fps <= u64::MAX,
    ensures
        match r {
            None => drain_spec(state, *old(ctx), events@) == (None::<S>, *final(ctx)),
            Some(plan) => {
                let drained = drain_spec(state, *old(ctx), events@);
                &&& drained.0 == Some(plan.state)
                &&& plan.accum == frame_rem(accum as int, elapsed_ms as int, fps as int)
                &&& plan.ticks == frame_ticks(accum as int, elapsed_ms as int, fps as int)
                &&& plan.accum < STEP_UNITS
                &&& plan.sleep == STEP_UNITS - plan.accum
                &&& *final(ctx) == iter_ticks(plan.state, drained.1, plan.ticks as nat)
            },
        },
{
    let next = match drain_events(ctx, state, events) {
        Some(next) => next,
        None => {
            return None;
        },
    };
    next.handle_render(ctx);
    let (unspent, ticks) = catch_up(ctx, next, accum, elapsed_ms, fps);
    Some(FramePlan { state: next, accum: unspent, ticks, sleep: STEP_UNITS - unspent })
}

/// State continuity: when the first event of a batch is answered with
/// `Done(next)`, the rest of the drain proceeds from `next` and from the
/// context that dispatch left behind — the replaced state value never sees
/// another dispatch. The render and the ticks of the frame operate on the
/// drain's final state too, by the contract of [`run_frame`].
pub proof fn lemma_state_continuity<D, W, S: State<D, W>>(
    state: S,
    ctx: Data<D, W>,
    events: Seq<Event>,
    next: S,
)
    requires
        events.len() > 0,
        state.event_spec(ctx, events.first()).0 == Action::Done(next),
    ensures
        drain_spec(state, ctx, events) == drain_spec(
            next,
            (Data { window: ctx.window, data: state.event_spec(ctx, events.first()).1 }),
            events.drop_first(),
        ),
{
}

/// Quit immediacy: when the first event of a batch is answered with `Quit`,
/// the drain ends there — no later event of the batch reaches a handler, the
/// event phase reports termination, and (by the contract of [`run_frame`])
/// the frame that sees this outcome runs no render and no simulation step.
pub proof fn lemma_quit_immediacy<D, W, S: State<D, W>>(state: S, ctx: Data<D, W>, events: Seq<Event>)
    requires
        events.len() > 0,
        state.event_spec(ctx, events.first()).0 is Quit,
    ensures
        drain_spec(state, ctx, events) == (
            None::<S>,
            (Data { window: ctx.window, data: state.event_spec(ctx, events.first()).1 }),
        ),
{
}

} // verus!
