use vstd::prelude::*;
use crate::app::Data;
use crate::state::{Action, Event, State};

verus! {

/// The closed tagged union of the demonstration application's states, built
/// from the declarative list of (capability, variant, payload) triples
/// `(MainHandler, Main, ())` and `(TestHandler, Test, usize)`. Adding a
/// variant here without extending the dispatcher below cannot compile: the
/// dispatch matches carry no default arm.
#[derive(Clone, Copy)]
pub enum DemoState {
    Main(),
    Test(usize),
}

/// The capability interface of the `Main` variant: a context payload type
/// implements it to give `Main` its behaviour. Each operation may read the
/// whole context — window included — but replaces only the payload, as the
/// two specification functions prescribe.
pub trait MainHandler<W>: Sized {
    /// The decision taken and the payload left when an event arrives in
    /// `Main`. The default says nothing; an implementation overrides it
    /// with its actual behaviour.
    open spec fn main_event_spec(ctx: Data<Self, W>, event: Event) -> (Action<DemoState>, Self) {
        arbitrary()
    }

    /// The payload left by one fixed simulation step in `Main`. The default
    /// says nothing; an implementation overrides it.
    open spec fn main_tick_spec(ctx: Data<Self, W>) -> Self {
        arbitrary()
    }

    fn handle_event(ctx: &mut Data<Self, W>, event: Event) -> (r: Action<DemoState>)
        ensures
            (r, final(ctx).data) == Self::main_event_spec(*old(ctx), event),
            final(ctx).window == old(ctx).window,
    ;

    fn handle_tick(ctx: &mut Data<Self, W>)
        ensures
            final(ctx).data == Self::main_tick_spec(*old(ctx)),
            final(ctx).window == old(ctx).window,
    ;

    fn handle_render(ctx: &Data<Self, W>);
}

/// The capability interface of the `Test` variant; its operations receive
/// the variant's `usize` payload as an extra argument.
pub trait TestHandler<W>: Sized {
    /// The decision taken and the payload left when an event arrives in
    /// `Test`. The default says nothing; an implementation overrides it
    /// with its actual behaviour.
    open spec fn test_event_spec(ctx: Data<Self, W>, event: Event, test: usize) -> (
        Action<DemoState>,
        Self,
    ) {
        arbitrary()
    }

    /// The payload left by one fixed simulation step in `Test`. The default
    /// says nothing; an implementation overrides it.
    open spec fn test_tick_spec(ctx: Data<Self, W>, test: usize) -> Self {
        arbitrary()
    }

    fn handle_event(ctx: &mut Data<Self, W>, event: Event, test: usize) -> (r: Action<DemoState>)
        ensures
            (r, final(ctx).data) == Self::test_event_spec(*old(ctx), event, test),
            final(ctx).window == old(ctx).window,
    ;

    fn handle_tick(ctx: &mut Data<Self, W>, test: usize)
        ensures
            final(ctx).data == Self::test_tick_spec(*old(ctx), test),
            final(ctx).window == old(ctx).window,
    ;

    fn handle_render(ctx: &Data<Self, W>, test: usize);
}

/// The total dispatcher: each operation on a state value is routed, by an
/// exhaustive match over the variants, to the capability interface declared
/// for that variant, with the variant's payload threaded through as extra
/// arguments.
impl<D, W> State<D, W> for DemoState where D: MainHandler<W> + TestHandler<W> {
    open spec fn event_spec(self, ctx: Data<D, W>, event: Event) -> (Action<DemoState>, D) {
        match self {
            DemoState::Main() => D::main_event_spec(ctx, event),
            DemoState::Test(test) => D::test_event_spec(ctx, event, test),
        }
    }

    open spec fn tick_spec(self, ctx: Data<D, W>) -> D {
        match self {
            DemoState::Main() => D::main_tick_spec(ctx),
            DemoState::Test(test) => D::test_tick_spec(ctx, test),
        }
    }

    fn handle_event(self, ctx: &mut Data<D, W>, event: Event) -> (r: Action<DemoState>) {
        match self {
            DemoState::Main() => MainHandler::handle_event(ctx, event),
            DemoState::Test(test) => TestHandler::handle_event(ctx, event, test),
        }
    }

    fn handle_tick(self, ctx: &mut Data<D, W>) {
        match self {
            DemoState::Main() => MainHandler::handle_tick(ctx),
            DemoState::Test(test) => TestHandler::handle_tick(ctx, test),
        }
    }

    fn handle_render(self, ctx: &Data<D, W>) {
        match self {
            DemoState::Main() => MainHandler::handle_render(ctx),
            DemoState::Test(test) => TestHandler::handle_render(ctx, test),
        }
    }
}

/// Exhaustiveness of dispatch: every variant routes every operation to
/// exactly the capability interface declared for it — `Main` to
/// [`MainHandler`], `Test` to [`TestHandler`] — never to another and never
/// to none.
pub proof fn lemma_exhaustive_dispatch<D: MainHandler<W> + TestHandler<W>, W>(
    ctx: Data<D, W>,
    event: Event,
    test: usize,
)
    ensures
        DemoState::Main().event_spec(ctx, event) == D::main_event_spec(ctx, event),
        DemoState::Test(test).event_spec(ctx, event) == D::test_event_spec(ctx, event, test),
        DemoState::Main().tick_spec(ctx) == D::main_tick_spec(ctx),
        DemoState::Test(test).tick_spec(ctx) == D::test_tick_spec(ctx, test),
{
}

/// The demonstration application's payload: it counts the fixed simulation
/// steps taken while the `Main` state is current.
pub struct DemoData {
    pub ticks: u64,
}

/// `Main` quits on a close request, carries on otherwise, and counts each
/// simulation step (saturating at the counter's maximum).
impl<W> MainHandler<W> for DemoData {
    open spec fn main_event_spec(ctx: Data<DemoData, W>, event: Event) -> (
        Action<DemoState>,
        DemoData,
    ) {
        match event {
            Event::CloseRequested => (Action::Quit, ctx.data),
            _ => (Action::Continue, ctx.data),
        }
    }

    open spec fn main_tick_spec(ctx: Data<DemoData, W>) -> DemoData {
        if ctx.data.ticks < u64::MAX {
            DemoData { ticks: (ctx.data.ticks + 1) as u64 }
        } else {
            ctx.data
        }
    }

    fn handle_event(ctx: &mut Data<DemoData, W>, event: Event) -> (r: Action<DemoState>) {
        match event {
            Event::CloseRequested => Action::Quit,
            _ => Action::Continue,
        }
    }

    fn handle_tick(ctx: &mut Data<DemoData, W>) {
        if ctx.data.ticks < u64::MAX {
            ctx.data.ticks = ctx.data.ticks + 1;
        }
    }

    fn handle_render(ctx: &Data<DemoData, W>) {
    }
}

/// `Test` hands control to `Main` on the first event, whatever it is, and
/// does nothing on ticks or renders.
impl<W> TestHandler<W> for DemoData {
    open spec fn test_event_spec(ctx: Data<DemoData, W>, event: Event, test: usize) -> (
        Action<DemoState>,
        DemoData,
    ) {
        (Action::Done(DemoState::Main()), ctx.data)
    }

    open spec fn test_tick_spec(ctx: Data<DemoData, W>, test: usize) -> DemoData {
        ctx.data
    }

    fn handle_event(ctx: &mut Data<DemoData, W>, event: Event, test: usize) -> (r: Action<
        DemoState,
    >) {
        Action::Done(DemoState::Main())
    }

    fn handle_tick(ctx: &mut Data<DemoData, W>, test: usize) {
    }

    fn handle_render(ctx: &Data<DemoData, W>, test: usize) {
    }
}

} // verus!
