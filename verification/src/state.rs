use vstd::prelude::*;
use crate::app::Data;

verus! {

/// A window-scoped platform event, delivered to the current state by the
/// scheduler. Events not addressed to the application's window are filtered
/// by the platform layer before they reach the run loop. These four kinds
/// are all a state can distinguish: finer platform events — keyboard input,
/// cursor movement and the like — arrive as `Other`.
#[derive(Clone, Copy, PartialEq, Eq, Structural)]
pub enum Event {
    /// The user asked to close the window.
    CloseRequested,
    /// The window was resized to the given width and height in pixels.
    Resized(u32, u32),
    /// The window gained or lost focus.
    Focused(bool),
    /// Any other window event; the states of this crate do not act on it.
    Other,
}

/// The decision a state hands back from an event dispatch.
#[derive(Clone, Copy)]
pub enum Action<S> {
    /// Keep the current state value unchanged.
    Continue,
    /// Replace the current state value with the carried one.
    Done(S),
    /// Terminate the run loop; the current state is not resumed.
    Quit,
}

/// The dispatch protocol a state value must satisfy.
///
/// A state consumes an event or a tick and leaves a decision and an updated
/// context behind; rendering reads the context and decides nothing. Each
/// implementation gives its behaviour as two specification functions, and the
/// executable handlers are held to them; both kinds of handler must leave the
/// window of the context untouched.
pub trait State<D, W>: Copy + Sized {
    /// The decision taken and the payload left behind when `self` handles
    /// `event` in context `ctx`.
    spec fn event_spec(self, ctx: Data<D, W>, event: Event) -> (Action<Self>, D);

    /// The payload left behind when `self` runs one fixed simulation step
    /// in context `ctx`.
    spec fn tick_spec(self, ctx: Data<D, W>) -> D;

    /// Handle one platform event: may read the whole context and replace its
    /// payload, and returns the decision `event_spec` prescribes.
    fn handle_event(self, ctx: &mut Data<D, W>, event: Event) -> (r: Action<Self>)
        ensures
            (r, final(ctx).data) == self.event_spec(*old(ctx), event),
            final(ctx).window == old(ctx).window,
    ;

    /// Run one fixed simulation step: replaces the payload as `tick_spec`
    /// prescribes and never causes a transition.
    fn handle_tick(self, ctx: &mut Data<D, W>)
        ensures
            final(ctx).data == self.tick_spec(*old(ctx)),
            final(ctx).window == old(ctx).window,
    ;

    /// Present the current state; reads the context and changes nothing
    /// the scheduler can observe.
    fn handle_render(self, ctx: &Data<D, W>);
}

} // verus!
