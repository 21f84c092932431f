use stateloop::app::{catch_up, drain_events, run_frame, Data};
use stateloop::clock::{scaled_to_micros, STEP_UNITS};
use stateloop::demo::{DemoData, DemoState};
use stateloop::state::{Action, Event, State};

fn fresh_ctx() -> Data<DemoData, u32> {
    Data { window: 7, data: DemoData { ticks: 0 } }
}

#[test]
fn dispatch_reaches_every_variant_and_operation() {
    let mut ctx = fresh_ctx();

    // Main: event, tick, render.
    let a = DemoState::Main().handle_event(&mut ctx, Event::Focused(true));
    assert!(matches!(a, Action::Continue));
    let a = DemoState::Main().handle_event(&mut ctx, Event::CloseRequested);
    assert!(matches!(a, Action::Quit));
    DemoState::Main().handle_tick(&mut ctx);
    assert_eq!(ctx.data.ticks, 1);
    DemoState::Main().handle_render(&ctx);

    // Test: event, tick, render.
    let a = DemoState::Test(15).handle_event(&mut ctx, Event::Resized(10, 10));
    assert!(matches!(a, Action::Done(DemoState::Main())));
    DemoState::Test(15).handle_tick(&mut ctx);
    assert_eq!(ctx.data.ticks, 1);
    DemoState::Test(15).handle_render(&ctx);
}

#[test]
fn transition_hands_later_work_to_the_new_state() {
    // One event while in Test(15) at 60 frames per second: exactly one
    // transition to Main; the following frame's ticks dispatch to Main's
    // handler.
    let mut ctx = fresh_ctx();

    let events = vec![Event::Other];
    let plan = run_frame(&mut ctx, DemoState::Test(15), &events, 0, 0, 60)
        .expect("no handler asked to quit");
    assert!(matches!(plan.state, DemoState::Main()));
    assert_eq!(plan.ticks, 0);
    assert_eq!(ctx.data.ticks, 0);

    // 50 ms at 60 steps per second are exactly three whole steps.
    let no_events = vec![];
    let plan = run_frame(&mut ctx, plan.state, &no_events, 50, plan.accum, 60)
        .expect("no handler asked to quit");
    assert!(matches!(plan.state, DemoState::Main()));
    assert_eq!(plan.ticks, 3);
    assert_eq!(plan.accum, 0);
    assert_eq!(ctx.data.ticks, 3);
}

#[test]
fn close_event_quits_with_no_render_or_tick() {
    // A close request in Main terminates the loop after the event phase:
    // even with plenty of elapsed time, no simulation step runs.
    let mut ctx = fresh_ctx();
    let events = vec![Event::CloseRequested];
    let r = run_frame(&mut ctx, DemoState::Main(), &events, 500, 0, 60);
    assert!(r.is_none());
    assert_eq!(ctx.data.ticks, 0);
}

#[test]
fn later_events_in_a_batch_reach_the_new_state() {
    // From Test, the first event transitions to Main; a close request later
    // in the same batch is therefore handled by Main, which quits.
    let mut ctx = fresh_ctx();
    let events = vec![Event::Other, Event::CloseRequested];
    let r = drain_events(&mut ctx, DemoState::Test(15), &events);
    assert!(r.is_none());

    // The same close request first in the batch is handled by Test instead,
    // which transitions rather than quitting; the trailing event reaches
    // Main, which carries on.
    let mut ctx = fresh_ctx();
    let events = vec![Event::CloseRequested, Event::Other];
    let r = drain_events(&mut ctx, DemoState::Test(15), &events);
    assert!(matches!(r, Some(DemoState::Main())));
}

#[test]
fn quit_ends_the_drain_at_once() {
    let mut ctx = fresh_ctx();
    let events = vec![Event::Other, Event::CloseRequested, Event::Other];
    let r = drain_events(&mut ctx, DemoState::Main(), &events);
    assert!(r.is_none());
}

#[test]
fn continue_keeps_the_state() {
    let mut ctx = fresh_ctx();
    let events = vec![Event::Other, Event::Focused(false)];
    let r = drain_events(&mut ctx, DemoState::Main(), &events);
    assert!(matches!(r, Some(DemoState::Main())));
}

#[test]
fn half_a_step_stays_in_the_accumulator() {
    // Elapsed time of 3.5 frame budgets in one frame with no events, at 50
    // frames per second (70 ms = 3.5 * 20 ms): exactly 3 steps, half a
    // budget left unspent, and the pacing sleep is the other half of the
    // budget — 10 of the 20 milliseconds.
    let mut ctx = fresh_ctx();
    let no_events = vec![];
    let plan = run_frame(&mut ctx, DemoState::Main(), &no_events, 70, 0, 50)
        .expect("no handler asked to quit");
    assert_eq!(plan.ticks, 3);
    assert_eq!(plan.accum, STEP_UNITS / 2);
    assert_eq!(plan.sleep, STEP_UNITS / 2);
    assert_eq!(scaled_to_micros(plan.sleep, 50), 10_000);
    assert_eq!(ctx.data.ticks, 3);
}

#[test]
fn accumulator_stays_below_one_step() {
    let mut ctx = fresh_ctx();
    let no_events = vec![];
    let samples = [13u64, 7, 100, 0, 19, 25, 16, 1];
    let mut accum: u64 = 0;
    for elapsed in samples {
        let plan = run_frame(&mut ctx, DemoState::Main(), &no_events, elapsed, accum, 60)
            .expect("no handler asked to quit");
        assert!(plan.accum < STEP_UNITS);
        assert_eq!(plan.sleep, STEP_UNITS - plan.accum);
        accum = plan.accum;
    }
}

#[test]
fn ticks_over_a_run_total_the_elapsed_time() {
    // At 50 frames per second, 130 ms of wall-clock time spread over four
    // frames yields exactly floor(130 * 50 / 1000) = 6 steps, with half a
    // step left unspent.
    let mut ctx = fresh_ctx();
    let no_events = vec![];
    let samples = [30u64, 45, 25, 30];
    let mut accum: u64 = 0;
    let mut total_ticks: u64 = 0;
    for elapsed in samples {
        let plan = run_frame(&mut ctx, DemoState::Main(), &no_events, elapsed, accum, 50)
            .expect("no handler asked to quit");
        accum = plan.accum;
        total_ticks += plan.ticks;
    }
    assert_eq!(total_ticks, 6);
    assert_eq!(ctx.data.ticks, 6);
    assert_eq!(accum, STEP_UNITS / 2);
}

#[test]
fn sixty_per_second_holds_sixty_over_a_second() {
    // One simulated second at 60 frames per second: exactly 60 steps and
    // nothing unspent — the budget of 1/60 s does not drift.
    let mut ctx = fresh_ctx();
    let no_events = vec![];
    let mut accum: u64 = 0;
    let mut total_ticks: u64 = 0;
    for _frame in 0..10 {
        let plan = run_frame(&mut ctx, DemoState::Main(), &no_events, 100, accum, 60)
            .expect("no handler asked to quit");
        accum = plan.accum;
        total_ticks += plan.ticks;
    }
    assert_eq!(total_ticks, 60);
    assert_eq!(accum, 0);
}

#[test]
fn catch_up_runs_no_step_below_one_budget() {
    let mut ctx = fresh_ctx();
    let (rem, ticks) = catch_up(&mut ctx, DemoState::Main(), 200, 3, 100);
    assert_eq!((rem, ticks), (500, 0));
    assert_eq!(ctx.data.ticks, 0);
}

#[test]
fn catch_up_spends_whole_budgets_only() {
    let mut ctx = fresh_ctx();
    let (rem, ticks) = catch_up(&mut ctx, DemoState::Main(), 700, 9, 150);
    assert_eq!((rem, ticks), (50, 2));
    assert_eq!(ctx.data.ticks, 2);
}

#[test]
fn catch_up_serves_rates_above_one_step_per_millisecond() {
    let mut ctx = fresh_ctx();
    let (rem, ticks) = catch_up(&mut ctx, DemoState::Main(), 0, 1, 2000);
    assert_eq!((rem, ticks), (0, 2));
    assert_eq!(ctx.data.ticks, 2);
}

#[test]
fn main_tick_counter_saturates() {
    let mut ctx = Data { window: 0u32, data: DemoData { ticks: u64::MAX } };
    DemoState::Main().handle_tick(&mut ctx);
    assert_eq!(ctx.data.ticks, u64::MAX);
}
