use interax_tui_fwk::event_loop::{forward_to_tab, Action, EventLoop, Next, Phase, Wake};
use interax_tui_fwk::focus::EventResult;

#[test]
fn two_phase_dispatch_forwarding() {
    assert!(forward_to_tab(EventResult::Unhandled, false));
    assert!(!forward_to_tab(EventResult::Unhandled, true));
    assert!(!forward_to_tab(EventResult::Handled, false));
    assert!(!forward_to_tab(EventResult::StopPropagation, false));
}

#[test]
fn input_always_redraws() {
    let mut lp = EventLoop::new(false);
    let a = lp.on_wake(Wake::Input);
    assert_eq!(a, Action::DispatchInput);
    assert_eq!(lp.after(a, false, false), Next::Redraw);
    assert_eq!(lp.phase(), Phase::Running);
}

#[test]
fn message_redraws_only_on_request() {
    let mut lp = EventLoop::new(false);
    let a = lp.on_wake(Wake::Message);
    assert_eq!(a, Action::DeliverMessage);
    assert_eq!(lp.after(a, false, false), Next::Continue);
    assert_eq!(lp.after(a, false, true), Next::Redraw);
}

#[test]
fn tick_only_with_timer() {
    let mut with = EventLoop::new(true);
    assert!(with.polls_tick());
    let a = with.on_wake(Wake::Tick);
    assert_eq!(a, Action::RunTick);
    assert_eq!(with.after(a, false, false), Next::Redraw);
    let mut without = EventLoop::new(false);
    assert!(!without.polls_tick());
    assert_eq!(without.on_wake(Wake::Tick), Action::Wait);
}

#[test]
fn quit_exits_without_redraw() {
    let mut lp = EventLoop::new(false);
    let a = lp.on_wake(Wake::Input);
    assert_eq!(lp.after(a, true, true), Next::Exit);
    assert_eq!(lp.phase(), Phase::Draining);
    lp.terminate();
    assert_eq!(lp.phase(), Phase::Terminated);
}

#[test]
fn input_end_and_failure_stop_the_loop() {
    let mut ended = EventLoop::new(true);
    assert_eq!(ended.on_wake(Wake::InputEnded), Action::Stop);
    assert_eq!(ended.phase(), Phase::Draining);
    let mut failed = EventLoop::new(false);
    assert_eq!(failed.on_wake(Wake::InputFailed), Action::Fail);
    assert_eq!(failed.phase(), Phase::Draining);
}

#[test]
fn closed_bus_is_benign() {
    let mut lp = EventLoop::new(true);
    assert!(lp.polls_bus());
    assert_eq!(lp.on_wake(Wake::BusClosed), Action::Wait);
    assert!(!lp.polls_bus());
    assert_eq!(lp.phase(), Phase::Running);
    assert_eq!(lp.on_wake(Wake::Input), Action::DispatchInput);
}
