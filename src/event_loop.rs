//! The decisions of the event loop.
//!
//! The loop waits on three sources at once: input, the message bus and an
//! optional timer, serving them in that order of priority when several are
//! ready. The waiting, the handlers and the drawing happen outside; this
//! state machine is told what woke the loop and says what to do next.

use vstd::prelude::*;

use crate::focus::EventResult;

verus! {

/// What woke the loop.
#[derive(Debug, Clone, Copy, PartialEq, Eq, Structural)]
pub enum Wake {
    /// An input notification arrived.
    Input,
    /// Reading input failed.
    InputFailed,
    /// The input stream ended.
    InputEnded,
    /// A message arrived on the bus.
    Message,
    /// Every sender of the bus is gone.
    BusClosed,
    /// The timer ticked.
    Tick,
}

/// What the loop does about a wake-up.
#[derive(Debug, Clone, Copy, PartialEq, Eq, Structural)]
pub enum Action {
    /// Offer the event to the root handler, then maybe to the active tab.
    DispatchInput,
    /// Hand the message to the root's task-message handler.
    DeliverMessage,
    /// Run the root's tick hook.
    RunTick,
    /// Nothing to do; wait again.
    Wait,
    /// Leave the loop without error.
    Stop,
    /// Leave the loop with the input error.
    Fail,
}

/// What follows a handled wake-up.
#[derive(Debug, Clone, Copy, PartialEq, Eq, Structural)]
pub enum Next {
    /// Draw, then wait again.
    Redraw,
    /// Wait again without drawing.
    Continue,
    /// Leave the loop: quit was requested.
    Exit,
}

/// Where the loop is in its life.
#[derive(Debug, Clone, Copy, PartialEq, Eq, Structural)]
pub enum Phase {
    /// Serving events.
    Running,
    /// The loop has ended; tasks are being told to stop.
    Draining,
    /// Shutdown is complete.
    Terminated,
}

/// The abstract state of the loop.
pub struct LoopModel {
    pub phase: Phase,
    /// Whether the bus may still deliver messages.
    pub bus_open: bool,
    /// Whether a tick interval was configured.
    pub has_tick: bool,
}

/// The event loop's state machine.
pub struct EventLoop {
    phase: Phase,
    bus_open: bool,
    has_tick: bool,
}

impl View for EventLoop {
    type V = LoopModel;

    closed spec fn view(&self) -> LoopModel {
        LoopModel { phase: self.phase, bus_open: self.bus_open, has_tick: self.has_tick }
    }
}

/// Whether an input event goes on to the active tab: only when the root
/// left it unhandled and no quit was requested.
pub open spec fn forwards_to_tab(root: EventResult, quit_requested: bool) -> bool {
    root == EventResult::Unhandled && !quit_requested
}

/// What each wake-up asks for. A wake-up that cannot happen in the state
/// (a tick without a timer, a message once the bus has closed) asks for
/// nothing.
pub open spec fn action_for(m: LoopModel, wake: Wake) -> Action {
    match wake {
        Wake::Input => Action::DispatchInput,
        Wake::InputFailed => Action::Fail,
        Wake::InputEnded => Action::Stop,
        Wake::Message => if m.bus_open {
            Action::DeliverMessage
        } else {
            Action::Wait
        },
        Wake::BusClosed => Action::Wait,
        Wake::Tick => if m.has_tick {
            Action::RunTick
        } else {
            Action::Wait
        },
    }
}

/// Whether a handled action asks for a redraw: input and ticks always do,
/// a message only when its handler says so.
pub open spec fn redraw_after(action: Action, handler_redraw: bool) -> bool {
    match action {
        Action::DispatchInput => true,
        Action::RunTick => true,
        Action::DeliverMessage => handler_redraw,
        _ => false,
    }
}

/// Two-phase dispatch: whether the event goes on to the active tab after
/// the root handler returned `root` and quit was or was not requested.
pub fn forward_to_tab(root: EventResult, quit_requested: bool) -> (r: bool)
    ensures
        r == forwards_to_tab(root, quit_requested),
{
    root.should_propagate() && !quit_requested
}

impl EventLoop {
    /// A running loop with an open bus, with or without a timer.
    pub fn new(has_tick: bool) -> (r: EventLoop)
        ensures
            r@ == (LoopModel { phase: Phase::Running, bus_open: true, has_tick }),
    {
        EventLoop { phase: Phase::Running, bus_open: true, has_tick }
    }

    /// The current phase.
    pub fn phase(&self) -> (r: Phase)
        ensures
            r == self@.phase,
    {
        self.phase
    }

    /// Whether the loop should wait on the bus.
    pub fn polls_bus(&self) -> (r: bool)
        ensures
            r == self@.bus_open,
    {
        self.bus_open
    }

    /// Whether the loop should wait on the timer.
    pub fn polls_tick(&self) -> (r: bool)
        ensures
            r == self@.has_tick,
    {
        self.has_tick
    }

    /// Decides what to do about `wake`. An input failure or the end of
    /// input ends the loop; a closed bus is not an error: the loop stops
    /// waiting on it and goes on serving input.
    pub fn on_wake(&mut self, wake: Wake) -> (r: Action)
        requires
            old(self)@.phase == Phase::Running,
        ensures
            r == action_for(old(self)@, wake),
            final(self)@.has_tick == old(self)@.has_tick,
            final(self)@.bus_open == (old(self)@.bus_open && wake != Wake::BusClosed),
            final(self)@.phase == if r == Action::Stop || r == Action::Fail {
                Phase::Draining
            } else {
                Phase::Running
            },
    {
        match wake {
            Wake::Input => Action::DispatchInput,
            Wake::InputFailed => {
                self.phase = Phase::Draining;
                Action::Fail
            },
            Wake::InputEnded => {
                self.phase = Phase::Draining;
                Action::Stop
            },
            Wake::Message => {
                if self.bus_open {
                    Action::DeliverMessage
                } else {
                    Action::Wait
                }
            },
            Wake::BusClosed => {
                self.bus_open = false;
                Action::Wait
            },
            Wake::Tick => {
                if self.has_tick {
                    Action::RunTick
                } else {
                    Action::Wait
                }
            },
        }
    }

    /// What follows once `action` has been carried out: leave when quit was
    /// requested, else draw when the action asks for it.
    pub fn after(&mut self, action: Action, quit_requested: bool, handler_redraw: bool) -> (r: Next)
        requires
            old(self)@.phase == Phase::Running,
        ensures
            r == if quit_requested {
                Next::Exit
            } else if redraw_after(action, handler_redraw) {
                Next::Redraw
            } else {
                Next::Continue
            },
            final(self)@ == if quit_requested {
                LoopModel { phase: Phase::Draining, ..old(self)@ }
            } else {
                old(self)@
            },
    {
        if quit_requested {
            self.phase = Phase::Draining;
            return Next::Exit;
        }
        let redraw = match action {
            Action::DispatchInput => true,
            Action::RunTick => true,
            Action::DeliverMessage => handler_redraw,
            _ => false,
        };
        if redraw {
            Next::Redraw
        } else {
            Next::Continue
        }
    }

    /// Marks shutdown complete.
    pub fn terminate(&mut self)
        ensures
            final(self)@ == (LoopModel { phase: Phase::Terminated, ..old(self)@ }),
    {
        self.phase = Phase::Terminated;
    }
}

} // verus!
