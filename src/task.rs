//! Cooperative cancellation of background tasks.
//!
//! One signal per run goes from false to true once, when the loop ends;
//! every task holds a context that observes it.

use vstd::prelude::*;

use tokio::sync::watch;

verus! {

/// How long shutdown waits for each task to finish, in seconds, before it
/// goes on without it.
pub const SHUTDOWN_GRACE_SECS: u64 = 2;

#[verifier::external_type_specification]
#[verifier::external_body]
#[verifier::reject_recursive_types(T)]
pub struct ExWatchSender<T>(watch::Sender<T>);

#[verifier::external_type_specification]
#[verifier::external_body]
#[verifier::reject_recursive_types(T)]
pub struct ExWatchReceiver<T>(watch::Receiver<T>);

/// What the watch channel of `tx` holds now. The channel's only sender
/// stays private to a `CancelSignal`, so the value changes only through it.
pub uninterp spec fn signal_value(tx: watch::Sender<bool>) -> bool;

/// Relies on tokio::sync::watch::channel: a sender and a receiver sharing a
/// value that starts at `init`.
#[verifier::external_body]
fn watch_channel(init: bool) -> (r: (watch::Sender<bool>, watch::Receiver<bool>))
    ensures
        signal_value(r.0) == init,
{
    watch::channel(init)
}

/// Relies on tokio's `watch::Sender::send_replace`, which stores `true` and
/// notifies the receivers whether or not any is left.
#[verifier::external_body]
fn watch_raise(tx: &mut watch::Sender<bool>)
    ensures
        signal_value(*final(tx)),
{
    tx.send_replace(true);
}

/// Relies on tokio's `watch::Sender::subscribe`: a new receiver of the same
/// value.
#[verifier::external_body]
fn watch_subscribe<T>(tx: &watch::Sender<T>) -> (r: watch::Receiver<T>) {
    tx.subscribe()
}

/// Relies on tokio's `watch::Receiver::borrow`: the value as it is now,
/// which the sender may change at any time.
#[verifier::external_body]
fn watch_current<T: Copy>(rx: &watch::Receiver<T>) -> (r: T) {
    *rx.borrow()
}

/// Relies on tokio's `watch::Receiver::clone`: another receiver of the same
/// value.
#[verifier::external_body]
fn watch_clone<T>(rx: &watch::Receiver<T>) -> (r: watch::Receiver<T>) {
    rx.clone()
}

/// The sending side of the cancellation signal.
pub struct CancelSignal {
    tx: watch::Sender<bool>,
    fired: bool,
}

impl CancelSignal {
    /// Whether the value the tasks watch is `true`.
    pub closed spec fn sent(&self) -> bool {
        signal_value(self.tx)
    }

    /// The flag of this signal agrees with what its channel holds.
    pub closed spec fn wf(&self) -> bool {
        self.fired == signal_value(self.tx)
    }

    /// A signal not yet raised.
    pub fn new() -> (r: CancelSignal)
        ensures
            r.wf(),
            !r.sent(),
    {
        let (tx, _rx) = watch_channel(false);
        CancelSignal { tx, fired: false }
    }

    /// A context that observes this signal.
    pub fn subscribe(&self) -> TaskContext {
        TaskContext { cancel_rx: watch_subscribe(&self.tx) }
    }

    /// Whether the signal has been raised.
    pub fn fired(&self) -> (r: bool)
        requires
            self.wf(),
        ensures
            r == self.sent(),
    {
        self.fired
    }

    /// Raises the signal: afterwards every task watching it sees `true`.
    /// Only the first call sends it, and says so; later calls change
    /// nothing.
    pub fn fire(&mut self) -> (r: bool)
        requires
            old(self).wf(),
        ensures
            final(self).wf(),
            r == !old(self).sent(),
            final(self).sent(),
    {
        if self.fired {
            return false;
        }
        watch_raise(&mut self.tx);
        self.fired = true;
        true
    }
}

/// What a running task is given to observe cancellation.
pub struct TaskContext {
    cancel_rx: watch::Receiver<bool>,
}

impl TaskContext {
    /// Whether cancellation has been requested; tasks check it and stop.
    pub fn is_cancelled(&self) -> bool {
        watch_current(&self.cancel_rx)
    }

    /// Another context observing the same signal, for a subtask.
    pub fn clone_context(&self) -> TaskContext {
        TaskContext { cancel_rx: watch_clone(&self.cancel_rx) }
    }

    /// The receiver of the signal, to wait for a change of it.
    pub fn receiver(&mut self) -> &mut watch::Receiver<bool> {
        &mut self.cancel_rx
    }
}

} // verus!
