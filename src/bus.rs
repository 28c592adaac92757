//! The message bus: named senders that background tasks use, all feeding
//! one bounded channel whose single receiver the event loop takes.
//!
//! Every message is tagged with the name of the sender it went through.
//! The payload type `P` is the one the application chose for the bus; an
//! application whose tasks send different types uses an enum of them, or a
//! box of a dynamic type that it unpacks itself.

use vstd::prelude::*;

use tokio::sync::mpsc::{Receiver, Sender};

verus! {

/// The size unit of the bus buffer.
pub const DEFAULT_CHANNEL_SIZE: usize = 32;

/// How many messages the shared buffer holds before senders must wait.
pub const BUS_CAPACITY: usize = DEFAULT_CHANNEL_SIZE * 4;

#[verifier::external_type_specification]
#[verifier::external_body]
#[verifier::reject_recursive_types(T)]
pub struct ExSender<T>(Sender<T>);

#[verifier::external_type_specification]
#[verifier::external_body]
#[verifier::reject_recursive_types(T)]
pub struct ExReceiver<T>(Receiver<T>);

/// A message on the bus: the name of the task that sent it and its payload.
pub struct TaskMessage<P> {
    /// The name the sending task was registered under.
    pub task_name: &'static str,
    /// What the task sent.
    pub payload: P,
}

impl<P> TaskMessage<P> {
    /// A message from `task_name` carrying `message`.
    pub fn new(task_name: &'static str, message: P) -> (r: TaskMessage<P>)
        ensures
            r.task_name == task_name,
            r.payload == message,
    {
        TaskMessage { task_name, payload: message }
    }

    /// The sender's name and the payload, taken apart.
    pub fn into_parts(self) -> (r: (&'static str, P))
        ensures
            r.0 == self.task_name,
            r.1 == self.payload,
    {
        (self.task_name, self.payload)
    }
}

/// A send failed because the receiver is gone; the message comes back.
#[derive(Debug)]
pub struct SendError<T>(pub T);

/// Why a send that does not wait failed; the message comes back.
#[derive(Debug)]
pub enum TrySendError<T> {
    /// The buffer is full.
    Full(T),
    /// The receiver is gone.
    Closed(T),
}

impl<T> TrySendError<T> {
    /// The message that was not sent.
    pub fn into_inner(self) -> (r: T)
        ensures
            r == match self {
                TrySendError::Full(m) => m,
                TrySendError::Closed(m) => m,
            },
    {
        match self {
            TrySendError::Full(m) => m,
            TrySendError::Closed(m) => m,
        }
    }

    /// Whether the buffer was full.
    pub fn is_full(&self) -> (r: bool)
        ensures
            r == (self is Full),
    {
        matches!(self, TrySendError::Full(_))
    }
}

/// Relies on tokio::sync::mpsc::channel, which panics on a zero capacity and
/// on one above its semaphore's limit (`usize::MAX >> 3`, at least
/// `0x1fff_ffff` on every target).
#[verifier::external_body]
fn open_channel<T>(capacity: usize) -> (r: (Sender<T>, Receiver<T>))
    requires
        0 < capacity <= 0x1fff_ffff,
{
    tokio::sync::mpsc::channel(capacity)
}

/// Relies on tokio's `Sender::clone`: another handle on the same channel.
#[verifier::external_body]
fn clone_channel_sender<T>(tx: &Sender<T>) -> (r: Sender<T>) {
    tx.clone()
}

/// Relies on tokio's `Sender::try_send`, which hands the message back in
/// either error: `Full` when no slot is free, `Closed` when the receiver is
/// gone.
#[verifier::external_body]
fn channel_try_send<T>(tx: &Sender<T>, message: T) -> (r: Result<(), TrySendError<T>>)
    ensures
        match r {
            Ok(()) => true,
            Err(TrySendError::Full(m)) => m == message,
            Err(TrySendError::Closed(m)) => m == message,
        },
{
    match tx.try_send(message) {
        Ok(()) => Ok(()),
        Err(tokio::sync::mpsc::error::TrySendError::Full(m)) => Err(TrySendError::Full(m)),
        Err(tokio::sync::mpsc::error::TrySendError::Closed(m)) => Err(TrySendError::Closed(m)),
    }
}

/// A sender bound to one task name; every message it sends is tagged with
/// that name.
#[verifier::reject_recursive_types(P)]
pub struct TaskSender<P> {
    task_name: &'static str,
    unified_tx: Sender<TaskMessage<P>>,
}

impl<P> TaskSender<P> {
    /// The name this sender tags its messages with.
    pub closed spec fn name(&self) -> Seq<char> {
        self.task_name@
    }

    /// The message that sending `message` puts on the bus.
    pub open spec fn message_for(&self, message: P) -> TaskMessage<P> {
        TaskMessage { task_name: self.task_name_spec(), payload: message }
    }

    /// The name as the message carries it.
    pub closed spec fn task_name_spec(&self) -> &'static str {
        self.task_name
    }

    /// The task name of this sender.
    pub fn task_name(&self) -> (r: &'static str)
        ensures
            r == self.task_name_spec(),
            r@ == self.name(),
    {
        self.task_name
    }

    /// The message for `message`, tagged with this sender's name.
    pub fn wrap(&self, message: P) -> (r: TaskMessage<P>)
        ensures
            r == self.message_for(message),
            r.task_name@ == self.name(),
    {
        TaskMessage::new(self.task_name, message)
    }

    /// The channel this sender feeds, for a send that waits.
    pub fn channel(&self) -> &Sender<TaskMessage<P>> {
        &self.unified_tx
    }

    /// Another sender with the same name on the same channel.
    pub fn clone_sender(&self) -> (r: TaskSender<P>)
        ensures
            r.name() == self.name(),
            r.task_name_spec() == self.task_name_spec(),
    {
        TaskSender { task_name: self.task_name, unified_tx: clone_channel_sender(&self.unified_tx) }
    }

    /// Sends `message` tagged with this sender's name without waiting. On
    /// failure the error says whether the buffer was full or the receiver
    /// gone, and gives back exactly `message`.
    pub fn try_send(&self, message: P) -> (r: Result<(), TrySendError<P>>)
        ensures
            match r {
                Ok(()) => true,
                Err(TrySendError::Full(m)) => m == message,
                Err(TrySendError::Closed(m)) => m == message,
            },
    {
        let task_message = self.wrap(message);
        match channel_try_send(&self.unified_tx, task_message) {
            Ok(()) => Ok(()),
            Err(TrySendError::Full(tm)) => Err(TrySendError::Full(tm.payload)),
            Err(TrySendError::Closed(tm)) => Err(TrySendError::Closed(tm.payload)),
        }
    }
}

/// The registry of task names and the shared channel.
#[verifier::reject_recursive_types(P)]
pub struct MessageBus<P> {
    registered_tasks: Vec<String>,
    unified_tx: Sender<TaskMessage<P>>,
    unified_rx: Option<Receiver<TaskMessage<P>>>,
}

impl<P> MessageBus<P> {
    /// The registered names, in order of first registration.
    pub closed spec fn tasks(&self) -> Seq<Seq<char>> {
        self.registered_tasks@.map_values(|s: String| s@)
    }

    /// Whether the receiver has been taken.
    pub closed spec fn receiver_taken(&self) -> bool {
        self.unified_rx is None
    }

    /// No name is registered twice.
    pub open spec fn wf(&self) -> bool {
        self.tasks().no_duplicates()
    }

    /// A bus with no task registered, whose receiver is still there.
    pub fn new() -> (r: MessageBus<P>)
        ensures
            r.wf(),
            r.tasks() == Seq::<Seq<char>>::empty(),
            !r.receiver_taken(),
    {
        let (unified_tx, unified_rx) = open_channel(BUS_CAPACITY);
        let r = MessageBus { registered_tasks: Vec::new(), unified_tx, unified_rx: Some(unified_rx) };
        proof {
            assert(r.tasks() =~= Seq::<Seq<char>>::empty());
        }
        r
    }

    /// Where `name` stands in the registry.
    fn lookup(&self, name: &str) -> (r: Option<usize>)
        ensures
            match r {
                Some(i) => i < self.tasks().len() && self.tasks()[i as int] == name@,
                None => !self.tasks().contains(name@),
            },
    {
        let target = name.to_owned();
        let mut i: usize = 0;
        while i < self.registered_tasks.len()
            invariant
                target@ == name@,
                i <= self.registered_tasks.len(),
                self.tasks().len() == self.registered_tasks.len(),
                forall|j: int| 0 <= j < i ==> self.tasks()[j] != name@,
            decreases self.registered_tasks.len() - i,
        {
            assert(self.tasks()[i as int] == self.registered_tasks@[i as int]@);
            if self.registered_tasks[i] == target {
                return Some(i);
            }
            i += 1;
        }
        None
    }

    /// Registers `task_name` (again, if it already is: the new sender
    /// replaces nothing and shares the channel) and returns a sender that
    /// tags its messages with it.
    pub fn register(&mut self, task_name: &'static str) -> (r: TaskSender<P>)
        requires
            old(self).wf(),
        ensures
            final(self).wf(),
            final(self).tasks() == if old(self).tasks().contains(task_name@) {
                old(self).tasks()
            } else {
                old(self).tasks().push(task_name@)
            },
            final(self).receiver_taken() == old(self).receiver_taken(),
            r.name() == task_name@,
    {
        if self.lookup(task_name).is_none() {
            self.registered_tasks.push(task_name.to_owned());
            proof {
                assert(self.tasks() =~= old(self).tasks().push(task_name@));
            }
        }
        TaskSender { task_name, unified_tx: clone_channel_sender(&self.unified_tx) }
    }

    /// Another sender for a name already registered; `None` otherwise.
    pub fn sender(&self, task_name: &'static str) -> (r: Option<TaskSender<P>>)
        ensures
            r is Some <==> self.tasks().contains(task_name@),
            match r {
                Some(s) => s.name() == task_name@,
                None => true,
            },
    {
        match self.lookup(task_name) {
            Some(_) => Some(
                TaskSender { task_name, unified_tx: clone_channel_sender(&self.unified_tx) },
            ),
            None => None,
        }
    }

    /// The receiving end of the bus. Only the first call gets it; every
    /// later call gets `None`.
    pub fn take_receiver(&mut self) -> (r: Option<Receiver<TaskMessage<P>>>)
        ensures
            r is Some <==> !old(self).receiver_taken(),
            final(self).receiver_taken(),
            final(self).tasks() == old(self).tasks(),
    {
        self.unified_rx.take()
    }

    /// Whether `task_name` is registered.
    pub fn has_task(&self, task_name: &str) -> (r: bool)
        ensures
            r == self.tasks().contains(task_name@),
    {
        self.lookup(task_name).is_some()
    }

    /// How many distinct names are registered.
    pub fn task_count(&self) -> (r: usize)
        ensures
            r == self.tasks().len(),
    {
        self.registered_tasks.len()
    }
}

/// A message sent through a sender carries that sender's name, and taking
/// it apart gives back exactly the payload that was sent.
pub proof fn lemma_message_round_trip<P>(sender: TaskSender<P>, message: P)
    ensures
        sender.message_for(message).task_name@ == sender.name(),
        sender.message_for(message).payload == message,
{
    assert(sender.task_name_spec()@ == sender.name());
}

} // verus!
