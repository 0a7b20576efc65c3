//! Serialized dispatch of hardware commands.
//!
//! Every access to the hardware is a [`Command`]. One worker owns the only
//! [`HardwareContext`] and runs the commands one after the other; whoever
//! submits a command keeps a [`CommandFuture`], on which the result can be
//! read any number of times once the worker has written it through the
//! matching [`CommandReturn`]. A future whose `CommandReturn` went away
//! unused reports that the hardware thread has crashed.
//!
//! The completion slot between the two halves is a one-shot channel of the
//! `futures` crate. What it answers depends on the other thread, so the
//! contracts here say what is done with each possible answer.

use vstd::prelude::*;
use futures::sync::oneshot::{Canceled, Receiver, Sender};

verus! {

/// An error that a command, or the dispatch itself, reports.
#[derive(Copy, Clone, Debug, PartialEq, Eq, Structural, Hash)]
pub enum HardwareError {
    /// The worker went away before it wrote a result, or cannot be reached.
    HardwareThreadCrashed,
    /// The command failed for a reason that it does not tell.
    Unknown,
    /// A failure without meaning, for commands that only try the dispatch.
    Dummy,
}

impl HardwareError {
    /// Whether this error says that the dispatch is unusable, as opposed to
    /// a failure of the command's own.
    pub open spec fn worker_gone(self) -> bool {
        self == HardwareError::HardwareThreadCrashed
    }

    /// Tells a failure of the dispatch from a failure of the command.
    pub fn is_worker_gone(&self) -> (gone: bool)
        ensures
            gone == self.worker_gone(),
    {
        match self {
            HardwareError::HardwareThreadCrashed => true,
            HardwareError::Unknown => false,
            HardwareError::Dummy => false,
        }
    }

    /// A short description of the error.
    pub fn description(&self) -> (text: &'static str)
        ensures
            *self == HardwareError::HardwareThreadCrashed ==> text@
                == "the hardware thread has crashed"@,
            *self == HardwareError::Unknown ==> text@ == "unknown error"@,
            *self == HardwareError::Dummy ==> text@ == "dummy error"@,
    {
        match self {
            HardwareError::HardwareThreadCrashed => "the hardware thread has crashed",
            HardwareError::Unknown => "unknown error",
            HardwareError::Dummy => "dummy error",
        }
    }
}

/// The state of the hardware, which the worker owns. A command reaches the
/// hardware only through the reference that `execute` is given; nothing
/// outside this module can make a `HardwareContext`.
pub struct HardwareContext {
    _private: (),
}

/// A unit of work on the hardware, run once by the worker.
pub trait Command {
    /// What the command hands back to its caller.
    type Output: Send;

    /// Runs the command against the hardware.
    fn execute(self, hw: &mut HardwareContext) -> Result<Self::Output, HardwareError>;
}

/// What a look at a future finds.
#[derive(Debug, PartialEq, Eq, Structural)]
pub enum Async<T> {
    /// The result is there.
    Ready(T),
    /// The worker has not written a result yet.
    NotReady,
}

/// `futures::sync::oneshot::Receiver`, the reading half of a one-shot
/// channel, carried as it is.
#[verifier::external_type_specification]
#[verifier::external_body]
#[verifier::reject_recursive_types(T)]
pub struct ExOneshotReceiver<T>(Receiver<T>);

/// `futures::sync::oneshot::Sender`, the writing half of a one-shot channel,
/// carried as it is.
#[verifier::external_type_specification]
#[verifier::external_body]
#[verifier::reject_recursive_types(T)]
pub struct ExOneshotSender<T>(Sender<T>);

/// `futures::sync::oneshot::Canceled`, the answer of a one-shot channel whose
/// writing half went away without writing.
#[verifier::external_type_specification]
#[verifier::external_body]
pub struct ExCanceled(Canceled);

/// `futures::sync::oneshot::channel` makes the two halves of a fresh slot.
/// Nothing is claimed of them.
pub assume_specification<T>[ futures::sync::oneshot::channel::<T> ]() -> (halves: (
    Sender<T>,
    Receiver<T>,
));

/// `Sender::send` of the one-shot channel writes the slot, or hands the value
/// back where the receiving half is gone. Claimed: a value that comes back
/// is the one that was given.
pub assume_specification<T>[ Sender::<T>::send ](sender: Sender<T>, t: T) -> (sent: Result<(), T>)
    ensures
        sent matches Err(back) ==> back == t,
;

/// `Receiver::try_recv` of the one-shot channel looks at the slot without
/// waiting. Nothing is claimed of what it finds: that depends on the thread
/// that holds the sending half.
pub assume_specification<T>[ Receiver::<T>::try_recv ](receiver: &mut Receiver<T>) -> (found:
    Result<Option<T>, Canceled>);

/// The sending half of a command's completion slot. It is used up by the one
/// write that it allows.
pub struct CommandReturn<C: Command> {
    sender: Sender<Result<C::Output, HardwareError>>,
}

/// The receiving half of a command's completion slot, with the result once
/// it has been read from the slot.
pub struct CommandFuture<C: Command> {
    receiver: Receiver<Result<C::Output, HardwareError>>,
    stored: Option<Result<C::Output, HardwareError>>,
}

/// What a future holds after a look at its slot that found `found`: nothing
/// while the slot is empty, the value that was written, or the report that
/// the hardware thread has crashed where the sending half went away unused.
pub open spec fn settled<T>(found: Result<Option<Result<T, HardwareError>>, Canceled>) -> Option<
    Result<T, HardwareError>,
> {
    match found {
        Ok(Some(result)) => Some(result),
        Ok(None) => None,
        Err(_) => Some(Err(HardwareError::HardwareThreadCrashed)),
    }
}

/// What a blocking read of the slot that came back with `received` amounts
/// to: the value that was written, or the report that the hardware thread
/// has crashed.
pub open spec fn waited<T>(received: Result<Result<T, HardwareError>, Canceled>) -> Result<
    T,
    HardwareError,
> {
    match received {
        Ok(result) => result,
        Err(_) => Err(HardwareError::HardwareThreadCrashed),
    }
}

/// Whether `outcome` is what a look at a future that holds `resolved` hands
/// out: "not ready" while nothing is held, else a clone of the value or the
/// error itself.
pub open spec fn reports<T: Clone>(
    resolved: Option<Result<T, HardwareError>>,
    outcome: Result<Async<T>, HardwareError>,
) -> bool {
    match resolved {
        None => outcome == Ok::<Async<T>, HardwareError>(Async::NotReady),
        Some(Ok(value)) => outcome matches Ok(Async::Ready(copy)) && cloned(value, copy),
        Some(Err(error)) => outcome == Err::<Async<T>, HardwareError>(error),
    }
}

/// Turns what a look at the slot found into what the future holds from then
/// on.
pub fn settle<T>(found: Result<Option<Result<T, HardwareError>>, Canceled>) -> (resolved: Option<
    Result<T, HardwareError>,
>)
    ensures
        resolved == settled(found),
{
    match found {
        Ok(Some(result)) => Some(result),
        Ok(None) => None,
        Err(_) => Some(Err(HardwareError::HardwareThreadCrashed)),
    }
}

/// Turns what a blocking read of the slot came back with into the result of
/// the command.
pub fn resolve_wait<T>(received: Result<Result<T, HardwareError>, Canceled>) -> (outcome: Result<
    T,
    HardwareError,
>)
    ensures
        outcome == waited(received),
{
    match received {
        Ok(result) => result,
        Err(_) => Err(HardwareError::HardwareThreadCrashed),
    }
}

/// Hands out what a future holds, without taking it away.
pub fn report<T: Clone>(resolved: &Option<Result<T, HardwareError>>) -> (outcome: Result<
    Async<T>,
    HardwareError,
>)
    ensures
        reports(*resolved, outcome),
{
    match resolved {
        None => Ok(Async::NotReady),
        Some(Ok(value)) => Ok(Async::Ready(value.clone())),
        Some(Err(error)) => Err(*error),
    }
}

impl<C: Command> CommandReturn<C> {
    /// Writes the result of the command into the slot, which uses this half
    /// up. Where no future is left to read the result, it is not written but
    /// handed back as it was given.
    pub fn set(self, value: Result<C::Output, HardwareError>) -> (written: Result<
        (),
        Result<C::Output, HardwareError>,
    >)
        ensures
            written matches Err(back) ==> back == value,
    {
        self.sender.send(value)
    }
}

impl<C: Command> CommandFuture<C> {
    /// What the future holds: `None` until a look at the slot has found the
    /// result or the loss of the worker.
    pub closed spec fn resolved(self) -> Option<Result<C::Output, HardwareError>> {
        self.stored
    }

    /// Makes a fresh completion slot: the future for the caller and the
    /// `CommandReturn` for the worker. The future holds nothing yet.
    pub fn new() -> (halves: (CommandFuture<C>, CommandReturn<C>))
        ensures
            halves.0.resolved() is None,
    {
        let (sender, receiver) = futures::sync::oneshot::channel();
        (CommandFuture { receiver, stored: None }, CommandReturn { sender })
    }

    /// Looks at the slot without waiting. A future that holds a result keeps
    /// it and does not look again; one that holds none takes what the slot
    /// shows. Either way the outcome is what the future holds afterwards.
    pub fn poll(&mut self) -> (outcome: Result<Async<C::Output>, HardwareError>) where
        C::Output: Clone,

        ensures
            old(self).resolved() is Some ==> final(self).resolved() == old(self).resolved(),
            reports(final(self).resolved(), outcome),
    {
        if self.stored.is_none() {
            let found = self.receiver.try_recv();
            self.stored = settle(found);
        }
        report(&self.stored)
    }

    /// Whether the future holds a result, by what earlier looks have found.
    pub fn is_resolved(&self) -> (yes: bool)
        ensures
            yes == self.resolved() is Some,
    {
        self.stored.is_some()
    }

    /// Takes the future apart for a blocking read: the result where one is
    /// held, which needs no waiting, else the receiving half of the slot.
    pub fn into_result(self) -> (parts: Result<
        Result<C::Output, HardwareError>,
        Receiver<Result<C::Output, HardwareError>>,
    >)
        ensures
            self.resolved() matches Some(result) ==> parts == Ok::<
                Result<C::Output, HardwareError>,
                Receiver<Result<C::Output, HardwareError>>,
            >(result),
            self.resolved() is None ==> parts is Err,
    {
        match self.stored {
            Some(result) => Ok(result),
            None => Err(self.receiver),
        }
    }

    /// Decides what a submission returns: the future where the command was
    /// queued, the report that the hardware thread has crashed where the
    /// queue no longer takes commands.
    pub fn submitted(self, queued: bool) -> (handed: Result<CommandFuture<C>, HardwareError>)
        ensures
            queued ==> handed == Ok::<CommandFuture<C>, HardwareError>(self),
            !queued ==> handed == Err::<CommandFuture<C>, HardwareError>(
                HardwareError::HardwareThreadCrashed,
            ),
    {
        if queued {
            Ok(self)
        } else {
            Err(HardwareError::HardwareThreadCrashed)
        }
    }
}

/// A command that failed is reported as failed, with its own error, by a look
/// at the future and by a blocking read alike, whatever was held before.
pub proof fn lemma_failure_is_reported<T: Clone>(
    error: HardwareError,
    outcome: Result<Async<T>, HardwareError>,
)
    requires
        reports(settled::<T>(Ok(Some(Err(error)))), outcome),
    ensures
        outcome == Err::<Async<T>, HardwareError>(error),
        waited::<T>(Ok(Err(error))) == Err::<T, HardwareError>(error),
{
}

/// A command whose slot was given up unwritten is reported as lost with the
/// worker, by a look at the future and by a blocking read alike.
pub proof fn lemma_lost_worker_is_reported<T: Clone>(
    canceled: Canceled,
    outcome: Result<Async<T>, HardwareError>,
)
    requires
        reports(settled::<T>(Err(canceled)), outcome),
    ensures
        outcome == Err::<Async<T>, HardwareError>(HardwareError::HardwareThreadCrashed),
        waited::<T>(Err(canceled)) == Err::<T, HardwareError>(
            HardwareError::HardwareThreadCrashed,
        ),
        HardwareError::HardwareThreadCrashed.worker_gone(),
{
}

/// Reading is idempotent: two looks at a future that holds the same thing
/// agree on whether there is a result, on whether it is a success, and on the
/// error; a success is handed out as a clone of the one value held.
pub proof fn lemma_reads_agree<T: Clone>(
    resolved: Option<Result<T, HardwareError>>,
    first: Result<Async<T>, HardwareError>,
    second: Result<Async<T>, HardwareError>,
)
    requires
        reports(resolved, first),
        reports(resolved, second),
    ensures
        first is Err <==> second is Err,
        first is Err ==> first == second,
        first == Ok::<Async<T>, HardwareError>(Async::NotReady) <==> second == Ok::<
            Async<T>,
            HardwareError,
        >(Async::NotReady),
        first matches Ok(Async::Ready(a)) ==> second matches Ok(Async::Ready(b)) && cloned(
            resolved->0->Ok_0,
            a,
        ) && cloned(resolved->0->Ok_0, b),
{
}

/// A command and its completion slot, as they wait in the queue. Commands of
/// all kinds wait in one queue, so the kind is hidden behind this trait.
trait QueuedUnit: Send {
    /// Whether the command has run, so that nothing is left to run.
    spec fn spent(&self) -> bool;

    /// Runs the command, unless it has run, and writes its result. After
    /// that the command has run, whether it did so now or before.
    fn run_on(&mut self, hw: &mut HardwareContext)
        ensures
            final(self).spent(),
    ;
}

/// A command of one kind with its completion slot; empty once it has run.
struct Submission<C: Command> {
    pending: Option<(C, CommandReturn<C>)>,
}

impl<C: Command + Send> QueuedUnit for Submission<C> {
    spec fn spent(&self) -> bool {
        self.pending is None
    }

    fn run_on(&mut self, hw: &mut HardwareContext) {
        match self.pending.take() {
            Some((command, ret)) => {
                let result = command.execute(hw);
                let _ = ret.set(result);
            },
            None => {},
        }
    }
}

/// One element of the queue: a command of any kind, together with the
/// sending half of its completion slot.
pub struct CommandWithReturn {
    func: Box<dyn QueuedUnit>,
}

impl CommandWithReturn {
    /// Whether the command of this element has run.
    pub closed spec fn spent(self) -> bool {
        self.func.spent()
    }

    /// Packs a command and the sending half of its slot for the queue. The
    /// element holds the command, which has not run.
    pub fn new<C: Command + Send + 'static>(command: C, ret: CommandReturn<C>) -> (unit:
        CommandWithReturn)
        ensures
            !unit.spent(),
    {
        CommandWithReturn { func: Box::new(Submission { pending: Some((command, ret)) }) }
    }

    /// Runs the command to its end and writes what it returned, success or
    /// failure, into its slot.
    pub fn execute(self, hw: &mut HardwareContext) {
        let mut unit = self;
        unit.func.run_on(hw)
    }
}

/// `std::sync::mpsc::Sender`, a sending end of a queue, carried as it is.
#[verifier::external_type_specification]
#[verifier::external_body]
#[verifier::reject_recursive_types(T)]
pub struct ExQueueSender<T>(std::sync::mpsc::Sender<T>);

/// `std::sync::mpsc::Receiver`, the receiving end of a queue, carried as it
/// is.
#[verifier::external_type_specification]
#[verifier::external_body]
#[verifier::reject_recursive_types(T)]
pub struct ExQueueReceiver<T>(std::sync::mpsc::Receiver<T>);

/// `std::sync::mpsc::SendError`, which holds what a queue did not take.
#[verifier::external_type_specification]
#[verifier::external_body]
#[verifier::reject_recursive_types(T)]
pub struct ExSendError<T>(std::sync::mpsc::SendError<T>);

/// `std::sync::mpsc::channel` makes the two ends of a fresh queue without a
/// bound. Nothing is claimed of them.
pub assume_specification<T>[ std::sync::mpsc::channel::<T> ]() -> (ends: (
    std::sync::mpsc::Sender<T>,
    std::sync::mpsc::Receiver<T>,
));

/// `std::sync::mpsc::Sender::send` appends to the queue without waiting, or
/// fails where the receiving end is gone. Nothing is claimed of which it
/// does: that depends on the thread that holds the receiving end.
pub assume_specification<T>[ std::sync::mpsc::Sender::<T>::send ](
    sender: &std::sync::mpsc::Sender<T>,
    t: T,
) -> (sent: Result<(), std::sync::mpsc::SendError<T>>);

/// `Clone::clone` of `std::sync::mpsc::Sender` makes one more sending end of
/// the same queue. Nothing is claimed of it.
pub assume_specification<T>[ <std::sync::mpsc::Sender<T> as Clone>::clone ](
    sender: &std::sync::mpsc::Sender<T>,
) -> (other: std::sync::mpsc::Sender<T>);

/// The front end of the dispatch: it may be cloned and handed to any number
/// of callers, and all clones feed the one queue of the worker.
pub struct CommandSender {
    send: std::sync::mpsc::Sender<CommandWithReturn>,
}

impl Clone for CommandSender {
    /// One more front end of the same queue.
    fn clone(&self) -> (other: CommandSender) {
        CommandSender { send: self.send.clone() }
    }
}

/// Makes the queue of the dispatch: the front end for the callers and the
/// receiving end, from which the worker takes the commands in the order in
/// which they arrived.
pub fn command_queue() -> (ends: (CommandSender, std::sync::mpsc::Receiver<CommandWithReturn>)) {
    let (send, queue) = std::sync::mpsc::channel();
    (CommandSender { send }, queue)
}

impl CommandSender {
    /// Queues a command for the worker and returns the future of its result,
    /// which holds nothing yet. Where the queue no longer takes commands,
    /// the command is dropped and the error says that the hardware thread
    /// has crashed; no other error is returned.
    pub fn run<C: Command + Send + 'static>(&self, command: C) -> (handed: Result<
        CommandFuture<C>,
        HardwareError,
    >)
        ensures
            handed matches Ok(future) ==> future.resolved() is None,
            handed matches Err(error) ==> error == HardwareError::HardwareThreadCrashed,
    {
        let (future, ret) = CommandFuture::new();
        let queued = match self.send.send(CommandWithReturn::new(command, ret)) {
            Ok(_) => true,
            Err(_) => false,
        };
        future.submitted(queued)
    }
}

/// The one owner of the hardware state: it runs commands one at a time, each
/// to its end.
pub struct Worker {
    hardware: HardwareContext,
}

impl Worker {
    /// Makes the worker and, with it, the hardware state.
    pub fn new() -> Worker {
        Worker { hardware: HardwareContext { _private: () } }
    }

    /// Runs one element of the queue to its end and writes its result into
    /// its completion slot.
    pub fn execute(&mut self, unit: CommandWithReturn) {
        unit.execute(&mut self.hardware)
    }
}

} // verus!
