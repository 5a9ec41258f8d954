use crate::command::Command;
use crate::error::{CommandResult, Error};
use futures::channel::oneshot::{self, Canceled, Receiver, Sender};
use tokio::sync::mpsc::{self, UnboundedReceiver, UnboundedSender};
use vstd::prelude::*;

verus! {

/// A command on its way to the worker, with the slot its answer goes into.
#[derive(Debug)]
pub struct SubmittedCommand {
    pub command: Command,
    pub slot: Sender<CommandResult>,
}

impl SubmittedCommand {
    /// Pairs `command` with the slot its answer goes into.
    pub fn new(command: Command, slot: Sender<CommandResult>) -> (r: SubmittedCommand)
        ensures
            r.command == command,
            r.slot == slot,
    {
        SubmittedCommand { command, slot }
    }
}

/// What a submission hands back at once.
#[derive(Debug)]
pub enum PendingResult {
    /// The command is queued; its answer arrives on `reply`.
    Queued { command: Command, reply: Receiver<CommandResult> },
    /// The command could not be queued.
    Refused(Error),
}

/// Whether `tx` and `rx` are the two ends of one queue: what is sent on `tx`
/// is received on `rx`.
pub uninterp spec fn same_queue(
    tx: UnboundedSender<SubmittedCommand>,
    rx: UnboundedReceiver<SubmittedCommand>,
) -> bool;

/// Relies on tokio's `mpsc::unbounded_channel`: a new, empty queue and its two
/// ends, built on one channel.
#[verifier::external_body]
fn open_queue() -> (r: (UnboundedSender<SubmittedCommand>, UnboundedReceiver<SubmittedCommand>))
    ensures
        same_queue(r.0, r.1),
{
    mpsc::unbounded_channel()
}

/// Relies on futures' `oneshot::channel`: a new reply slot and its receiver.
#[verifier::external_body]
fn reply_slot() -> (r: (Sender<CommandResult>, Receiver<CommandResult>)) {
    oneshot::channel()
}

/// Relies on tokio's `UnboundedSender::send`: the message is queued without
/// waiting, or handed back when the queue's consumer is gone.
#[verifier::external_body]
fn enqueue(tx: &UnboundedSender<SubmittedCommand>, message: SubmittedCommand) -> (r: Result<
    (),
    SubmittedCommand,
>)
    ensures
        r matches Err(back) ==> back == message,
{
    tx.send(message).map_err(|e| e.0)
}

/// Whether `r` is what submitting `command` may hand back: the command queued,
/// or refused because the queue has no consumer.
pub open spec fn submitted(r: PendingResult, command: Command) -> bool {
    match r {
        PendingResult::Queued { command: c, .. } => c == command,
        PendingResult::Refused(e) => e == Error::CommandSendError { command },
    }
}

/// The answer to `command` once its reply slot has resolved: what the worker
/// sent, or `Cancelled` when the slot was dropped unanswered.
pub fn resolve(command: Command, received: Result<CommandResult, Canceled>) -> (r: CommandResult)
    ensures
        match received {
            Ok(answer) => r == answer,
            Err(_) => r == Err::<Option<String>, Error>(Error::Cancelled { command }),
        },
{
    match received {
        Ok(answer) => answer,
        Err(_) => Err(Error::Cancelled { command }),
    }
}

/// The handle through which callers submit commands to the worker.
///
/// Commands are queued at once, in call order; the worker answers them in that
/// order. The worker ends on `Stop`, or once every handle has been dropped and
/// the queue has been drained.
pub struct ProjectorControl {
    cmd_tx: UnboundedSender<SubmittedCommand>,
}

impl ProjectorControl {
    /// The producer end of the handle's queue.
    pub closed spec fn sender(&self) -> UnboundedSender<SubmittedCommand> {
        self.cmd_tx
    }

    /// A handle and the consumer end of its queue, which the worker's driver
    /// reads from.
    pub fn new() -> (r: (ProjectorControl, UnboundedReceiver<SubmittedCommand>))
        ensures
            same_queue(r.0.sender(), r.1),
    {
        let (cmd_tx, cmd_rx) = open_queue();
        (ProjectorControl { cmd_tx }, cmd_rx)
    }

    fn submit_owned(&self, command: Command) -> (r: PendingResult)
        ensures
            submitted(r, command),
    {
        let (slot, reply) = reply_slot();
        let message = SubmittedCommand::new(command.clone(), slot);
        assert(message.command == command);
        match enqueue(&self.cmd_tx, message) {
            Ok(()) => PendingResult::Queued { command, reply },
            Err(back) => PendingResult::Refused(Error::CommandSendError { command: back.command }),
        }
    }

    /// Queues `command` for the worker now, before anything is awaited.
    pub fn submit_command(&self, command: Command) -> (r: PendingResult)
        ensures
            submitted(r, command),
    {
        self.submit_owned(command)
    }

    /// Queues `Stop`, after which the worker runs nothing more; consumes the handle.
    pub fn stop(self) -> (r: PendingResult)
        ensures
            submitted(r, Command::Stop),
    {
        self.submit_owned(Command::Stop)
    }
}

} // verus!
