//! The client side: a cloneable command handle and the decisions of the
//! task that owns the channel and serves the handle's commands.
use vstd::prelude::*;

use crate::addr::SocketAddress;
use crate::channel::ChannelPoll;
use crate::error::{Error, ErrorKind};

verus! {

/// A command that a `Client` hands to the driver task.
///
/// `Q` is a request, `I` an indication and `S` the single-use slot through
/// which the caller of a request waits for its outcome.
pub enum Command<Q, I, S> {
    Call(SocketAddress, Q, S),
    Cast(SocketAddress, I),
}

/// What the driver does with one command.
pub enum CommandStep<Q, I, S> {
    /// Send the request through the channel and resolve the slot with the
    /// outcome of that transaction.
    ForwardCall(SocketAddress, Q, S),
    /// Send the indication through the channel.
    ForwardCast(SocketAddress, I),
    /// Resolve the slot at once with the error that failed the channel.
    Fail(S, Error),
    /// Drop the indication: the channel has failed and casts are best-effort.
    Discard,
}

/// The step that a driver whose channel failed with `failure` (if any) takes
/// for `c`.
pub open spec fn command_step<Q, I, S>(failure: Option<Error>, c: Command<Q, I, S>) -> CommandStep<
    Q,
    I,
    S,
> {
    match c {
        Command::Call(peer, request, slot) => match failure {
            Some(e) => CommandStep::Fail(slot, e),
            None => CommandStep::ForwardCall(peer, request, slot),
        },
        Command::Cast(peer, indication) => match failure {
            Some(_) => CommandStep::Discard,
            None => CommandStep::ForwardCast(peer, indication),
        },
    }
}

/// The slot that a command carries, if it is a call.
pub open spec fn command_slot<Q, I, S>(c: Command<Q, I, S>) -> Option<S> {
    match c {
        Command::Call(_, _, slot) => Some(slot),
        Command::Cast(_, _) => None,
    }
}

/// The slot that a step resolves, whether through the channel or at once.
pub open spec fn step_slot<Q, I, S>(s: CommandStep<Q, I, S>) -> Option<S> {
    match s {
        CommandStep::ForwardCall(_, _, slot) => Some(slot),
        CommandStep::Fail(slot, _) => Some(slot),
        _ => None,
    }
}

/// What the driver task does after one poll of its channel.
#[derive(Clone, Copy, Debug, PartialEq, Eq, Structural)]
pub enum DriverStep {
    /// Poll the channel again in this turn.
    Continue,
    /// Nothing more to do in this turn.
    Yield,
    /// The task is done.
    Finish,
}

/// The error stored when a channel's inbound stream ends cleanly while
/// handles still feed the driver: later calls fail with it.
pub open spec fn channel_ended() -> Error {
    Error { kind: ErrorKind::ChannelUnavailable }
}

/// The decisions of the client's driver task: whether its channel has failed
/// or ended, and whether every handle has been dropped.
pub struct ClientDriver {
    failure: Option<Error>,
    commands_closed: bool,
}

impl ClientDriver {
    /// The error that failed or ended the channel, if it has.
    pub closed spec fn failure_spec(&self) -> Option<Error> {
        self.failure
    }

    /// Whether the command queue has been seen closed.
    pub closed spec fn commands_closed_spec(&self) -> bool {
        self.commands_closed
    }

    /// A driver over a working channel with an open command queue.
    pub fn new() -> (r: ClientDriver)
        ensures
            r.failure_spec() is None,
            !r.commands_closed_spec(),
    {
        ClientDriver { failure: None, commands_closed: false }
    }

    /// Whether the command queue has been seen closed.
    pub fn commands_closed(&self) -> (r: bool)
        ensures
            r == self.commands_closed_spec(),
    {
        self.commands_closed
    }

    /// The error that failed the channel, if it has failed.
    pub fn failure(&self) -> (r: Option<Error>)
        ensures
            r == self.failure_spec(),
    {
        self.failure
    }

    /// Decides what to do with one command.
    ///
    /// Over a working channel a call or a cast is forwarded; over a failed
    /// or ended one a call is resolved at once with a copy of the stored
    /// error and a cast is dropped. Commands never change the driver's state.
    pub fn handle_command<Q, I, S>(&self, command: Command<Q, I, S>) -> (r: CommandStep<Q, I, S>)
        ensures
            r == command_step(self.failure_spec(), command),
    {
        match command {
            Command::Call(peer, request, slot) => match self.failure {
                Some(e) => CommandStep::Fail(slot, e),
                None => CommandStep::ForwardCall(peer, request, slot),
            },
            Command::Cast(peer, indication) => match self.failure {
                Some(_) => CommandStep::Discard,
                None => CommandStep::ForwardCast(peer, indication),
            },
        }
    }

    /// Decides what to do with every command that is ready in one turn, in
    /// the order in which they were sent.
    pub fn handle_commands<Q, I, S>(&self, commands: Vec<Command<Q, I, S>>) -> (r: Vec<
        CommandStep<Q, I, S>,
    >)
        ensures
            r@.len() == commands@.len(),
            forall|i: int|
                0 <= i < r@.len() ==> r@[i] == command_step(self.failure_spec(), commands@[i]),
    {
        let ghost all = commands@;
        let ghost n = commands@.len();
        let mut rest = commands;
        let mut steps: Vec<CommandStep<Q, I, S>> = Vec::new();
        while rest.len() > 0
            invariant
                steps@.len() + rest@.len() == n,
                all.len() == n,
                rest@ == all.subrange(steps@.len() as int, n as int),
                forall|i: int|
                    0 <= i < steps@.len() ==> steps@[i] == command_step(self.failure_spec(), all[i]),
            decreases rest@.len(),
        {
            let c = rest.remove(0);
            proof {
                assert(c == all[steps@.len() as int]);
            }
            let step = self.handle_command(c);
            steps.push(step);
        }
        steps
    }

    /// Records that every handle has been dropped, and decides whether the
    /// task ends now.
    ///
    /// It ends when no transaction is outstanding, or when the channel has
    /// failed or ended (then none can be served); otherwise it goes on
    /// polling the channel until one of these holds.
    pub fn on_commands_closed(&mut self, outstanding: usize) -> (finish: bool)
        ensures
            final(self).commands_closed_spec(),
            final(self).failure_spec() == old(self).failure_spec(),
            finish == (old(self).failure_spec() is Some || outstanding == 0),
    {
        self.commands_closed = true;
        self.failure.is_some() || outstanding == 0
    }

    /// Decides what follows one poll of the channel's inbound stream.
    ///
    /// Inbound messages are dropped (a client serves no requests). A clean
    /// end or an error of the stream is stored, so that later calls fail at
    /// once; the task finishes on it only once every handle has been
    /// dropped. A failed or ended channel is not polled again.
    pub fn on_channel_poll<M>(&mut self, poll: ChannelPoll<M>) -> (r: DriverStep)
        ensures
            final(self).commands_closed_spec() == old(self).commands_closed_spec(),
            r == DriverStep::Finish ==> final(self).commands_closed_spec(),
            old(self).failure_spec() is Some ==> r == DriverStep::Yield && final(self).failure_spec()
                == old(self).failure_spec(),
            old(self).failure_spec() is None ==> match poll {
                ChannelPoll::Pending => r == DriverStep::Yield && final(self).failure_spec() is None,
                ChannelPoll::Ready(_) => r == DriverStep::Continue && final(self).failure_spec() is None,
                ChannelPoll::Closed => final(self).failure_spec() == Some(channel_ended()) && r == (
                if old(self).commands_closed_spec() {
                    DriverStep::Finish
                } else {
                    DriverStep::Yield
                }),
                ChannelPoll::Failed(e) => final(self).failure_spec() == Some(e) && r == (
                if old(self).commands_closed_spec() {
                    DriverStep::Finish
                } else {
                    DriverStep::Yield
                }),
            },
    {
        if self.failure.is_some() {
            return DriverStep::Yield;
        }
        match poll {
            ChannelPoll::Pending => DriverStep::Yield,
            ChannelPoll::Ready(_) => DriverStep::Continue,
            ChannelPoll::Closed => {
                self.failure = Some(Error { kind: ErrorKind::ChannelUnavailable });
                self.stop_step()
            },
            ChannelPoll::Failed(e) => {
                self.failure = Some(e);
                self.stop_step()
            },
        }
    }

    fn stop_step(&self) -> (r: DriverStep)
        ensures
            r == (if self.commands_closed_spec() {
                DriverStep::Finish
            } else {
                DriverStep::Yield
            }),
    {
        if self.commands_closed {
            DriverStep::Finish
        } else {
            DriverStep::Yield
        }
    }
}

/// Calls do not cross: in a batch of commands handled by one driver, the
/// step for each command resolves exactly the slot of that command (and a
/// cast resolves none), and over a working channel every call goes to the
/// channel, whose outcome for that very transaction resolves its slot.
pub proof fn lemma_calls_resolve_own_slot<Q, I, S>(
    failure: Option<Error>,
    commands: Seq<Command<Q, I, S>>,
    steps: Seq<CommandStep<Q, I, S>>,
)
    requires
        steps.len() == commands.len(),
        forall|i: int| 0 <= i < steps.len() ==> steps[i] == command_step(failure, commands[i]),
    ensures
        forall|i: int|
            0 <= i < steps.len() ==> step_slot(#[trigger] steps[i]) == command_slot(commands[i]),
        forall|i: int|
            0 <= i < steps.len() && failure is None && commands[i] is Call ==> (
            #[trigger] steps[i]) is ForwardCall,
        forall|i: int|
            0 <= i < steps.len() && commands[i] is Call ==> (failure matches Some(e) ==> (
            #[trigger] steps[i]) matches CommandStep::Fail(_, f) && f == e),
{
}

/// An abandoned call does not disturb the others. A caller that gives up
/// leaves its command in the queue, but the slot it carries has no reader
/// any more: whatever slot a call carries, the step for every other command
/// of the batch stays the same, and the step for that call resolves exactly
/// its own slot, with what the channel gives for it. (Handling a command
/// never changes the driver's state: `handle_command` takes it by `&self`.)
pub proof fn lemma_abandoned_call_isolated<Q, I, S>(
    failure: Option<Error>,
    commands: Seq<Command<Q, I, S>>,
    k: int,
    abandoned: S,
)
    requires
        0 <= k < commands.len(),
        commands[k] is Call,
    ensures
        ({
            let c = commands[k];
            let other = commands.update(k, Command::Call(c->Call_0, c->Call_1, abandoned));
            &&& forall|i: int|
                0 <= i < commands.len() && i != k ==> command_step(failure, #[trigger] other[i])
                    == command_step(failure, commands[i])
            &&& step_slot(command_step(failure, other[k])) == Some(abandoned)
            &&& (failure is None ==> command_step(failure, other[k]) == CommandStep::<Q, I, S>::ForwardCall(c->Call_0, c->Call_1, abandoned))
        }),
{
}

/// The command that a call of `Client::call` hands to the driver task.
pub fn call_command<Q, I, S>(peer: SocketAddress, request: Q, reply: S) -> (c: Command<Q, I, S>)
    ensures
        c == Command::<Q, I, S>::Call(peer, request, reply),
{
    Command::Call(peer, request, reply)
}

/// The command that a call of `Client::cast` hands to the driver task.
pub fn cast_command<Q, I, S>(peer: SocketAddress, indication: I) -> (c: Command<Q, I, S>)
    ensures
        c == Command::<Q, I, S>::Cast(peer, indication),
{
    Command::Cast(peer, indication)
}

/// The channel through which a `Client` hands commands to its driver task.
#[verifier::external_type_specification]
#[verifier::external_body]
#[verifier::reject_recursive_types(T)]
pub struct ExCommandSender<T>(fibers::sync::mpsc::Sender<T>);

/// The error that sending on a channel whose receiver has gone gives.
#[verifier::external_type_specification]
#[verifier::external_body]
#[verifier::reject_recursive_types(T)]
pub struct ExSendError<T>(std::sync::mpsc::SendError<T>);

/// Relies on fibers' `mpsc::Sender::send`: it enqueues the item, or hands it
/// back in an error when the receiver has been dropped. Whether the receiver
/// is still there is not known here, so nothing is promised of the outcome.
pub assume_specification<T>[ fibers::sync::mpsc::Sender::<T>::send ](
    sender: &fibers::sync::mpsc::Sender<T>,
    t: T,
) -> (r: core::result::Result<(), std::sync::mpsc::SendError<T>>);

/// Relies on fibers' `Sender::clone`: the copy feeds the same receiver.
pub assume_specification<T>[ <fibers::sync::mpsc::Sender<T> as core::clone::Clone>::clone ](
    sender: &fibers::sync::mpsc::Sender<T>,
) -> fibers::sync::mpsc::Sender<T>;

/// The error of a command that could not be handed to the driver task.
pub open spec fn unavailable() -> Error {
    Error { kind: ErrorKind::ChannelUnavailable }
}

/// A handle that hands requests and indications to a driver task.
///
/// Every clone of a handle feeds the same task; the task sees the queue
/// closed once all of them have been dropped.
#[verifier::reject_recursive_types(Q)]
#[verifier::reject_recursive_types(I)]
#[verifier::reject_recursive_types(S)]
pub struct Client<Q, I, S> {
    command_tx: fibers::sync::mpsc::Sender<Command<Q, I, S>>,
}

impl<Q, I, S> Client<Q, I, S> {
    /// The sending end of the command queue that this handle feeds.
    pub closed spec fn sender(&self) -> fibers::sync::mpsc::Sender<Command<Q, I, S>> {
        self.command_tx
    }

    /// Makes a client that feeds the driver task reading from the other end
    /// of `command_tx`.
    pub fn new(command_tx: fibers::sync::mpsc::Sender<Command<Q, I, S>>) -> (r: Client<Q, I, S>)
        ensures
            r.sender() == command_tx,
    {
        Client { command_tx }
    }

    fn send(&self, command: Command<Q, I, S>) -> (r: Result<(), Error>)
        ensures
            r is Err ==> r == Err::<(), Error>(unavailable()),
    {
        match self.command_tx.send(command) {
            Ok(()) => Ok(()),
            Err(_) => Err(Error { kind: ErrorKind::ChannelUnavailable }),
        }
    }

    /// Hands `call_command(peer, request, reply)` to the driver task, which
    /// resolves `reply` with the outcome of the transaction.
    ///
    /// Fails with a `ChannelUnavailable` error, and drops `reply`, when the
    /// driver task has gone.
    pub fn call(&self, peer: SocketAddress, request: Q, reply: S) -> (r: Result<(), Error>)
        ensures
            r is Err ==> r == Err::<(), Error>(unavailable()),
    {
        self.send(call_command(peer, request, reply))
    }

    /// Hands `cast_command(peer, indication)` to the driver task; no delivery
    /// is confirmed.
    ///
    /// Fails with a `ChannelUnavailable` error when the driver task has gone.
    pub fn cast(&self, peer: SocketAddress, indication: I) -> (r: Result<(), Error>)
        ensures
            r is Err ==> r == Err::<(), Error>(unavailable()),
    {
        self.send(cast_command(peer, indication))
    }
}

impl<Q, I, S> Clone for Client<Q, I, S> {
    /// Another handle that feeds the same driver task.
    fn clone(&self) -> (r: Client<Q, I, S>) {
        Client { command_tx: self.command_tx.clone() }
    }
}

} // verus!
