//! The server side: the handler capability set, the driver that dispatches
//! inbound messages to a handler and tracks its deferred replies, and the
//! bind/run lifecycles of UDP and TCP servers.
use vstd::prelude::*;

use crate::addr::SocketAddress;
use crate::channel::ChannelPoll;
use crate::error::{Error, ErrorKind};
use bytecodec::marker::Never;

verus! {

/// How a handler answers one inbound message.
///
/// `T` is the reply, `R` a deferred computation that yields a reply and `N`
/// one that yields nothing. Neither computation fails.
pub enum Action<T, R, N> {
    /// A reply that is ready now.
    Reply(T),
    /// A reply that a deferred computation yields later.
    FutureReply(R),
    /// No reply.
    NoReply,
    /// No reply, but deferred work to run.
    FutureNoReply(N),
}

/// Whether an action carries a reply, now or later.
pub open spec fn bears_reply<T, R, N>(a: Action<T, R, N>) -> bool {
    a is Reply || a is FutureReply
}

/// An inbound message, by kind.
pub enum RecvMessage<I, Q, V> {
    Indication(I),
    Request(Q),
    /// A message malformed but recognisable enough to be answered.
    Invalid(V),
}

/// What the driver does to carry out one action.
pub enum Dispatch<T, R, N> {
    /// Send the reply to the peer through the channel now.
    Reply(SocketAddress, T),
    /// Spawn the computation; when it yields, hand its reply back to the
    /// driver under the given token, to be sent to the peer.
    SpawnReply(SocketAddress, usize, R),
    /// Spawn the computation; nothing comes back.
    Spawn(N),
    /// Nothing to do.
    Nothing,
}

/// The dispatch of a reply-bearing action for a message from `peer`, where
/// a deferred reply is registered under `token`.
pub open spec fn reply_dispatch<T, R, N>(peer: SocketAddress, a: Action<T, R, N>, token: usize) -> Dispatch<
    T,
    R,
    N,
> {
    match a {
        Action::Reply(m) => Dispatch::Reply(peer, m),
        Action::FutureReply(f) => Dispatch::SpawnReply(peer, token, f),
        Action::NoReply => Dispatch::Nothing,
        Action::FutureNoReply(f) => Dispatch::Spawn(f),
    }
}

/// The dispatch of a handler's action for an indication: a contract
/// violation when the action bears a reply.
pub open spec fn indication_dispatch<T, R, N>(a: Action<T, R, N>) -> core::result::Result<
    Dispatch<T, R, N>,
    Error,
> {
    match a {
        Action::NoReply => Ok(Dispatch::Nothing),
        Action::FutureNoReply(f) => Ok(Dispatch::Spawn(f)),
        _ => Err(Error { kind: ErrorKind::ContractViolation }),
    }
}

/// Carries out a handler's action for an indication.
///
/// Indications carry no response, so an action that bears a reply is a
/// contract violation of the handler and yields an error.
pub fn dispatch_indication<T, R, N>(action: Action<T, R, N>) -> (r: core::result::Result<
    Dispatch<T, R, N>,
    Error,
>)
    ensures
        r == indication_dispatch(action),
        r is Err <==> bears_reply(action),
{
    match action {
        Action::NoReply => Ok(Dispatch::Nothing),
        Action::FutureNoReply(f) => Ok(Dispatch::Spawn(f)),
        _ => Err(Error { kind: ErrorKind::ContractViolation }),
    }
}

/// The table of deferred replies that have been spawned and not yet sent.
///
/// Each deferred reply holds a token, a slot of the table; a slot is freed
/// when its reply is sent, so every deferred reply is sent at most once.
pub struct ReplyTable {
    slots: Vec<bool>,
}

impl ReplyTable {
    /// The tokens of the deferred replies awaited.
    pub closed spec fn pending(&self) -> Set<usize> {
        Set::new(|t: usize| t < self.slots@.len() && self.slots@[t as int])
    }

    /// An empty table.
    pub fn new() -> (r: ReplyTable)
        ensures
            r.pending() == Set::<usize>::empty(),
    {
        let r = ReplyTable { slots: Vec::new() };
        assert(r.pending() =~= Set::<usize>::empty());
        r
    }

    /// Registers a new deferred reply and returns its token, one that no
    /// awaited reply holds.
    pub fn open(&mut self) -> (token: usize)
        ensures
            !old(self).pending().contains(token),
            final(self).pending() == old(self).pending().insert(token),
    {
        let mut i: usize = 0;
        while i < self.slots.len()
            invariant
                i <= self.slots@.len(),
                self.slots@ == old(self).slots@,
                forall|j: int| 0 <= j < i ==> self.slots@[j],
            decreases self.slots@.len() - i,
        {
            if !self.slots[i] {
                let ghost before = self.pending();
                self.slots.set(i, true);
                assert(self.pending() =~= before.insert(i));
                return i;
            }
            i = i + 1;
        }
        let ghost before = self.pending();
        assert(!before.contains(i));
        self.slots.push(true);
        assert(self.pending() =~= before.insert(i));
        i
    }

    /// Settles the deferred reply under `token`: returns whether it was
    /// awaited, in which case it is to be sent and is awaited no more.
    pub fn complete(&mut self, token: usize) -> (forward: bool)
        ensures
            forward == old(self).pending().contains(token),
            final(self).pending() == old(self).pending().remove(token),
    {
        if token < self.slots.len() && self.slots[token] {
            let ghost before = self.pending();
            self.slots.set(token, false);
            assert(self.pending() =~= before.remove(token));
            true
        } else {
            assert(self.pending() =~= self.pending().remove(token));
            false
        }
    }

    /// Whether no deferred reply is awaited.
    pub fn is_idle(&self) -> (r: bool)
        ensures
            r == (self.pending() == Set::<usize>::empty()),
    {
        let mut i: usize = 0;
        while i < self.slots.len()
            invariant
                i <= self.slots@.len(),
                forall|j: int| 0 <= j < i ==> !self.slots@[j],
            decreases self.slots@.len() - i,
        {
            if self.slots[i] {
                assert(self.pending().contains(i));
                return false;
            }
            i = i + 1;
        }
        assert(self.pending() =~= Set::<usize>::empty());
        true
    }
}

/// The number of replies sent when deferred replies settle in the order
/// `completions`, starting from the awaited tokens `pending`.
pub open spec fn forwarded(pending: Set<usize>, completions: Seq<usize>) -> nat
    decreases completions.len(),
{
    if completions.len() == 0 {
        0
    } else {
        let t = completions[0];
        (if pending.contains(t) {
            1nat
        } else {
            0nat
        }) + forwarded(pending.remove(t), completions.drop_first())
    }
}

/// The tokens still awaited after deferred replies settle in the order
/// `completions`.
pub open spec fn awaited_after(pending: Set<usize>, completions: Seq<usize>) -> Set<usize>
    decreases completions.len(),
{
    if completions.len() == 0 {
        pending
    } else {
        awaited_after(pending.remove(completions[0]), completions.drop_first())
    }
}

/// Whatever order the deferred replies settle in, each awaited reply that
/// settles is sent exactly once: when `completions` settles distinct awaited
/// tokens, as many replies are sent as it holds tokens, and exactly the
/// tokens that did not settle stay awaited.
pub proof fn lemma_deferred_replies_sent_once(pending: Set<usize>, completions: Seq<usize>)
    requires
        completions.no_duplicates(),
        forall|i: int| 0 <= i < completions.len() ==> pending.contains(#[trigger] completions[i]),
    ensures
        forwarded(pending, completions) == completions.len(),
        forall|t: usize|
            #[trigger] awaited_after(pending, completions).contains(t) <==> (pending.contains(t)
                && !completions.contains(t)),
    decreases completions.len(),
{
    if completions.len() > 0 {
        let t = completions[0];
        let rest = completions.drop_first();
        assert forall|i: int| 0 <= i < rest.len() implies pending.remove(t).contains(
            #[trigger] rest[i],
        ) by {
            assert(rest[i] == completions[i + 1]);
            assert(completions[i + 1] != completions[0]);
        }
        lemma_deferred_replies_sent_once(pending.remove(t), rest);
        assert forall|u: usize| completions.contains(u) <==> (u == t || rest.contains(u)) by {
            if completions.contains(u) {
                let i = choose|i: int| 0 <= i < completions.len() && completions[i] == u;
                if i > 0 {
                    assert(rest[i - 1] == u);
                }
            }
            if rest.contains(u) {
                let i = choose|i: int| 0 <= i < rest.len() && rest[i] == u;
                assert(completions[i + 1] == u);
            }
            if u == t {
                assert(completions[0] == u);
            }
        }
        assert(awaited_after(pending, completions) == awaited_after(pending.remove(t), rest));
    } else {
        assert forall|u: usize| !completions.contains(u) by {}
    }
}

/// When the settled tokens are exactly the awaited ones, in any order,
/// every awaited reply is sent once and none stays awaited.
pub proof fn lemma_all_deferred_replies_sent(pending: Set<usize>, completions: Seq<usize>)
    requires
        completions.no_duplicates(),
        forall|t: usize| pending.contains(t) <==> completions.contains(t),
    ensures
        forwarded(pending, completions) == completions.len(),
        awaited_after(pending, completions) == Set::<usize>::empty(),
{
    assert forall|i: int| 0 <= i < completions.len() implies pending.contains(
        #[trigger] completions[i],
    ) by {
        assert(completions.contains(completions[i]));
    }
    lemma_deferred_replies_sent_once(pending, completions);
    assert(awaited_after(pending, completions) =~= Set::<usize>::empty());
}

/// Relies on bytecodec's `marker::Never`, a type with no values: the reply
/// type of an indication's action.
#[verifier::external_type_specification]
#[verifier::external_body]
pub struct ExNever(bytecodec::marker::Never);

/// The capability set of an application handler. Every method has a safe
/// default: no reply, and transport errors ignored.
#[allow(unused_variables)]
pub trait HandleMessage {
    /// A request message.
    type Request;
    /// An indication message.
    type Indication;
    /// A malformed inbound message.
    type Invalid;
    /// A response message.
    type Response;
    /// A deferred computation that yields a response.
    type FutureResponse;
    /// A deferred computation that yields nothing.
    type FutureUnit;

    /// Answers a request.
    fn handle_call(&mut self, peer: SocketAddress, request: Self::Request) -> Action<
        Self::Response,
        Self::FutureResponse,
        Self::FutureUnit,
    > {
        Action::NoReply
    }

    /// Takes an indication. Indications carry no response, so the action's
    /// reply types are uninhabited.
    fn handle_cast(&mut self, peer: SocketAddress, indication: Self::Indication) -> Action<
        Never,
        Never,
        Self::FutureUnit,
    > {
        Action::NoReply
    }

    /// Answers a malformed message, with an error response or not at all.
    fn handle_invalid_message(&mut self, peer: SocketAddress, message: Self::Invalid) -> Action<
        Self::Response,
        Self::FutureResponse,
        Self::FutureUnit,
    > {
        Action::NoReply
    }

    /// Learns of a transport error before it ends the driver.
    fn handle_transport_error(&mut self, error: &Error) {
    }
}

/// The dispatch type of a handler.
pub type HandlerDispatch<H> = Dispatch<
    <H as HandleMessage>::Response,
    <H as HandleMessage>::FutureResponse,
    <H as HandleMessage>::FutureUnit,
>;

/// The inbound message type of a handler.
pub type HandlerMessage<H> = RecvMessage<
    <H as HandleMessage>::Indication,
    <H as HandleMessage>::Request,
    <H as HandleMessage>::Invalid,
>;

/// What the server-side driver does after one poll of its channel.
pub enum HandlerStep<T, R, N> {
    /// Carry out the dispatch of a message, then poll again in this turn.
    Dispatch(Dispatch<T, R, N>),
    /// Nothing arrived.
    Idle,
    /// The inbound stream ended cleanly: the driver is done.
    Finished,
    /// The driver ends with this error.
    Failed(Error),
}

/// The server-side driver: one handler and the deferred replies it owes.
pub struct HandlerDriver<H: HandleMessage> {
    handler: H,
    replies: ReplyTable,
}

impl<H: HandleMessage> HandlerDriver<H> {
    /// The tokens of the deferred replies awaited.
    pub closed spec fn pending(&self) -> Set<usize> {
        self.replies.pending()
    }

    /// The handler that the driver dispatches to.
    pub closed spec fn handler_spec(&self) -> H {
        self.handler
    }

    /// A driver for `handler`, awaiting no deferred reply.
    pub fn new(handler: H) -> (r: HandlerDriver<H>)
        ensures
            r.handler_spec() == handler,
            r.pending() == Set::<usize>::empty(),
    {
        HandlerDriver { handler, replies: ReplyTable::new() }
    }

    /// Carries out a reply-bearing action for a message from `peer`.
    ///
    /// A deferred reply is registered under a fresh token, which the
    /// dispatch carries; other actions leave the awaited replies unchanged.
    pub fn dispatch_reply(&mut self, peer: SocketAddress, action: Action<H::Response, H::FutureResponse, H::FutureUnit>) -> (r: HandlerDispatch<H>)
        ensures
            action is FutureReply ==> exists|t: usize|
                !old(self).pending().contains(t) && final(self).pending() == old(self).pending().insert(t)
                    && r == reply_dispatch(peer, action, t),
            !(action is FutureReply) ==> final(self).pending() == old(self).pending() && r
                == reply_dispatch(peer, action, 0),
    {
        let ghost a = action;
        match action {
            Action::Reply(m) => Dispatch::Reply(peer, m),
            Action::FutureReply(f) => {
                let token = self.replies.open();
                let d = Dispatch::SpawnReply(peer, token, f);
                assert(d == reply_dispatch(peer, a, token));
                assert(!old(self).pending().contains(token));
                assert(self.pending() == old(self).pending().insert(token));
                d
            },
            Action::NoReply => Dispatch::Nothing,
            Action::FutureNoReply(f) => Dispatch::Spawn(f),
        }
    }

    /// Hands an indication to the handler. A reply-bearing answer is a
    /// contract violation of the handler: an error that ends the driver.
    pub fn handle_indication(&mut self, peer: SocketAddress, indication: H::Indication) -> (r: core::result::Result<HandlerDispatch<H>, Error>)
        ensures
            final(self).pending() == old(self).pending(),
            r matches Err(e) ==> e.kind == ErrorKind::ContractViolation,
            r matches Ok(d) ==> d is Spawn || d is Nothing,
    {
        let action = self.handler.handle_cast(peer, indication);
        match dispatch_indication(action) {
            Ok(Dispatch::Spawn(f)) => Ok(Dispatch::Spawn(f)),
            Ok(_) => Ok(Dispatch::Nothing),
            Err(e) => Err(e),
        }
    }

    /// Hands a request to the handler and carries out its answer.
    pub fn handle_request(&mut self, peer: SocketAddress, request: H::Request) -> (r: HandlerDispatch<H>)
        ensures
            exists|a: Action<H::Response, H::FutureResponse, H::FutureUnit>, t: usize|
                if a is FutureReply {
                    !old(self).pending().contains(t) && final(self).pending() == old(self).pending().insert(t)
                } else {
                    final(self).pending() == old(self).pending()
                } && r == reply_dispatch(peer, a, t),
    {
        let action = self.handler.handle_call(peer, request);
        self.dispatch_reply(peer, action)
    }

    /// Hands a malformed message to the handler and carries out its answer.
    pub fn handle_invalid_message(&mut self, peer: SocketAddress, message: H::Invalid) -> (r: HandlerDispatch<H>)
        ensures
            exists|a: Action<H::Response, H::FutureResponse, H::FutureUnit>, t: usize|
                if a is FutureReply {
                    !old(self).pending().contains(t) && final(self).pending() == old(self).pending().insert(t)
                } else {
                    final(self).pending() == old(self).pending()
                } && r == reply_dispatch(peer, a, t),
    {
        let action = self.handler.handle_invalid_message(peer, message);
        self.dispatch_reply(peer, action)
    }

    /// Hands an inbound message to the handler capability for its kind.
    pub fn handle_message(&mut self, peer: SocketAddress, message: HandlerMessage<H>) -> (r: core::result::Result<HandlerDispatch<H>, Error>)
        ensures
            r matches Err(e) ==> e.kind == ErrorKind::ContractViolation && message is Indication,
            message is Indication ==> final(self).pending() == old(self).pending(),
            r matches Ok(Dispatch::SpawnReply(p, t, _)) ==> p == peer && !old(self).pending().contains(t)
                && final(self).pending() == old(self).pending().insert(t),
            !(r matches Ok(Dispatch::SpawnReply(_, _, _))) ==> final(self).pending() == old(self).pending(),
            r matches Ok(Dispatch::Reply(p, _)) ==> p == peer,
    {
        match message {
            RecvMessage::Indication(m) => self.handle_indication(peer, m),
            RecvMessage::Request(m) => Ok(self.handle_request(peer, m)),
            RecvMessage::Invalid(m) => Ok(self.handle_invalid_message(peer, m)),
        }
    }

    /// Tells the handler of a transport error and hands the error back.
    pub fn on_transport_error(&mut self, error: Error) -> (r: Error)
        ensures
            r == error,
            final(self).pending() == old(self).pending(),
    {
        self.handler.handle_transport_error(&error);
        error
    }

    /// Decides what follows one poll of the channel's inbound stream.
    ///
    /// A message is dispatched; a clean end finishes the driver; a transport
    /// error is told to the handler and ends the driver with that error.
    pub fn on_channel_poll(&mut self, poll: ChannelPoll<(SocketAddress, HandlerMessage<H>)>) -> (r: HandlerStep<H::Response, H::FutureResponse, H::FutureUnit>)
        ensures
            poll matches ChannelPoll::Ready((p, _)) ==> (r matches HandlerStep::Dispatch(Dispatch::Reply(q, _)) ==> q == p),
            poll matches ChannelPoll::Ready((p, _)) ==> (r matches HandlerStep::Dispatch(Dispatch::SpawnReply(q, _, _)) ==> q == p),
            poll is Pending ==> r is Idle,
            poll is Closed ==> r is Finished,
            poll matches ChannelPoll::Failed(e) ==> r == HandlerStep::<H::Response, H::FutureResponse, H::FutureUnit>::Failed(e),
            poll matches ChannelPoll::Ready((_, m)) ==> (r is Dispatch || (r matches HandlerStep::Failed(e)
                && e.kind == ErrorKind::ContractViolation && m is Indication)),
            r matches HandlerStep::Dispatch(Dispatch::SpawnReply(_, t, _)) ==> !old(self).pending().contains(t)
                && final(self).pending() == old(self).pending().insert(t),
            !(r matches HandlerStep::Dispatch(Dispatch::SpawnReply(_, _, _))) ==> final(self).pending() == old(self).pending(),
    {
        match poll {
            ChannelPoll::Pending => HandlerStep::Idle,
            ChannelPoll::Closed => HandlerStep::Finished,
            ChannelPoll::Failed(e) => HandlerStep::Failed(self.on_transport_error(e)),
            ChannelPoll::Ready((peer, message)) => match self.handle_message(peer, message) {
                Ok(d) => HandlerStep::Dispatch(d),
                Err(e) => HandlerStep::Failed(e),
            },
        }
    }

    /// Settles the deferred reply under `token`: returns whether its reply
    /// is to be sent now, which is so exactly when it was awaited.
    pub fn complete_reply(&mut self, token: usize) -> (forward: bool)
        ensures
            forward == old(self).pending().contains(token),
            final(self).pending() == old(self).pending().remove(token),
    {
        self.replies.complete(token)
    }

    /// Whether no deferred reply is awaited.
    pub fn is_idle(&self) -> (r: bool)
        ensures
            r == (self.pending() == Set::<usize>::empty()),
    {
        self.replies.is_idle()
    }

    /// The handler that the driver dispatches to.
    pub fn handler(&self) -> (r: &H)
        ensures
            *r == self.handler_spec(),
    {
        &self.handler
    }

    /// Takes every deferred reply that has settled since the last look, in
    /// the order in which they settled, and returns the replies to send, in
    /// that order, each with its peer. A reply under an awaited token is sent
    /// once and its token is awaited no more; one under a token no longer
    /// awaited is dropped.
    pub fn on_replies<T>(&mut self, settled: Vec<(usize, SocketAddress, T)>) -> (r: Vec<(SocketAddress, T)>)
        ensures
            r@ == replies_sent(old(self).pending(), settled@),
            r@.len() == forwarded(old(self).pending(), settled_tokens(settled@)),
            final(self).pending() == awaited_after(old(self).pending(), settled_tokens(settled@)),
    {
        let ghost all = settled@;
        let ghost p0 = self.pending();
        let mut rest = settled;
        let mut sent: Vec<(SocketAddress, T)> = Vec::new();
        while rest.len() > 0
            invariant
                sent@.len() + forwarded(self.pending(), settled_tokens(rest@)) == forwarded(p0, settled_tokens(all)),
                awaited_after(self.pending(), settled_tokens(rest@)) == awaited_after(p0, settled_tokens(all)),
                rest@.len() <= all.len(),
                rest@ == all.subrange(all.len() - rest@.len(), all.len() as int),
                sent@ + replies_sent(self.pending(), rest@) == replies_sent(p0, all),
            decreases rest@.len(),
        {
            let ghost before = rest@;
            let ghost pend = self.pending();
            let (token, peer, response) = rest.remove(0);
            proof {
                assert(settled_tokens(rest@) =~= settled_tokens(before).drop_first());
                assert(settled_tokens(before)[0] == token);
                assert(before[0] == all[all.len() - before.len()]);
            }
            let ghost sent_before = sent@;
            proof {
                assert(rest@ =~= before.drop_first());
                assert(before[0] == (token, peer, response));
            }
            if self.replies.complete(token) {
                sent.push((peer, response));
                proof {
                    assert(replies_sent(pend, before) == seq![(peer, response)] + replies_sent(pend.remove(token), rest@));
                    assert(sent@ + replies_sent(self.pending(), rest@) =~= sent_before + replies_sent(pend, before));
                }
            } else {
                proof {
                    assert(replies_sent(pend, before) == Seq::<(SocketAddress, T)>::empty() + replies_sent(pend.remove(token), rest@));
                    assert(sent@ + replies_sent(self.pending(), rest@) =~= sent_before + replies_sent(pend, before));
                }
            }
        }
        proof {
            assert(settled_tokens(rest@) =~= Seq::<usize>::empty());
            assert(sent@ + replies_sent(self.pending(), rest@) =~= sent@);
        }
        sent
    }
}

/// The replies sent when the deferred replies `settled` come back, in that
/// order, while the tokens `pending` are awaited: each one whose token is
/// awaited at that moment, with its peer, in the order they came back.
pub open spec fn replies_sent<T>(pending: Set<usize>, settled: Seq<(usize, SocketAddress, T)>) -> Seq<
    (SocketAddress, T),
>
    decreases settled.len(),
{
    if settled.len() == 0 {
        Seq::empty()
    } else {
        let (t, p, m) = settled[0];
        (if pending.contains(t) {
            seq![(p, m)]
        } else {
            Seq::empty()
        }) + replies_sent(pending.remove(t), settled.drop_first())
    }
}

/// The tokens of settled deferred replies, in the order they settled.
pub open spec fn settled_tokens<T>(settled: Seq<(usize, SocketAddress, T)>) -> Seq<usize> {
    settled.map_values(|x: (usize, SocketAddress, T)| x.0)
}

/// Whether one round of a scheduling turn made progress: a message came in
/// or some deferred replies came back.
pub open spec fn round_progressed<T, R, N>(channel: HandlerStep<T, R, N>, settled: nat) -> bool {
    channel is Dispatch || settled > 0
}

/// Decides whether the driver goes on polling in the same turn, given what
/// the channel gave and how many settled replies came back: it does while
/// either source made progress, and yields once neither did.
pub fn continue_turn<T, R, N>(channel: &HandlerStep<T, R, N>, settled: usize) -> (r: bool)
    ensures
        r == round_progressed(*channel, settled as nat),
{
    let dispatched = match channel {
        HandlerStep::Dispatch(_) => true,
        _ => false,
    };
    dispatched || settled > 0
}

/// The error with which a server whose socket must live forever stops when
/// that socket ends cleanly.
pub open spec fn unexpected_termination() -> Error {
    Error { kind: ErrorKind::UnexpectedTermination }
}

/// The error with which a server stops after its driver or listener ended,
/// cleanly or with an error.
pub open spec fn server_exit_error(outcome: core::result::Result<(), Error>) -> Error {
    match outcome {
        Ok(()) => unexpected_termination(),
        Err(e) => e,
    }
}

/// Turns the end of a server's driver or listener into the error that stops
/// the server: a server is meant to run until it is dropped, so even a clean
/// end is an unexpected termination.
pub fn server_exit(outcome: core::result::Result<(), Error>) -> (r: Error)
    ensures
        r == server_exit_error(outcome),
{
    match outcome {
        Ok(()) => Error { kind: ErrorKind::UnexpectedTermination },
        Err(e) => e,
    }
}

/// A UDP server: one socket and one driver serve every peer.
pub enum UdpServer<H: HandleMessage> {
    /// The socket is being bound; the handler waits for it.
    Binding { bind_addr: SocketAddress, handler: H },
    /// The socket is bound and its driver runs.
    Running { driver: HandlerDriver<H> },
}

impl<H: HandleMessage> UdpServer<H> {
    /// Starts a server that binds `bind_addr` and then serves with `handler`.
    pub fn start(bind_addr: SocketAddress, handler: H) -> (r: UdpServer<H>)
        ensures
            r == (UdpServer::Binding { bind_addr, handler }),
    {
        UdpServer::Binding { bind_addr, handler }
    }

    /// Moves on once the bind has completed: a bound socket starts a driver
    /// for the handler, awaiting no deferred reply; a failed bind stops the
    /// server with its error. A running server stays as it is.
    pub fn on_bound(self, outcome: core::result::Result<(), Error>) -> (r: core::result::Result<UdpServer<H>, Error>)
        ensures
            self is Running ==> r == Ok::<UdpServer<H>, Error>(self),
            self matches UdpServer::Binding { handler, .. } ==> match outcome {
                Ok(()) => (r matches Ok(UdpServer::Running { driver }) && driver.handler_spec() == handler
                    && driver.pending() == Set::<usize>::empty()),
                Err(e) => r == Err::<UdpServer<H>, Error>(e),
            },
    {
        match self {
            UdpServer::Binding { bind_addr, handler } => match outcome {
                Ok(()) => Ok(UdpServer::Running { driver: HandlerDriver::new(handler) }),
                Err(e) => Err(e),
            },
            UdpServer::Running { driver } => Ok(UdpServer::Running { driver }),
        }
    }
}

/// Makes one fresh handler for each accepted connection.
pub trait HandlerFactory {
    /// The handlers made.
    type Handler: HandleMessage;

    /// Makes a handler.
    fn create(&mut self) -> Self::Handler;
}

/// What one poll of a listener's stream of connections gave.
pub enum AcceptPoll {
    /// No connection yet.
    Pending,
    /// A connection from this peer arrived; its handshake may still fail.
    Connection(SocketAddress),
    /// The listener's stream ended.
    Ended,
    /// The listener failed.
    Failed(Error),
}

/// A TCP server: each accepted connection gets its own handler and driver.
pub enum TcpServer<F: HandlerFactory> {
    /// The listener is being bound.
    Binding { bind_addr: SocketAddress, handler_factory: F },
    /// The listener accepts connections.
    Listening { handler_factory: F },
}

impl<F: HandlerFactory> TcpServer<F> {
    /// Starts a server that binds `bind_addr` and makes a handler with
    /// `handler_factory` for each connection.
    pub fn start(bind_addr: SocketAddress, handler_factory: F) -> (r: TcpServer<F>)
        ensures
            r == (TcpServer::Binding { bind_addr, handler_factory }),
    {
        TcpServer::Binding { bind_addr, handler_factory }
    }

    /// Moves on once the bind has completed: a bound listener starts
    /// listening; a failed bind stops the server with its error.
    pub fn on_bound(self, outcome: core::result::Result<(), Error>) -> (r: core::result::Result<TcpServer<F>, Error>)
        ensures
            self is Listening ==> r == Ok::<TcpServer<F>, Error>(self),
            self matches TcpServer::Binding { handler_factory, .. } ==> match outcome {
                Ok(()) => r == Ok::<TcpServer<F>, Error>(TcpServer::Listening { handler_factory }),
                Err(e) => r == Err::<TcpServer<F>, Error>(e),
            },
    {
        match self {
            TcpServer::Binding { bind_addr, handler_factory } => match outcome {
                Ok(()) => Ok(TcpServer::Listening { handler_factory }),
                Err(e) => Err(e),
            },
            TcpServer::Listening { handler_factory } => Ok(TcpServer::Listening { handler_factory }),
        }
    }

    /// Decides what follows one poll of the listener.
    ///
    /// Each connection gets one fresh handler from the factory, for a driver
    /// of its own; the listener goes on. The end of the listener's stream,
    /// or its failure, stops the server. A server still binding accepts
    /// nothing.
    pub fn on_accept(self, poll: AcceptPoll) -> (r: core::result::Result<(TcpServer<F>, Option<F::Handler>), Error>)
        ensures
            self is Binding ==> (r matches Ok((s, h)) && s == self && h is None),
            self is Listening ==> match poll {
                AcceptPoll::Pending => (r matches Ok((s, h)) && s == self && h is None),
                AcceptPoll::Connection(_) => (r matches Ok((s, h)) && s is Listening && h is Some),
                AcceptPoll::Ended => r == Err::<(TcpServer<F>, Option<F::Handler>), Error>(unexpected_termination()),
                AcceptPoll::Failed(e) => r == Err::<(TcpServer<F>, Option<F::Handler>), Error>(e),
            },
    {
        match self {
            TcpServer::Binding { bind_addr, handler_factory } => Ok((TcpServer::Binding { bind_addr, handler_factory }, None)),
            TcpServer::Listening { handler_factory } => match poll {
                AcceptPoll::Pending => Ok((TcpServer::Listening { handler_factory }, None)),
                AcceptPoll::Connection(_) => {
                    let mut handler_factory = handler_factory;
                    let handler = handler_factory.create();
                    Ok((TcpServer::Listening { handler_factory }, Some(handler)))
                },
                AcceptPoll::Ended => Err(server_exit(Ok(()))),
                AcceptPoll::Failed(e) => Err(server_exit(Err(e))),
            },
        }
    }
}

/// Abandons a connection whose handshake failed: its fresh handler learns
/// of the error, which is handed back. The listener is not affected.
pub fn report_connection_failure<H: HandleMessage>(handler: H, error: Error) -> (r: Error)
    ensures
        r == error,
{
    let mut handler = handler;
    handler.handle_transport_error(&error);
    error
}

/// Whatever order the deferred replies settle in, each awaited one is
/// forwarded exactly once, in the order they settled: when the settled
/// items carry distinct awaited tokens, the replies sent are exactly those
/// items' peers and replies, one for one and in that order.
pub proof fn lemma_deferred_replies_forwarded_in_order<T>(
    pending: Set<usize>,
    settled: Seq<(usize, SocketAddress, T)>,
)
    requires
        settled_tokens(settled).no_duplicates(),
        forall|i: int| 0 <= i < settled.len() ==> pending.contains(#[trigger] settled[i].0),
    ensures
        replies_sent(pending, settled) == settled.map_values(
            |x: (usize, SocketAddress, T)| (x.1, x.2),
        ),
    decreases settled.len(),
{
    if settled.len() == 0 {
        assert(settled.map_values(|x: (usize, SocketAddress, T)| (x.1, x.2)) =~= Seq::<
            (SocketAddress, T),
        >::empty());
    } else {
        let t = settled[0].0;
        let rest = settled.drop_first();
        assert forall|i: int| 0 <= i < rest.len() implies pending.remove(t).contains(
            #[trigger] rest[i].0,
        ) by {
            assert(rest[i] == settled[i + 1]);
            assert(settled_tokens(settled)[i + 1] != settled_tokens(settled)[0]);
        }
        assert(settled_tokens(rest) =~= settled_tokens(settled).drop_first());
        lemma_deferred_replies_forwarded_in_order(pending.remove(t), rest);
        assert(replies_sent(pending, settled) =~= settled.map_values(
            |x: (usize, SocketAddress, T)| (x.1, x.2),
        ));
    }
}

} // verus!
