//! How the server handlers of message, request and hybrid actors treat the
//! commands they receive, and what becomes of requests processed in the background.
use vstd::prelude::*;

use crate::common::{ActorError, Command, RequestExecution, Res, SimpleActorError};

verus! {

/// Result of processing one command: `Ok(Some(_))` hands back a computation that
/// runs in the background, `Ok(None)` means the command is done, an error stops the actor.
pub type ProcessResult<J, U> = Result<Option<J>, ActorError<U>>;

/// The result of processing a message, from the message handler's result.
pub fn message_processed<J, U>(result: Res<(), U>) -> (r: ProcessResult<J, U>)
    ensures
        match result {
            Ok(()) => r == Ok::<Option<J>, ActorError<U>>(None),
            Err(e) => r == Err::<Option<J>, ActorError<U>>(e),
        },
{
    match result {
        Ok(()) => Ok(None),
        Err(e) => Err(e),
    }
}

/// The result of processing a request: done when it was answered synchronously, or
/// the handle of the computation that goes on in the background.
pub fn request_handled<J, U>(background: Option<J>) -> (r: ProcessResult<J, U>)
    ensures
        r == Ok::<Option<J>, ActorError<U>>(background),
{
    Ok(background)
}

/// The result of a command that a server handler cannot process.
pub fn command_rejected<J, U>() -> (r: ProcessResult<J, U>)
    ensures
        r == Err::<Option<J>, ActorError<U>>(ActorError::Simple(SimpleActorError::UnexpectedCommand)),
{
    Err(ActorError::Simple(SimpleActorError::UnexpectedCommand))
}

/// What a message actor's server handler does with a command: a message goes to the
/// message handler, anything else is unexpected.
pub fn route_message<ME, MR, R, U>(command: Command<ME, MR, R, U>) -> (r: Result<ME, ActorError<U>>)
    ensures
        match command {
            Command::Message(m) => r == Ok::<ME, ActorError<U>>(m),
            _ => r == Err::<ME, ActorError<U>>(ActorError::Simple(SimpleActorError::UnexpectedCommand)),
        },
{
    match command {
        Command::Message(m) => Ok(m),
        _ => Err(ActorError::Simple(SimpleActorError::UnexpectedCommand)),
    }
}

/// What a request processor does with a command.
#[verifier::reject_recursive_types(R)]
#[verifier::reject_recursive_types(U)]
pub enum RequestRoute<MR, R, U> {
    /// Classify and execute the request, then reply on the channel
    Execute(MR, tokio::sync::oneshot::Sender<Res<R, U>>),
    /// Hand a reply that could not be delivered to the request handler's `reply_error`
    ReportUndelivered(Res<R, U>),
    /// The command is not a request
    Reject,
}

/// Routes a command to the request processing.
pub fn route_request<ME, MR, R, U>(command: Command<ME, MR, R, U>) -> (r: RequestRoute<MR, R, U>)
    ensures
        match command {
            Command::Request(m, s) => r == RequestRoute::Execute(m, s),
            Command::RequestReplyError(res, _) => r == RequestRoute::<MR, R, U>::ReportUndelivered(res),
            _ => r is Reject,
        },
{
    match command {
        Command::Request(m, s) => RequestRoute::Execute(m, s),
        Command::RequestReplyError(res, _) => RequestRoute::ReportUndelivered(res),
        _ => RequestRoute::Reject,
    }
}

/// Where a hybrid actor's server handler sends a command.
#[verifier::reject_recursive_types(R)]
#[verifier::reject_recursive_types(U)]
pub enum HybridRoute<ME, MR, R, U> {
    /// A message, for the message handler
    Message(ME),
    /// Anything else, for the request processing
    Request(RequestRoute<MR, R, U>),
}

/// Routes a command of a hybrid actor.
pub fn route_hybrid<ME, MR, R, U>(command: Command<ME, MR, R, U>) -> (r: HybridRoute<ME, MR, R, U>)
    ensures
        match command {
            Command::Message(m) => r == HybridRoute::<ME, MR, R, U>::Message(m),
            Command::Request(m, s) => r == HybridRoute::<ME, MR, R, U>::Request(RequestRoute::Execute(m, s)),
            Command::RequestReplyError(res, _) => r == HybridRoute::<ME, MR, R, U>::Request(
                RequestRoute::ReportUndelivered(res),
            ),
            Command::Stop => r == HybridRoute::<ME, MR, R, U>::Request(RequestRoute::Reject),
        },
{
    match command {
        Command::Message(m) => HybridRoute::Message(m),
        other => HybridRoute::Request(route_request(other)),
    }
}

/// How a background computation of a request runs.
#[derive(Debug, Clone, Copy, PartialEq, Eq, Structural)]
pub enum ComputationKind {
    /// An asynchronous computation, in a task of its own
    Async,
    /// A blocking computation, on a thread of its own
    Blocking,
}

/// What the request processing does with a request, once the request handler classified it.
#[verifier::reject_recursive_types(R)]
#[verifier::reject_recursive_types(U)]
pub enum RequestStep<MR, R, U> {
    /// Process the request at once with the handler's `process_request`, then deliver the
    /// reply on the channel; the actor takes its next command only after that
    ProcessAndReply(MR, tokio::sync::oneshot::Sender<Res<R, U>>),
    /// Start the computation of the request in the background, with the handler's
    /// transformation of that kind, and go on at once; `transformation_result` decides what
    /// follows the computation
    Compute(ComputationKind, MR, tokio::sync::oneshot::Sender<Res<R, U>>),
}

/// Maps the classification of a request to what is done with it: a synchronous request is
/// processed and answered at once, an asynchronous or blocking one is computed in the background.
/// The request and its reply channel are handed on unchanged.
pub fn plan_request<MR, R, U>(
    execution: RequestExecution<MR>,
    reply_to: tokio::sync::oneshot::Sender<Res<R, U>>,
) -> (step: RequestStep<MR, R, U>)
    ensures
        match execution {
            RequestExecution::Sync(m) => step == RequestStep::ProcessAndReply(m, reply_to),
            RequestExecution::Async(m) => step == RequestStep::Compute(ComputationKind::Async, m, reply_to),
            RequestExecution::Blocking(m) => step == RequestStep::Compute(ComputationKind::Blocking, m, reply_to),
        },
{
    match execution {
        RequestExecution::Sync(m) => RequestStep::ProcessAndReply(m, reply_to),
        RequestExecution::Async(m) => RequestStep::Compute(ComputationKind::Async, m, reply_to),
        RequestExecution::Blocking(m) => RequestStep::Compute(ComputationKind::Blocking, m, reply_to),
    }
}

/// What follows sending the reply of a synchronously processed request on its channel,
/// from the send's outcome: nothing when it was delivered; when the requester is gone, the
/// reply that came back, for the request handler's `reply_error`.
pub fn reply_outcome<R, U>(sent: Result<(), Res<R, U>>) -> (r: Option<Res<R, U>>)
    ensures
        match sent {
            Ok(()) => r is None,
            Err(back) => r == Some(back),
        },
{
    match sent {
        Ok(()) => None,
        Err(back) => Some(back),
    }
}

/// What follows a finished background computation of a request.
#[verifier::reject_recursive_types(R)]
#[verifier::reject_recursive_types(U)]
pub enum BackgroundStep<ME, MR, R, U> {
    /// Send this command to the actor itself: the computed request with its reply channel,
    /// processed like any other request
    Resend(Command<ME, MR, R, U>),
    /// Answer the requester at once: send this reply on its reply channel
    Answer(tokio::sync::oneshot::Sender<Res<R, U>>, Res<R, U>),
}

/// The step that follows a background computation of a request: a computed request goes
/// back to the actor, with the reply channel, to be processed like any other; a failed
/// computation is answered to the requester with its error, on the request's reply channel.
pub open spec fn background_step<ME, MR, R, U>(
    res: Res<MR, U>,
    reply_to: tokio::sync::oneshot::Sender<Res<R, U>>,
) -> BackgroundStep<ME, MR, R, U> {
    match res {
        Ok(req) => BackgroundStep::Resend(Command::Request(req, reply_to)),
        Err(err) => BackgroundStep::Answer(reply_to, Err(err)),
    }
}

/// Decides what follows a background computation of a request, from its result.
pub fn transformation_result<ME, MR, R, U>(
    res: Res<MR, U>,
    reply_to: tokio::sync::oneshot::Sender<Res<R, U>>,
) -> (s: BackgroundStep<ME, MR, R, U>)
    ensures
        s == background_step::<ME, MR, R, U>(res, reply_to),
{
    match res {
        Ok(req) => BackgroundStep::Resend(Command::Request(req, reply_to)),
        Err(err) => BackgroundStep::Answer(reply_to, Err(err)),
    }
}

/// What the actor is told after an answer was sent to a requester: nothing when it was
/// delivered; when the requester is gone, the undelivered answer with a send error, so that
/// the request handler's `reply_error` receives it.
pub open spec fn answered<ME, MR, R, U>(sent: Result<(), Res<R, U>>) -> Option<Command<ME, MR, R, U>> {
    match sent {
        Ok(()) => None,
        Err(back) => Some(Command::RequestReplyError(back, ActorError::Simple(SimpleActorError::Send))),
    }
}

/// Decides what the actor is told after an answer was sent to a requester, from the send's outcome.
pub fn answer_outcome<ME, MR, R, U>(sent: Result<(), Res<R, U>>) -> (r: Option<Command<ME, MR, R, U>>)
    ensures
        r == answered::<ME, MR, R, U>(sent),
{
    match sent {
        Ok(()) => None,
        Err(back) => Some(Command::RequestReplyError(back, ActorError::Simple(SimpleActorError::Send))),
    }
}

/// A failed background computation is answered to its requester, with its own error and on
/// the request's own reply channel; if the requester is gone, the actor is told so with that
/// same error and a send error. A computed request goes back to the actor with its reply channel.
pub proof fn law_background_results_reach_requester<ME, MR, R, U>(
    res: Res<MR, U>,
    reply_to: tokio::sync::oneshot::Sender<Res<R, U>>,
)
    ensures
        res matches Err(err) ==> background_step::<ME, MR, R, U>(res, reply_to) == BackgroundStep::<
            ME,
            MR,
            R,
            U,
        >::Answer(reply_to, Err(err)),
        res matches Err(err) ==> answered::<ME, MR, R, U>(Err(Err(err))) == Some(
            Command::<ME, MR, R, U>::RequestReplyError(Err(err), ActorError::Simple(SimpleActorError::Send)),
        ),
        answered::<ME, MR, R, U>(Ok(())) is None,
        res matches Ok(req) ==> background_step::<ME, MR, R, U>(res, reply_to) == BackgroundStep::<
            ME,
            MR,
            R,
            U,
        >::Resend(Command::Request(req, reply_to)),
{
}

/// Why the result of a background computation cannot be forwarded to the actor.
#[derive(Debug, Clone, Copy, PartialEq, Eq, Structural)]
pub enum ForwardFailure {
    /// The computation did not finish: it panicked or was cancelled
    ComputationFailed,
    /// The computation produced a command that is neither a request nor an undelivered reply
    UnexpectedCommand,
}

/// What becomes of the result of a background computation.
#[verifier::reject_recursive_types(R)]
#[verifier::reject_recursive_types(U)]
pub enum Forward<ME, MR, R, U> {
    /// Send this command to the actor itself
    Resend(Command<ME, MR, R, U>),
    /// Nothing is left to do: the requester has been answered
    Nothing,
    /// The actor cannot go on with this computation
    Fail(ForwardFailure),
}

/// Decides what to do with a finished background computation: `joined` is its
/// outcome, an error when the computation did not finish.
pub fn forward_background<ME, MR, R, U, JE>(joined: Result<Option<Command<ME, MR, R, U>>, JE>) -> (r:
    Forward<ME, MR, R, U>)
    ensures
        match joined {
            Ok(Some(Command::Request(m, s))) => r == Forward::Resend(Command::<ME, MR, R, U>::Request(m, s)),
            Ok(Some(Command::RequestReplyError(a, b))) => r == Forward::Resend(
                Command::<ME, MR, R, U>::RequestReplyError(a, b),
            ),
            Ok(Some(_)) => r == Forward::<ME, MR, R, U>::Fail(ForwardFailure::UnexpectedCommand),
            Ok(None) => r is Nothing,
            Err(_) => r == Forward::<ME, MR, R, U>::Fail(ForwardFailure::ComputationFailed),
        },
{
    match joined {
        Ok(Some(command)) => match command {
            Command::Request(m, s) => Forward::Resend(Command::Request(m, s)),
            Command::RequestReplyError(a, b) => Forward::Resend(Command::RequestReplyError(a, b)),
            _ => Forward::Fail(ForwardFailure::UnexpectedCommand),
        },
        Ok(None) => Forward::Nothing,
        Err(_) => Forward::Fail(ForwardFailure::ComputationFailed),
    }
}

/// Server handler of message actors: owns the actor's message handler.
pub struct ActorMessageServerHandler<H> {
    handler: H,
}

impl<H> ActorMessageServerHandler<H> {
    /// The message handler that this server handler owns.
    pub closed spec fn handler(&self) -> H {
        self.handler
    }

    /// Wraps a message handler.
    pub fn new(handler: H) -> (r: Self)
        ensures
            r.handler() == handler,
    {
        ActorMessageServerHandler { handler }
    }

    /// Access to the message handler, to process a message with it.
    pub fn handler_mut(&mut self) -> (r: &mut H)
        ensures
            *r == old(self).handler(),
            final(self).handler() == *final(r),
    {
        &mut self.handler
    }
}

/// Server handler of request actors: owns the actor's request handler.
pub struct ActorRequestServerHandler<H> {
    handler: H,
}

impl<H> ActorRequestServerHandler<H> {
    /// The request handler that this server handler owns.
    pub closed spec fn handler(&self) -> H {
        self.handler
    }

    /// Wraps a request handler.
    pub fn new(handler: H) -> (r: Self)
        ensures
            r.handler() == handler,
    {
        ActorRequestServerHandler { handler }
    }

    /// Access to the request handler, to process a request with it.
    pub fn handler_mut(&mut self) -> (r: &mut H)
        ensures
            *r == old(self).handler(),
            final(self).handler() == *final(r),
    {
        &mut self.handler
    }
}

/// Server handler of hybrid actors: owns a handler of both messages and requests.
pub struct ActorHybridServerHandler<H> {
    handler: H,
}

impl<H> ActorHybridServerHandler<H> {
    /// The hybrid handler that this server handler owns.
    pub closed spec fn handler(&self) -> H {
        self.handler
    }

    /// Wraps a hybrid handler.
    pub fn new(handler: H) -> (r: Self)
        ensures
            r.handler() == handler,
    {
        ActorHybridServerHandler { handler }
    }

    /// Access to the hybrid handler, to process a message or a request with it.
    pub fn handler_mut(&mut self) -> (r: &mut H)
        ensures
            *r == old(self).handler(),
            final(self).handler() == *final(r),
    {
        &mut self.handler
    }
}

}
