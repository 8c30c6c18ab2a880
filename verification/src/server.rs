//! The actor server: the task that owns a handler, receives commands from its
//! channel and processes them one at a time. This module holds its decisions;
//! the task that awaits the channel and the handler runs them.
use vstd::prelude::*;

use crate::common::{ActorError, Command, SimpleActorError};
use crate::machine::{lemma_run_append, lemma_run_fixed_point, lemma_run_single, run_events};

verus! {

/// What happened to the server, as its decisions see it.
pub enum ServerEvent<U> {
    /// The state handler's `init` answered
    Initialized(Result<(), ActorError<U>>),
    /// The command channel was closed: no sender is left
    ChannelClosed,
    /// A `Stop` command arrived
    StopReceived,
    /// Another command arrived and was handed to the server handler
    CommandReceived,
    /// The server handler finished processing a command
    Processed(Result<(), ActorError<U>>),
}

/// Phase of an actor server.
pub enum ServerPhase<U> {
    /// The state handler has not been initialized yet
    Starting,
    /// Waiting for a command
    Receiving,
    /// A command is being processed
    Processing,
    /// The server has exited with this value: `terminate` receives it and `stop` returns it
    Exited(Result<(), ActorError<U>>),
}

impl<U> ServerPhase<U> {
    /// The phase after `event`. An event that does not fit the phase leaves it unchanged.
    pub open spec fn step(self, event: ServerEvent<U>) -> ServerPhase<U> {
        match self {
            ServerPhase::Starting => match event {
                ServerEvent::Initialized(Ok(())) => ServerPhase::Receiving,
                ServerEvent::Initialized(Err(e)) => ServerPhase::Exited(Err(e)),
                _ => self,
            },
            ServerPhase::Receiving => match event {
                ServerEvent::ChannelClosed => ServerPhase::Exited(
                    Err(ActorError::Simple(SimpleActorError::Receive)),
                ),
                ServerEvent::StopReceived => ServerPhase::Exited(Ok(())),
                ServerEvent::CommandReceived => ServerPhase::Processing,
                _ => self,
            },
            ServerPhase::Processing => match event {
                ServerEvent::Processed(Ok(())) => ServerPhase::Receiving,
                ServerEvent::Processed(Err(e)) => ServerPhase::Exited(Err(e)),
                _ => self,
            },
            ServerPhase::Exited(_) => self,
        }
    }

    /// The step of an actor server, as a function.
    pub open spec fn step_fn() -> spec_fn(ServerPhase<U>, ServerEvent<U>) -> ServerPhase<U> {
        |p: ServerPhase<U>, e: ServerEvent<U>| p.step(e)
    }

    /// The phase after a whole sequence of events.
    pub open spec fn run(self, events: Seq<ServerEvent<U>>) -> ServerPhase<U> {
        run_events(self, Self::step_fn(), events)
    }
}

/// The event that receiving `cmd` from the channel is.
pub open spec fn received_event<ME, MR, R, U>(cmd: Option<Command<ME, MR, R, U>>) -> ServerEvent<U> {
    match cmd {
        None => ServerEvent::ChannelClosed,
        Some(Command::Stop) => ServerEvent::StopReceived,
        Some(_) => ServerEvent::CommandReceived,
    }
}

/// The event that a server handler's result is. A result that hands back a
/// background computation is a success: the actor goes on receiving meanwhile.
pub open spec fn processed_event<J, U>(result: Result<Option<J>, ActorError<U>>) -> ServerEvent<U> {
    match result {
        Ok(_) => ServerEvent::Processed(Ok(())),
        Err(e) => ServerEvent::Processed(Err(e)),
    }
}

/// What the server task does next.
pub enum ServerAction<C, J> {
    /// Wait for the next command
    Receive,
    /// Hand this command to the server handler
    Dispatch(C),
    /// Watch this background computation, and meanwhile wait for the next command
    Watch(J),
    /// Call the state handler's `terminate` with the exit value, then finish with it
    Terminate,
}

/// Decision state of an actor server.
pub struct ActorServerState<U> {
    name: String,
    phase: ServerPhase<U>,
}

impl<U> ActorServerState<U> {
    /// The server's phase.
    pub closed spec fn phase(&self) -> ServerPhase<U> {
        self.phase
    }

    /// The actor's name.
    pub closed spec fn name_view(&self) -> Seq<char> {
        self.name@
    }

    /// A server that has not initialized its state handler yet.
    pub fn new(name: String) -> (s: Self)
        ensures
            s.phase() == ServerPhase::<U>::Starting,
            s.name_view() == name@,
    {
        ActorServerState { name, phase: ServerPhase::Starting }
    }

    /// Returns the name of the actor.
    pub fn name(&self) -> (r: String)
        ensures
            r@ == self.name_view(),
    {
        self.name.clone()
    }

    /// Whether the server has exited.
    pub fn is_exited(&self) -> (r: bool)
        ensures
            r == self.phase() is Exited,
    {
        matches!(self.phase, ServerPhase::Exited(_))
    }

    /// The state handler's `init` answered: on success commands are received,
    /// on failure the server exits with the initialization error.
    pub fn on_init<C, J>(&mut self, init: Result<(), ActorError<U>>) -> (a: ServerAction<C, J>)
        requires
            old(self).phase() is Starting,
        ensures
            final(self).phase() == old(self).phase().step(ServerEvent::Initialized(init)),
            final(self).name_view() == old(self).name_view(),
            init is Ok ==> a is Receive,
            init is Err ==> a is Terminate,
    {
        match init {
            Ok(()) => {
                self.phase = ServerPhase::Receiving;
                ServerAction::Receive
            },
            Err(e) => {
                self.phase = ServerPhase::Exited(Err(e));
                ServerAction::Terminate
            },
        }
    }

    /// A command, or the end of the channel, was received. A closed channel stops
    /// the server with a receive error, `Stop` stops it successfully, any other
    /// command is handed to the server handler.
    pub fn on_received<ME, MR, R, J>(&mut self, cmd: Option<Command<ME, MR, R, U>>) -> (a:
        ServerAction<Command<ME, MR, R, U>, J>)
        requires
            old(self).phase() is Receiving,
        ensures
            final(self).phase() == old(self).phase().step(received_event(cmd)),
            final(self).name_view() == old(self).name_view(),
            match cmd {
                None => a is Terminate,
                Some(Command::Stop) => a is Terminate,
                Some(c) => a == ServerAction::<Command<ME, MR, R, U>, J>::Dispatch(c),
            },
    {
        match cmd {
            None => {
                self.phase = ServerPhase::Exited(Err(ActorError::Simple(SimpleActorError::Receive)));
                ServerAction::Terminate
            },
            Some(Command::Stop) => {
                self.phase = ServerPhase::Exited(Ok(()));
                ServerAction::Terminate
            },
            Some(c) => {
                self.phase = ServerPhase::Processing;
                ServerAction::Dispatch(c)
            },
        }
    }

    /// The server handler has processed the command. A success goes back to receiving,
    /// watching the background computation if one was started; an error stops the server
    /// with that error.
    pub fn on_processed<C, J>(&mut self, result: Result<Option<J>, ActorError<U>>) -> (a:
        ServerAction<C, J>)
        requires
            old(self).phase() is Processing,
        ensures
            final(self).phase() == old(self).phase().step(processed_event(result)),
            final(self).name_view() == old(self).name_view(),
            match result {
                Ok(None) => a is Receive,
                Ok(Some(j)) => a == ServerAction::<C, J>::Watch(j),
                Err(_) => a is Terminate,
            },
    {
        match result {
            Ok(None) => {
                self.phase = ServerPhase::Receiving;
                ServerAction::Receive
            },
            Ok(Some(j)) => {
                self.phase = ServerPhase::Receiving;
                ServerAction::Watch(j)
            },
            Err(e) => {
                self.phase = ServerPhase::Exited(Err(e));
                ServerAction::Terminate
            },
        }
    }

    /// Consumes the server and returns its exit value, which `stop` returns.
    pub fn into_exit_value(self) -> (r: Result<(), ActorError<U>>)
        requires
            self.phase() is Exited,
        ensures
            self.phase() == ServerPhase::Exited(r),
    {
        match self.phase {
            ServerPhase::Exited(r) => r,
            _ => vstd::pervasive::unreached(),
        }
    }

    /// The exit value, which the state handler's `terminate` receives.
    pub fn exit_value(&self) -> (r: &Result<(), ActorError<U>>)
        requires
            self.phase() is Exited,
        ensures
            self.phase() == ServerPhase::Exited(*r),
    {
        match &self.phase {
            ServerPhase::Exited(r) => r,
            _ => vstd::pervasive::unreached(),
        }
    }
}

/// Whether `events` is a series of commands, each received and then processed successfully.
pub open spec fn served_successfully<U>(events: Seq<ServerEvent<U>>) -> bool
    decreases events.len(),
{
    if events.len() == 0 {
        true
    } else {
        &&& events.len() >= 2
        &&& events[0] is CommandReceived
        &&& events[1] == ServerEvent::<U>::Processed(Ok(()))
        &&& served_successfully(events.subrange(2, events.len() as int))
    }
}

/// Once an actor server has exited, nothing changes its exit value: no later
/// event is processed and `stop` returns what `terminate` received.
pub proof fn law_exit_is_final<U>(r: Result<(), ActorError<U>>, events: Seq<ServerEvent<U>>)
    ensures
        ServerPhase::Exited(r).run(events) == ServerPhase::Exited(r),
{
    assert forall|e: ServerEvent<U>| #[trigger] ServerPhase::<U>::step_fn()(ServerPhase::Exited(r), e)
        == ServerPhase::Exited(r) by {}
    lemma_run_fixed_point(ServerPhase::Exited(r), ServerPhase::<U>::step_fn(), events);
}

/// When the state handler's initialization fails, the actor stops immediately:
/// whatever follows, its exit value is the initialization error.
pub proof fn law_failed_init_is_exit_value<U>(e: ActorError<U>, events: Seq<ServerEvent<U>>)
    ensures
        ServerPhase::Starting.run(seq![ServerEvent::Initialized(Err(e))] + events)
            == ServerPhase::<U>::Exited(Err(e)),
{
    lemma_run_append(ServerPhase::Starting, ServerPhase::<U>::step_fn(), seq![ServerEvent::Initialized(Err(e))], events);
    lemma_run_single(ServerPhase::Starting, ServerPhase::<U>::step_fn(), ServerEvent::Initialized(Err(e)));
    law_exit_is_final(Err(e), events);
}

/// When processing a command fails, the actor stops immediately: whatever follows,
/// its exit value is the processing error.
pub proof fn law_failed_processing_is_exit_value<U>(e: ActorError<U>, events: Seq<ServerEvent<U>>)
    ensures
        ServerPhase::Processing.run(seq![ServerEvent::Processed(Err(e))] + events)
            == ServerPhase::<U>::Exited(Err(e)),
{
    lemma_run_append(ServerPhase::Processing, ServerPhase::<U>::step_fn(), seq![ServerEvent::Processed(Err(e))], events);
    lemma_run_single(ServerPhase::Processing, ServerPhase::<U>::step_fn(), ServerEvent::Processed(Err(e)));
    law_exit_is_final(Err(e), events);
}

/// Commands that are processed successfully keep the actor receiving.
pub proof fn law_successful_commands_keep_receiving<U>(events: Seq<ServerEvent<U>>)
    requires
        served_successfully(events),
    ensures
        ServerPhase::Receiving.run(events) == ServerPhase::<U>::Receiving,
    decreases events.len(),
{
    if events.len() > 0 {
        let rest = events.subrange(2, events.len() as int);
        let first = events.subrange(0, 2);
        assert(events =~= first + rest);
        assert(first =~= seq![events[0]] + seq![events[1]]);
        lemma_run_append(ServerPhase::Receiving, ServerPhase::<U>::step_fn(), first, rest);
        lemma_run_append(ServerPhase::Receiving, ServerPhase::<U>::step_fn(), seq![events[0]], seq![events[1]]);
        lemma_run_single(ServerPhase::Receiving, ServerPhase::<U>::step_fn(), events[0]);
        lemma_run_single(ServerPhase::Processing, ServerPhase::<U>::step_fn(), events[1]);
        law_successful_commands_keep_receiving(rest);
    } else {
        assert(run_events(ServerPhase::Receiving, ServerPhase::<U>::step_fn(), events) == ServerPhase::<U>::Receiving);
    }
}

/// An actor that initialized successfully and processed every command successfully
/// stops with success on `Stop`, and with a receive error when its channel closes.
pub proof fn law_stop_and_close_after_success<U>(events: Seq<ServerEvent<U>>)
    requires
        served_successfully(events),
    ensures
        ServerPhase::Starting.run(
            seq![ServerEvent::Initialized(Ok(()))] + events + seq![ServerEvent::StopReceived],
        ) == ServerPhase::<U>::Exited(Ok(())),
        ServerPhase::Starting.run(
            seq![ServerEvent::Initialized(Ok(()))] + events + seq![ServerEvent::ChannelClosed],
        ) == ServerPhase::<U>::Exited(Err(ActorError::Simple(SimpleActorError::Receive))),
{
    let init = seq![ServerEvent::<U>::Initialized(Ok(()))];
    let stop = seq![ServerEvent::<U>::StopReceived];
    let close = seq![ServerEvent::<U>::ChannelClosed];
    lemma_run_single(ServerPhase::Starting, ServerPhase::<U>::step_fn(), init[0]);
    lemma_run_single(ServerPhase::Receiving, ServerPhase::<U>::step_fn(), stop[0]);
    lemma_run_single(ServerPhase::Receiving, ServerPhase::<U>::step_fn(), close[0]);
    assert(init =~= seq![init[0]]);
    assert(stop =~= seq![stop[0]]);
    assert(close =~= seq![close[0]]);
    lemma_run_append(ServerPhase::Starting, ServerPhase::<U>::step_fn(), init + events, stop);
    lemma_run_append(ServerPhase::Starting, ServerPhase::<U>::step_fn(), init + events, close);
    lemma_run_append(ServerPhase::Starting, ServerPhase::<U>::step_fn(), init, events);
    law_successful_commands_keep_receiving(events);
}

/// An actor processes one command at a time: while a command is being processed, no other
/// command, stop request or channel closing is taken into account; only the end of the
/// processing moves the server on.
pub proof fn law_commands_are_serialized<U>(event: ServerEvent<U>)
    requires
        !(event is Processed),
    ensures
        ServerPhase::<U>::Processing.step(event) == ServerPhase::<U>::Processing,
{
}

/// Nothing is received or processed before the state handler's initialization has
/// answered: until then every other event leaves the server starting.
pub proof fn law_init_comes_first<U>(event: ServerEvent<U>)
    requires
        !(event is Initialized),
    ensures
        ServerPhase::<U>::Starting.step(event) == ServerPhase::<U>::Starting,
{
}

/// The initialization is answered once: no event leads a server back to its starting
/// phase, so the state handler's `init` has no second turn; and once exited, the server
/// stays exited with the one exit value that `terminate` receives.
pub proof fn law_init_answered_once<U>(p: ServerPhase<U>, event: ServerEvent<U>)
    requires
        !(p is Starting),
    ensures
        !(p.step(event) is Starting),
        p is Exited ==> p.step(event) == p,
{
}

/// Every command other than `Stop` that a receiving server gets, a request, a message or an
/// undelivered reply alike, is handed to the server handler, and the server waits for its
/// processing; only `Stop` and the end of the channel end a receiving server.
pub proof fn law_received_commands_are_processed<ME, MR, R, U, J>(
    s: &mut ActorServerState<U>,
    c: Command<ME, MR, R, U>,
    a: ServerAction<Command<ME, MR, R, U>, J>,
)
    requires
        call_ensures(ActorServerState::<U>::on_received::<ME, MR, R, J>, (s, Some(c)), a),
        mut_ref_current(s).phase() is Receiving,
        !(c is Stop),
    ensures
        a == ServerAction::<Command<ME, MR, R, U>, J>::Dispatch(c),
        mut_ref_future(s).phase() == ServerPhase::<U>::Processing,
{
}

/// The same, over the server's phases: a command other than `Stop` moves a receiving server
/// to processing.
pub proof fn law_commands_other_than_stop_are_processed<ME, MR, R, U>(c: Command<ME, MR, R, U>)
    requires
        !(c is Stop),
    ensures
        ServerPhase::<U>::Receiving.step(received_event(Some(c))) == ServerPhase::<U>::Processing,
{
}

}
