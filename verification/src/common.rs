//! Common types: the library's own errors, the error type that actors report,
//! and the error-identification helper.
use vstd::prelude::*;

verus! {

/// Errors raised by the library itself.
#[derive(Debug, Clone, Copy, PartialEq, Eq, Structural)]
pub enum SimpleActorError {
    /// Receive error on the channel
    Receive,
    /// Send error on the channel
    Send,
    /// Unexpected command in the execution context
    UnexpectedCommand,
}

/// The text that describes each library error.
pub open spec fn simple_error_text(e: SimpleActorError) -> Seq<char> {
    match e {
        SimpleActorError::Receive => "Receive error"@,
        SimpleActorError::Send => "Send error"@,
        SimpleActorError::UnexpectedCommand => "Unexpected command"@,
    }
}

impl SimpleActorError {
    /// Human readable description of the error.
    pub fn message(&self) -> (s: String)
        ensures
            s@ == simple_error_text(*self),
    {
        match self {
            SimpleActorError::Receive => "Receive error".to_owned(),
            SimpleActorError::Send => "Send error".to_owned(),
            SimpleActorError::UnexpectedCommand => "Unexpected command".to_owned(),
        }
    }
}

/// Error reported by an actor: either one of the library's own errors,
/// or an error raised by user code, of the user's error type `U`.
#[derive(Debug)]
pub enum ActorError<U> {
    /// Error raised by the library
    Simple(SimpleActorError),
    /// Error raised by a handler or by other user code
    Other(U),
}

impl<U> From<SimpleActorError> for ActorError<U> {
    fn from(e: SimpleActorError) -> (r: Self) {
        ActorError::Simple(e)
    }
}

impl<U> vstd::std_specs::convert::FromSpecImpl<SimpleActorError> for ActorError<U> {
    open spec fn obeys_from_spec() -> bool {
        true
    }

    open spec fn from_spec(e: SimpleActorError) -> Self {
        ActorError::Simple(e)
    }
}

/// Simplified result type.
pub type Res<T, U> = Result<T, ActorError<U>>;

/// The sending half of the channel on which a request's reply travels back.
#[verifier::external_type_specification]
#[verifier::external_body]
#[verifier::reject_recursive_types(T)]
pub struct ExReplySender<T>(tokio::sync::oneshot::Sender<T>);

/// Actor commands.
#[derive(Debug)]
#[verifier::reject_recursive_types(R)]
#[verifier::reject_recursive_types(U)]
pub enum Command<ME, MR, R, U> {
    /// Asynchronous message, no response is waited for
    Message(ME),
    /// Synchronous request, whose reply is sent back on the channel
    Request(MR, tokio::sync::oneshot::Sender<Res<R, U>>),
    /// Stop the actor
    Stop,
    /// The reply of a request processed in the background could not be sent
    RequestReplyError(Res<R, U>, ActorError<U>),
}

impl<'a, U> TryFrom<&'a ActorError<U>> for SimpleActorError {
    type Error = &'static str;

    fn try_from(value: &'a ActorError<U>) -> (r: Result<Self, Self::Error>) {
        match value {
            ActorError::Simple(e) => Ok(*e),
            ActorError::Other(_) => Err("Not a SimpleActorError type"),
        }
    }
}

impl<'a, U> vstd::std_specs::convert::TryFromSpecImpl<&'a ActorError<U>> for SimpleActorError {
    open spec fn obeys_try_from_spec() -> bool {
        true
    }

    open spec fn try_from_spec(value: &'a ActorError<U>) -> Result<Self, &'static str> {
        match value {
            ActorError::Simple(e) => Ok(*e),
            ActorError::Other(_) => Err("Not a SimpleActorError type"),
        }
    }
}

/// `std::any::Any::downcast_ref`: views `value` as a `T` when its type is `T`.
/// Nothing is promised of the result: whether two types are the same is not
/// something the contract can state.
#[verifier::external_body]
fn downcast_ref<T: 'static, V: 'static>(value: &V) -> (r: Option<&T>) {
    (value as &dyn std::any::Any).downcast_ref::<T>()
}

/// Classified request. Indicates how the received request is processed.
#[derive(Debug)]
pub enum RequestExecution<R> {
    /// Processed synchronously: the actor does not step to the next command until
    /// the processing has finished.
    Sync(R),
    /// Processed asynchronously: meanwhile the actor deals with the next commands.
    Async(R),
    /// Like `Async`, but the processing is blocking and runs on its own thread.
    Blocking(R),
}

impl<R> RequestExecution<R> {
    /// The classification that a request handler gives when it does not classify
    /// its requests itself: every request is processed synchronously.
    pub fn default_classification(request: R) -> (r: Self)
        ensures
            r == RequestExecution::Sync(request),
    {
        RequestExecution::Sync(request)
    }
}

/// A user error type whose values can tell their own type at run time, as a boxed
/// `dyn Error` does: `identify` views the error as a `T` when it is one.
pub trait ErrorIdentity {
    /// The error seen as a `T`, when it is one.
    fn identify<T: 'static>(&self) -> Option<&T>;
}

/// Helps to identify the type of an actor error and to process it.
pub enum ActorErrorHandler<'a, U> {
    /// The error has not been identified yet
    Unprocessed(&'a ActorError<U>),
    /// The error has been identified and processed
    Processed,
}

impl<'a, U: 'static> ActorErrorHandler<'a, U> {
    /// Creates a new handler for an error.
    pub fn new(error: &'a ActorError<U>) -> (r: Self)
        ensures
            r == ActorErrorHandler::Unprocessed(error),
    {
        ActorErrorHandler::Unprocessed(error)
    }

    /// Whether the error has been identified and processed.
    pub open spec fn is_processed(&self) -> bool {
        self is Processed
    }

    /// If the error can be identified as a `T`, `func` processes it.
    /// Whether it can is decided at run time: a library error by its type, a user error by
    /// its own `identify`.
    pub fn and_then<T: 'static>(&self, func: &impl Fn(&T)) -> (r: &Self)
        where
            U: ErrorIdentity,
        requires
            forall|t: &T| func.requires((t,)),
        ensures
            self.is_processed() ==> r.is_processed(),
            !r.is_processed() ==> r == self,
            r.is_processed() && !self.is_processed() ==> exists|t: &T| func.ensures((t,), ()),
    {
        match self {
            ActorErrorHandler::Processed => self,
            ActorErrorHandler::Unprocessed(dynamic) => {
                let typed = match dynamic {
                    ActorError::Simple(e) => downcast_ref::<T, SimpleActorError>(e),
                    ActorError::Other(u) => u.identify::<T>(),
                };
                self.process_identified(typed, func)
            },
        }
    }

    /// Continues an identification: `typed` is the error seen as a `T`, when it is one.
    /// An unprocessed error that is identified is handed to `func` and becomes processed.
    pub fn process_identified<T>(&self, typed: Option<&T>, func: &impl Fn(&T)) -> (r: &Self)
        requires
            forall|t: &T| func.requires((t,)),
        ensures
            r.is_processed() == (self.is_processed() || typed is Some),
            !r.is_processed() ==> r == self,
            !self.is_processed() && typed is Some ==> func.ensures((typed->0,), ()),
    {
        match self {
            ActorErrorHandler::Processed => self,
            ActorErrorHandler::Unprocessed(_) => match typed {
                Some(t) => {
                    func(t);
                    &ActorErrorHandler::Processed
                },
                None => self,
            },
        }
    }

    /// Processes the error with `func` if no `and_then` has identified it before.
    pub fn or_else(&self, func: &impl Fn(&ActorError<U>))
        requires
            forall|e: &ActorError<U>| func.requires((e,)),
        ensures
            self matches ActorErrorHandler::Unprocessed(e) ==> func.ensures((e,), ()),
    {
        if let ActorErrorHandler::Unprocessed(dynamic) = self {
            func(dynamic)
        }
    }
}

/// Handles an actor's initialization and termination.
pub trait StateHandler<U>: Send {
    /// Initialization event. On failure the actor stops immediately.
    fn init(&mut self, name: String) -> Res<(), U>;

    /// Termination event, with the actor's exit value.
    fn terminate(&mut self, name: String, reason: &Res<(), U>);
}

/// State handler that an actor uses when no custom one is set: its initialization
/// always succeeds and its termination does nothing.
pub struct DefaultStateHandler {}

impl DefaultStateHandler {
    /// A boxed default state handler.
    pub fn new_ref() -> (r: Box<DefaultStateHandler>) {
        Box::new(DefaultStateHandler {})
    }
}

impl<U> StateHandler<U> for DefaultStateHandler {
    fn init(&mut self, name: String) -> Result<(), ActorError<U>>
        returns
            Ok::<(), ActorError<U>>(()),
    {
        Ok(())
    }

    fn terminate(&mut self, name: String, reason: &Res<(), U>) {
    }
}

/// The state handler an actor runs with: a custom one when it was set, else the default one.
pub enum StateHandlerChoice<S> {
    /// The state handler that was set
    Custom(S),
    /// The default state handler
    Default(DefaultStateHandler),
}

impl<S> StateHandlerChoice<S> {
    /// The custom state handler when one was set, else the default one.
    pub fn from_option(state_handler: Option<S>) -> (r: Self)
        ensures
            match state_handler {
                Some(s) => r == StateHandlerChoice::Custom(s),
                None => r is Default,
            },
    {
        match state_handler {
            Some(s) => StateHandlerChoice::Custom(s),
            None => StateHandlerChoice::Default(DefaultStateHandler {}),
        }
    }
}

impl<U, S: StateHandler<U>> StateHandler<U> for StateHandlerChoice<S> {
    fn init(&mut self, name: String) -> (r: Result<(), ActorError<U>>)
        ensures
            *old(self) is Default ==> r is Ok && *final(self) is Default,
            *old(self) is Custom ==> *final(self) is Custom,
            *old(self) matches StateHandlerChoice::Custom(before) ==> *final(self) matches StateHandlerChoice::Custom(
                after,
            ) && exists|h: &mut S|
                mut_ref_current(h) == before && mut_ref_future(h) == after && call_ensures(
                    <S as StateHandler<U>>::init,
                    (h, name),
                    r,
                ),
    {
        match self {
            StateHandlerChoice::Custom(s) => {
                let custom_init = <S as StateHandler<U>>::init;
                custom_init(s, name)
            },
            StateHandlerChoice::Default(d) => StateHandler::<U>::init(d, name),
        }
    }

    fn terminate(&mut self, name: String, reason: &Res<(), U>)
        ensures
            *old(self) is Default ==> *final(self) is Default,
            *old(self) is Custom ==> *final(self) is Custom,
            *old(self) matches StateHandlerChoice::Custom(before) ==> *final(self) matches StateHandlerChoice::Custom(
                after,
            ) && exists|h: &mut S|
                mut_ref_current(h) == before && mut_ref_future(h) == after && call_ensures(
                    <S as StateHandler<U>>::terminate,
                    (h, name, reason),
                    (),
                ),
    {
        match self {
            StateHandlerChoice::Custom(s) => {
                let custom_terminate = <S as StateHandler<U>>::terminate;
                custom_terminate(s, name, reason)
            },
            StateHandlerChoice::Default(d) => StateHandler::<U>::terminate(d, name, reason),
        }
    }
}

/// An actor's state handler is its custom one when one was set: starting it gives exactly
/// what the custom handler's `init` gives for the same name, an error included, and leaves
/// the custom handler as its `init` left it. The default one always starts successfully.
pub proof fn law_state_handler_init<U, S: StateHandler<U>>(
    choice: &mut StateHandlerChoice<S>,
    name: String,
    r: Res<(), U>,
)
    requires
        call_ensures(<StateHandlerChoice<S> as StateHandler<U>>::init, (choice, name), r),
    ensures
        mut_ref_current(choice) is Default ==> r is Ok,
        mut_ref_current(choice) is Custom ==> exists|h: &mut S|
            StateHandlerChoice::Custom(mut_ref_current(h)) == mut_ref_current(choice)
                && StateHandlerChoice::Custom(mut_ref_future(h)) == mut_ref_future(choice)
                && call_ensures(<S as StateHandler<U>>::init, (h, name), r),
{
}

/// Terminating an actor's custom state handler hands it the very name and exit value that
/// the actor terminates with, and leaves it as its `terminate` left it.
pub proof fn law_state_handler_terminate<U, S: StateHandler<U>>(
    choice: &mut StateHandlerChoice<S>,
    name: String,
    reason: &Res<(), U>,
)
    requires
        call_ensures(<StateHandlerChoice<S> as StateHandler<U>>::terminate, (choice, name, reason), ()),
        mut_ref_current(choice) is Custom,
    ensures
        exists|h: &mut S|
            StateHandlerChoice::Custom(mut_ref_current(h)) == mut_ref_current(choice)
                && StateHandlerChoice::Custom(mut_ref_future(h)) == mut_ref_future(choice)
                && call_ensures(<S as StateHandler<U>>::terminate, (h, name, reason), ()),
{
}

/// A library error converted into an actor error is that same library error, and converting
/// it back gives it back unchanged; an error raised by user code is no library error.
pub proof fn law_library_errors_convert_back<U>(
    e: SimpleActorError,
    a: ActorError<U>,
    back: Result<SimpleActorError, &'static str>,
    other: U,
    not_simple: Result<SimpleActorError, &'static str>,
)
    requires
        call_ensures(<ActorError<U> as From<SimpleActorError>>::from, (e,), a),
        call_ensures(<SimpleActorError as TryFrom<&ActorError<U>>>::try_from, (&a,), back),
        call_ensures(
            <SimpleActorError as TryFrom<&ActorError<U>>>::try_from,
            (&ActorError::<U>::Other(other),),
            not_simple,
        ),
    ensures
        a == ActorError::<U>::Simple(e),
        back == Ok::<SimpleActorError, &'static str>(e),
        not_simple is Err,
{
}

}
