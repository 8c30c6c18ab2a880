use simple_actor::client::{message_outcome, request_outcome, RequestDelivery};
use simple_actor::processing::{
    command_rejected, message_processed, reply_outcome, request_handled, route_hybrid, route_message,
    route_request, HybridRoute, ProcessResult, RequestRoute,
};
use simple_actor::server::{ActorServerState, ServerAction};
use simple_actor::{ActorBuilder, ActorError, Command, Res, StateHandler};

type Number = u128;

/// Error response of the test actors
#[derive(Debug, PartialEq)]
struct NumError {
    value: Number,
}

type TestError = NumError;
type Cmd<ME, MR, R> = Command<ME, MR, R, TestError>;

/// A command handler of the simulated actors: processes one command synchronously.
trait Processor<ME, MR, R> {
    fn process(&mut self, command: Cmd<ME, MR, R>) -> ProcessResult<(), TestError>;
}

/// An actor whose commands are processed as soon as they are sent.
struct SimActor<P, ME, MR, R> {
    server: ActorServerState<TestError>,
    processor: P,
    _types: std::marker::PhantomData<(ME, MR, R)>,
}

impl<P: Processor<ME, MR, R>, ME, MR, R> SimActor<P, ME, MR, R> {
    fn start(name: String, processor: P, mut state_handler: impl StateHandler<TestError>) -> Self {
        let mut server = ActorServerState::new(name.clone());
        let _: ServerAction<(), ()> = server.on_init(state_handler.init(name));
        SimActor { server, processor, _types: std::marker::PhantomData }
    }

    /// Hands a command to the actor; returns whether its channel accepted it.
    fn send(&mut self, command: Cmd<ME, MR, R>) -> Result<(), ()> {
        if self.server.is_exited() {
            return Err(());
        }
        let action: ServerAction<Cmd<ME, MR, R>, ()> = self.server.on_received(Some(command));
        if let ServerAction::Dispatch(command) = action {
            let _: ServerAction<(), ()> = self.server.on_processed(self.processor.process(command));
        }
        Ok(())
    }

    fn message(&mut self, m: ME) -> Res<(), TestError> {
        message_outcome(self.send(Command::Message(m)))
    }

    fn request(&mut self, m: MR) -> Res<R, TestError> {
        let (tx, mut rx) = tokio::sync::oneshot::channel();
        let delivery = match self.send(Command::Request(m, tx)) {
            Ok(()) => match rx.try_recv() {
                Ok(reply) => RequestDelivery::Replied(reply),
                Err(_) => RequestDelivery::NoReply,
            },
            Err(()) => RequestDelivery::NotSent,
        };
        request_outcome(delivery)
    }

    fn stop(mut self) -> Res<(), TestError> {
        let _ = self.send(Command::Stop);
        self.server.into_exit_value()
    }
}

/// Processes `request` synchronously and replies.
fn reply_to<R>(route: RequestRoute<impl Sized, R, TestError>, process: impl FnOnce() -> Res<R, TestError>) -> ProcessResult<(), TestError> {
    match route {
        RequestRoute::Execute(_, reply_to) => {
            let _ = reply_outcome(reply_to.send(process()));
            request_handled(None)
        },
        RequestRoute::ReportUndelivered(_) => request_handled(None),
        RequestRoute::Reject => command_rejected(),
    }
}

/// Message actor logic
struct MessageCounter {
    counter: Number,
}

impl Processor<Number, (), ()> for MessageCounter {
    fn process(&mut self, command: Cmd<Number, (), ()>) -> ProcessResult<(), TestError> {
        match route_message(command) {
            Ok(message) => message_processed(if message == 0 {
                // Error will stop actor
                Err(ActorError::Other(NumError { value: self.counter }))
            } else {
                self.counter += message;
                Ok(())
            }),
            Err(e) => Err(e),
        }
    }
}

fn run_message_actor(name: &str) {
    let config = ActorBuilder::new().name(name).one_shot().message_actor(MessageCounter { counter: 0 }).into_config();
    let mut actor = SimActor::start(config.name, config.handler, config.state_handler);

    let mut sum: u128 = 0;
    for _ in 1..=100_000u128 {
        sum += 1;
        actor.message(1).unwrap();
    }
    // The message sending succeeds; its processing stops the actor
    actor.message(0).unwrap();
    // Send message after actor was stopped
    assert!(actor.message(1).is_err());
    match actor.stop() {
        Err(ActorError::Other(num)) => assert_eq!(sum, num.value),
        _ => panic!("isn't a NumError type!"),
    }
}

#[test]
fn message_actor_test_message_actor_test() {
    run_message_actor("TestActor");
}

#[test]
fn restartable_message_actor_test() {
    let builder = ActorBuilder::new().name("TestActor").reusable().message_actor(|| MessageCounter { counter: 0 });
    for _ in 0..2 {
        let config = builder.config();
        assert_eq!("TestActor", config.name);
        let mut actor = SimActor::start(config.name, config.handler, config.state_handler);
        let mut sum: u128 = 0;
        for _ in 1..=100_000u128 {
            sum += 1;
            actor.message(1).unwrap();
        }
        actor.message(0).unwrap();
        match actor.stop() {
            Err(ActorError::Other(num)) => assert_eq!(sum, num.value),
            _ => panic!("isn't a NumError type!"),
        }
    }
}

#[derive(Debug)]
enum Request {
    Inc(Number),
    Get,
}

#[derive(Debug, PartialEq)]
enum Response {
    Success,
    CurrentValue(Number),
}

/// Request actor logic
struct RequestCounter {
    counter: Number,
}

impl Processor<(), Request, Response> for RequestCounter {
    fn process(&mut self, command: Cmd<(), Request, Response>) -> ProcessResult<(), TestError> {
        let route = route_request(command);
        let request = match &route {
            RequestRoute::Execute(request, _) => Some(match request {
                Request::Inc(n) => Request::Inc(*n),
                Request::Get => Request::Get,
            }),
            _ => None,
        };
        let counter = &mut self.counter;
        reply_to(route, || match request.unwrap() {
            Request::Inc(incrementum) => {
                if *counter >= 50_000 {
                    Err(ActorError::Other(NumError { value: *counter }))
                } else {
                    *counter += incrementum;
                    Ok(Response::Success)
                }
            },
            Request::Get => Ok(Response::CurrentValue(*counter)),
        })
    }
}

#[test]
fn request_actor_test_request_actor() {
    let config = ActorBuilder::new().name("TestActor").one_shot().request_actor(RequestCounter { counter: 0 }).into_config();
    let mut actor = SimActor::start(config.name, config.handler, config.state_handler);

    let mut sum: u128 = 0;
    for _ in 1..=100_000u128 {
        if let Err(_) = actor.request(Request::Inc(1)) {
            break;
        } else {
            sum += 1;
        };
    }
    assert_eq!(50_000, sum);
    match actor.request(Request::Get) {
        Ok(Response::CurrentValue(get_counter)) => assert_eq!(sum, get_counter),
        _ => panic!("Bad response!"),
    }
    let exit = actor.stop();
    assert!(exit.is_ok());
}

#[derive(Debug)]
enum TestMessage {
    Inc(Number),
}

/// Hybrid actor logic
struct HybridCounter {
    counter: Number,
}

impl Processor<TestMessage, Request, Response> for HybridCounter {
    fn process(&mut self, command: Cmd<TestMessage, Request, Response>) -> ProcessResult<(), TestError> {
        match route_hybrid(command) {
            HybridRoute::Message(TestMessage::Inc(incrementum)) => {
                self.counter += incrementum;
                message_processed(Ok(()))
            },
            HybridRoute::Request(route) => {
                let counter = self.counter;
                reply_to(route, || Ok(Response::CurrentValue(counter)))
            },
        }
    }
}

#[test]
fn hybrid_actor() {
    let config = ActorBuilder::new().name("HybridActor").one_shot().hybrid_actor(HybridCounter { counter: 0 }).into_config();
    let mut actor = SimActor::start(config.name, config.handler, config.state_handler);

    let mut sum: u128 = 0;
    for _ in 1..=100_000u128 {
        actor.message(TestMessage::Inc(1)).unwrap();
        sum += 1;
    }
    match actor.request(Request::Get) {
        Ok(Response::CurrentValue(get_counter)) => assert_eq!(sum, get_counter),
        _ => panic!(),
    }
    actor.stop().unwrap();
}
