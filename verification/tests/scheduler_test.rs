use simple_actor::client::joined_outcome;
use simple_actor::scheduler::{delivery_outcome, MessageActorScheduler, SchedulerState, SchedulerStep};
use simple_actor::{ActorError, Res, Scheduling, SimpleActorError};
use tokio::time::{Duration, Instant};

enum Event {
    Tick,
    Tock,
}

/// Counter that counts the ticks up to its maximum
struct TestCounter {
    counter: u32,
    max: u32,
}

impl TestCounter {
    fn handle_timer_event(&mut self, event: &Event) -> Res<bool, String> {
        match event {
            Event::Tick => {
                if self.counter < self.max {
                    self.counter += 1
                }
            },
            Event::Tock => println!("Counter : {}", self.counter),
        };
        Ok(self.counter < self.max)
    }
}

/// Fires `event` at most `firings` times, handing it to `handle`, until the scheduler
/// finishes. Returns how many events were handled and the scheduler's result.
fn run(
    scheduling: &Scheduling,
    firings: usize,
    mut handle: impl FnMut() -> Res<bool, String>,
) -> (usize, Option<Res<(), String>>) {
    let mut state: SchedulerState<String> = SchedulerState::new(scheduling);
    for handled in 1..=firings {
        if state.on_handled(handle()) == SchedulerStep::Finish {
            return (handled, Some(state.into_result()));
        }
    }
    (firings, None)
}

#[test]
fn periodic_test() {
    let mut tc = TestCounter { counter: 0, max: 10 };
    let (handled, result) =
        run(&Scheduling::Periodic(Duration::from_millis(100)), 100, || tc.handle_timer_event(&Event::Tick));
    assert_eq!(10, handled);
    assert!(matches!(result, Some(Ok(()))));
    // the other scheduler, which only prints, is aborted while it still runs
    let (_, result) = run(&Scheduling::Periodic(Duration::from_millis(50)), 5, || Ok(true));
    assert!(result.is_none());
}

#[test]
fn periodic_at() {
    let at = Instant::now() + Duration::from_millis(500);
    let mut tc = TestCounter { counter: 0, max: 10 };
    let (handled, result) =
        run(&Scheduling::PeriodicAt(at, Duration::from_millis(100)), 100, || tc.handle_timer_event(&Event::Tick));
    assert_eq!(10, handled);
    assert!(matches!(result, Some(Ok(()))));
}

#[test]
fn once() {
    let at = Instant::now() + Duration::from_millis(500);
    let scheduling = Scheduling::OnceAt(at);
    assert!(scheduling.is_once());
    let mut tc = TestCounter { counter: 0, max: 10 };
    let (handled, result) = run(&scheduling, 100, || tc.handle_timer_event(&Event::Tock));
    assert_eq!(1, handled);
    assert!(matches!(result, Some(Ok(()))));
}

#[test]
fn handler_has_failed() {
    let at = Instant::now() + Duration::from_millis(100);
    let handle = |event: &Event| -> Res<bool, String> {
        match event {
            Event::Tick => Ok(true),
            Event::Tock => Err(ActorError::Other("Tock is invalid".to_string())),
        }
    };
    let (handled, result) = run(&Scheduling::OnceAt(at), 100, || handle(&Event::Tock));
    assert_eq!(1, handled);
    match result {
        Some(Err(ActorError::Other(e))) => assert_eq!("Tock is invalid", e),
        _ => panic!(),
    }
    // the ticking scheduler goes on until it is aborted
    let (_, result) = run(&Scheduling::Periodic(Duration::from_millis(100)), 5, || handle(&Event::Tick));
    assert!(result.is_none());
}

#[test]
fn handler_has_chrased() {
    // the scheduler's task panicked: stopping it reports the join error
    let r: Res<(), String> = joined_outcome(Err("task panicked".to_string()));
    assert!(r.is_err());
}

#[test]
fn periodic_handler_error_stops_scheduler() {
    let mut answers = vec![Ok(true), Ok(true), Err(ActorError::Other("broken".to_string())), Ok(true)].into_iter();
    let (handled, result) = run(&Scheduling::Periodic(Duration::from_millis(10)), 4, || answers.next().unwrap());
    assert_eq!(3, handled);
    match result {
        Some(Err(ActorError::Other(e))) => assert_eq!("broken", e),
        _ => panic!(),
    }
}

#[test]
fn message_scheduler_answers() {
    let scheduler = MessageActorScheduler::new("client".to_string());
    assert_eq!("client", scheduler.client_ref().as_str());
    assert!(matches!(delivery_outcome::<String>(Ok(())), Ok(true)));
    let r = delivery_outcome::<String>(Err(ActorError::Simple(SimpleActorError::Send)));
    assert!(matches!(r, Err(ActorError::Simple(SimpleActorError::Send))));
    // a scheduler whose actor has stopped stops with the delivery error
    let mut sent = vec![Ok(()), Err(ActorError::Simple(SimpleActorError::Send))].into_iter();
    let (handled, result) =
        run(&Scheduling::Periodic(Duration::from_millis(30)), 10, || delivery_outcome(sent.next().unwrap()));
    assert_eq!(2, handled);
    assert!(matches!(result, Some(Err(ActorError::Simple(SimpleActorError::Send)))));
}
