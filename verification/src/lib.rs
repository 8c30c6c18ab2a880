//! Simple actor library, after Erlang's `gen_server`: an actor owns a state and
//! processes the commands it receives one at a time. A command is either a message,
//! processed asynchronously, or a request, which the client waits for.
//!
//! This crate holds the actor model's decisions: the life of an actor server and
//! of its commands, what clients report, when schedulers and notification bridges
//! stop, and the builders that configure actors. Each decision is a function from
//! a state and an event to the next state and an action; the tasks that await
//! channels, timers and handlers perform the actions and feed the events back.

pub mod builder;
pub mod client;
pub mod common;
pub mod machine;
pub mod notify;
pub mod processing;
pub mod scheduler;
pub mod server;

pub use crate::builder::common::ActorBuilder;
pub use crate::common::{
    ActorError, ActorErrorHandler, Command, DefaultStateHandler, RequestExecution, Res,
    SimpleActorError, StateHandler,
};
pub use crate::scheduler::Scheduling;
