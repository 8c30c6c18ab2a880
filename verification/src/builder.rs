//! Builders that configure actors: their name, the size of their receive buffer,
//! their state handler and their command handler. The builder in this module
//! configures and builds in one step; `common` holds the builder that the crate
//! exports, which continues with a one-shot or a reusable builder.
use vstd::prelude::*;

use crate::common::{DefaultStateHandler, StateHandlerChoice};

pub mod common;
pub mod one_shot;
pub mod reusable;

verus! {

/// The receive buffer size that a builder starts with.
pub const DEFAULT_RECEIVE_BUFFER_SIZE: usize = 32;

impl ActorBuilder<DefaultStateHandler> {
    /// A builder with no custom state handler, the default buffer size and an empty name.
    pub fn new() -> (b: Self)
        ensures
            b.state_handler_view() is None,
            b.receive_buffer_size_view() == DEFAULT_RECEIVE_BUFFER_SIZE,
            b.name_view() == Seq::<char>::empty(),
    {
        ActorBuilder { state_handler: None, receive_buffer_size: DEFAULT_RECEIVE_BUFFER_SIZE, name: String::new() }
    }
}

/// Builder that configures and builds an actor in one step.
pub struct ActorBuilder<S> {
    /// State handler, when a custom one is set
    state_handler: Option<S>,
    /// Receive buffer size
    receive_buffer_size: usize,
    /// The actor's name
    name: String,
}

/// The configuration that an actor is built with.
pub struct ActorConfig<S, H> {
    /// The actor's name
    pub name: String,
    /// The command handler
    pub handler: H,
    /// The state handler
    pub state_handler: StateHandlerChoice<S>,
    /// The receive buffer size
    pub receive_buffer_size: usize,
}

impl<S> ActorBuilder<S> {
    /// The state handler that is set, if any.
    pub closed spec fn state_handler_view(&self) -> Option<S> {
        self.state_handler
    }

    /// The receive buffer size.
    pub closed spec fn receive_buffer_size_view(&self) -> usize {
        self.receive_buffer_size
    }

    /// The actor's name.
    pub closed spec fn name_view(&self) -> Seq<char> {
        self.name@
    }

    /// Sets a custom state handler.
    pub fn state_handler<T>(self, state_handler: T) -> (b: ActorBuilder<T>)
        ensures
            b.state_handler_view() == Some(state_handler),
            b.receive_buffer_size_view() == self.receive_buffer_size_view(),
            b.name_view() == self.name_view(),
    {
        ActorBuilder {
            state_handler: Some(state_handler),
            receive_buffer_size: self.receive_buffer_size,
            name: self.name,
        }
    }

    /// Sets the receive buffer size.
    pub fn receive_buffer_size(self, receive_buffer_size: usize) -> (b: Self)
        ensures
            b.state_handler_view() == self.state_handler_view(),
            b.receive_buffer_size_view() == receive_buffer_size,
            b.name_view() == self.name_view(),
    {
        ActorBuilder { receive_buffer_size, ..self }
    }

    /// Sets the actor's name.
    pub fn name(self, name: &str) -> (b: Self)
        ensures
            b.state_handler_view() == self.state_handler_view(),
            b.receive_buffer_size_view() == self.receive_buffer_size_view(),
            b.name_view() == name@,
    {
        ActorBuilder { name: name.to_owned(), ..self }
    }

    /// The configuration of an actor with the given command handler: the state
    /// handler that was set, or the default one.
    pub fn configure<H>(self, handler: H) -> (c: ActorConfig<S, H>)
        ensures
            c.name@ == self.name_view(),
            c.handler == handler,
            match self.state_handler_view() {
                Some(s) => c.state_handler == StateHandlerChoice::Custom(s),
                None => c.state_handler is Default,
            },
            c.receive_buffer_size == self.receive_buffer_size_view(),
    {
        ActorConfig {
            name: self.name,
            handler,
            state_handler: StateHandlerChoice::from_option(self.state_handler),
            receive_buffer_size: self.receive_buffer_size,
        }
    }
}

}
