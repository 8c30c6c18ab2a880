//! One-shot builders: each builds a single actor, consuming itself.
use vstd::prelude::*;

use crate::builder::common::ActorBuilder;
use crate::builder::ActorConfig;
use crate::common::{DefaultStateHandler, StateHandlerChoice};

verus! {

/// One-shot actor builder.
pub struct OneShotActorBuilder<S> {
    /// Name and buffer size
    builder: ActorBuilder,
    /// State handler, when a custom one is set
    state_handler: Option<S>,
}

impl OneShotActorBuilder<DefaultStateHandler> {
    /// A one-shot builder with no custom state handler.
    pub fn new(builder: ActorBuilder) -> (b: Self)
        ensures
            b.builder() == builder,
            b.state_handler_view() is None,
    {
        OneShotActorBuilder { builder, state_handler: None }
    }
}

impl<S> OneShotActorBuilder<S> {
    /// Name and buffer size.
    pub closed spec fn builder(&self) -> ActorBuilder {
        self.builder
    }

    /// The state handler that is set, if any.
    pub closed spec fn state_handler_view(&self) -> Option<S> {
        self.state_handler
    }

    /// Sets a custom state handler.
    pub fn state_handler<T>(self, state_handler: T) -> (b: OneShotActorBuilder<T>)
        ensures
            b.builder() == self.builder(),
            b.state_handler_view() == Some(state_handler),
    {
        OneShotActorBuilder { builder: self.builder, state_handler: Some(state_handler) }
    }

    /// Continues as the builder of a message actor with this message handler.
    pub fn message_actor<H>(self, msg_handler: H) -> (b: MessageActorBuilder<S, H>)
        ensures
            b.builder() == self,
            b.handler() == msg_handler,
    {
        MessageActorBuilder::new(self, msg_handler)
    }

    /// Continues as the builder of a request actor with this request handler.
    pub fn request_actor<H>(self, req_handler: H) -> (b: RequestActorBuilder<S, H>)
        ensures
            b.builder() == self,
            b.handler() == req_handler,
    {
        RequestActorBuilder::new(self, req_handler)
    }

    /// Continues as the builder of a hybrid actor with this handler.
    pub fn hybrid_actor<H>(self, handler: H) -> (b: HybridActorBuilder<S, H>)
        ensures
            b.builder() == self,
            b.handler() == handler,
    {
        HybridActorBuilder::new(self, handler)
    }

    /// The configuration of an actor with this command handler.
    fn configure<H>(self, handler: H) -> (c: ActorConfig<S, H>)
        ensures
            c.name@ == self.builder().name_view(),
            c.handler == handler,
            match self.state_handler_view() {
                Some(s) => c.state_handler == StateHandlerChoice::Custom(s),
                None => c.state_handler is Default,
            },
            c.receive_buffer_size == self.builder().receive_buffer_size_view(),
    {
        let (name, receive_buffer_size) = self.builder.into_parts();
        ActorConfig {
            name,
            handler,
            state_handler: StateHandlerChoice::from_option(self.state_handler),
            receive_buffer_size,
        }
    }
}

/// Builder of a message actor.
pub struct MessageActorBuilder<S, H> {
    builder: OneShotActorBuilder<S>,
    handler: H,
}

impl<S, H> MessageActorBuilder<S, H> {
    /// The one-shot builder it continues.
    pub closed spec fn builder(&self) -> OneShotActorBuilder<S> {
        self.builder
    }

    /// The message handler.
    pub closed spec fn handler(&self) -> H {
        self.handler
    }

    fn new(builder: OneShotActorBuilder<S>, handler: H) -> (b: Self)
        ensures
            b.builder() == builder,
            b.handler() == handler,
    {
        MessageActorBuilder { builder, handler }
    }

    /// The configuration that the actor is built with.
    pub fn into_config(self) -> (c: ActorConfig<S, H>)
        ensures
            c.name@ == self.builder().builder().name_view(),
            c.handler == self.handler(),
            match self.builder().state_handler_view() {
                Some(s) => c.state_handler == StateHandlerChoice::Custom(s),
                None => c.state_handler is Default,
            },
            c.receive_buffer_size == self.builder().builder().receive_buffer_size_view(),
    {
        self.builder.configure(self.handler)
    }
}

/// Builder of a request actor.
pub struct RequestActorBuilder<S, H> {
    builder: OneShotActorBuilder<S>,
    handler: H,
}

impl<S, H> RequestActorBuilder<S, H> {
    /// The one-shot builder it continues.
    pub closed spec fn builder(&self) -> OneShotActorBuilder<S> {
        self.builder
    }

    /// The request handler.
    pub closed spec fn handler(&self) -> H {
        self.handler
    }

    fn new(builder: OneShotActorBuilder<S>, handler: H) -> (b: Self)
        ensures
            b.builder() == builder,
            b.handler() == handler,
    {
        RequestActorBuilder { builder, handler }
    }

    /// The configuration that the actor is built with.
    pub fn into_config(self) -> (c: ActorConfig<S, H>)
        ensures
            c.name@ == self.builder().builder().name_view(),
            c.handler == self.handler(),
            match self.builder().state_handler_view() {
                Some(s) => c.state_handler == StateHandlerChoice::Custom(s),
                None => c.state_handler is Default,
            },
            c.receive_buffer_size == self.builder().builder().receive_buffer_size_view(),
    {
        self.builder.configure(self.handler)
    }
}

/// Builder of a hybrid actor.
pub struct HybridActorBuilder<S, H> {
    builder: OneShotActorBuilder<S>,
    handler: H,
}

impl<S, H> HybridActorBuilder<S, H> {
    /// The one-shot builder it continues.
    pub closed spec fn builder(&self) -> OneShotActorBuilder<S> {
        self.builder
    }

    /// The hybrid handler.
    pub closed spec fn handler(&self) -> H {
        self.handler
    }

    fn new(builder: OneShotActorBuilder<S>, handler: H) -> (b: Self)
        ensures
            b.builder() == builder,
            b.handler() == handler,
    {
        HybridActorBuilder { builder, handler }
    }

    /// The configuration that the actor is built with.
    pub fn into_config(self) -> (c: ActorConfig<S, H>)
        ensures
            c.name@ == self.builder().builder().name_view(),
            c.handler == self.handler(),
            match self.builder().state_handler_view() {
                Some(s) => c.state_handler == StateHandlerChoice::Custom(s),
                None => c.state_handler is Default,
            },
            c.receive_buffer_size == self.builder().builder().receive_buffer_size_view(),
    {
        self.builder.configure(self.handler)
    }
}

}
