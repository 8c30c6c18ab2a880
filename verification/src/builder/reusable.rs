//! Reusable builders: each builds actors again and again, every actor with a fresh
//! command handler made by the builder's factory.
use vstd::prelude::*;

use crate::builder::common::ActorBuilder;
use crate::builder::ActorConfig;
use crate::common::{DefaultStateHandler, StateHandlerChoice};

verus! {

/// Reusable actor builder.
pub struct ReusableActorBuilder {
    /// Name and buffer size
    builder: ActorBuilder,
}

impl ReusableActorBuilder {
    /// Name and buffer size.
    pub closed spec fn builder(&self) -> ActorBuilder {
        self.builder
    }

    /// Creates a reusable builder.
    pub fn new(builder: ActorBuilder) -> (b: Self)
        ensures
            b.builder() == builder,
    {
        ReusableActorBuilder { builder }
    }

    /// Continues as the builder of message actors whose message handlers `factory` makes.
    pub fn message_actor<F>(self, factory: F) -> (b: ReusableMessageActorBuilder<F>)
        ensures
            b.builder() == self.builder(),
            b.factory() == factory,
    {
        ReusableMessageActorBuilder { builder: self.builder, factory }
    }

    /// Continues as the builder of request actors whose request handlers `factory` makes.
    pub fn request_actor<F>(self, factory: F) -> (b: ReusableRequestActorBuilder<F>)
        ensures
            b.builder() == self.builder(),
            b.factory() == factory,
    {
        ReusableRequestActorBuilder { builder: self.builder, factory }
    }

    /// Continues as the builder of hybrid actors whose hybrid handlers `factory` makes.
    pub fn hybrid_actor<F>(self, factory: F) -> (b: ReusableHybridActorBuilder<F>)
        ensures
            b.builder() == self.builder(),
            b.factory() == factory,
    {
        ReusableHybridActorBuilder { builder: self.builder, factory }
    }
}

/// The configuration of an actor of a reusable builder: the builder's name and buffer
/// size, the default state handler, and a handler fresh from the factory.
fn configure<F: Fn() -> H, H>(builder: &ActorBuilder, factory: &F) -> (c: ActorConfig<DefaultStateHandler, H>)
    requires
        factory.requires(()),
    ensures
        c.name@ == builder.name_view(),
        factory.ensures((), c.handler),
        c.state_handler is Default,
        c.receive_buffer_size == builder.receive_buffer_size_view(),
{
    let (name, receive_buffer_size) = builder.parts();
    ActorConfig {
        name,
        handler: factory(),
        state_handler: StateHandlerChoice::Default(DefaultStateHandler {}),
        receive_buffer_size,
    }
}

/// Reusable builder of message actors.
pub struct ReusableMessageActorBuilder<F> {
    builder: ActorBuilder,
    factory: F,
}

impl<F> ReusableMessageActorBuilder<F> {
    /// Name and buffer size.
    pub closed spec fn builder(&self) -> ActorBuilder {
        self.builder
    }

    /// The factory of message handlers.
    pub closed spec fn factory(&self) -> F {
        self.factory
    }

    /// The configuration of the next actor that is built.
    pub fn config<H>(&self) -> (c: ActorConfig<DefaultStateHandler, H>)
        where F: Fn() -> H,
        requires
            self.factory().requires(()),
        ensures
            c.name@ == self.builder().name_view(),
            self.factory().ensures((), c.handler),
            c.state_handler is Default,
            c.receive_buffer_size == self.builder().receive_buffer_size_view(),
    {
        configure(&self.builder, &self.factory)
    }
}

/// Reusable builder of request actors.
pub struct ReusableRequestActorBuilder<F> {
    builder: ActorBuilder,
    factory: F,
}

impl<F> ReusableRequestActorBuilder<F> {
    /// Name and buffer size.
    pub closed spec fn builder(&self) -> ActorBuilder {
        self.builder
    }

    /// The factory of request handlers.
    pub closed spec fn factory(&self) -> F {
        self.factory
    }

    /// The configuration of the next actor that is built.
    pub fn config<H>(&self) -> (c: ActorConfig<DefaultStateHandler, H>)
        where F: Fn() -> H,
        requires
            self.factory().requires(()),
        ensures
            c.name@ == self.builder().name_view(),
            self.factory().ensures((), c.handler),
            c.state_handler is Default,
            c.receive_buffer_size == self.builder().receive_buffer_size_view(),
    {
        configure(&self.builder, &self.factory)
    }
}

/// Reusable builder of hybrid actors.
pub struct ReusableHybridActorBuilder<F> {
    builder: ActorBuilder,
    factory: F,
}

impl<F> ReusableHybridActorBuilder<F> {
    /// Name and buffer size.
    pub closed spec fn builder(&self) -> ActorBuilder {
        self.builder
    }

    /// The factory of hybrid handlers.
    pub closed spec fn factory(&self) -> F {
        self.factory
    }

    /// The configuration of the next actor that is built.
    pub fn config<H>(&self) -> (c: ActorConfig<DefaultStateHandler, H>)
        where F: Fn() -> H,
        requires
            self.factory().requires(()),
        ensures
            c.name@ == self.builder().name_view(),
            self.factory().ensures((), c.handler),
            c.state_handler is Default,
            c.receive_buffer_size == self.builder().receive_buffer_size_view(),
    {
        configure(&self.builder, &self.factory)
    }
}

}
