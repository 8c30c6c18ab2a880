//! The actor builder that the crate exports: it sets the actor's name and receive
//! buffer size, then continues as a one-shot or a reusable builder.
use vstd::prelude::*;

use crate::builder::one_shot::OneShotActorBuilder;
use crate::builder::reusable::ReusableActorBuilder;
use crate::builder::DEFAULT_RECEIVE_BUFFER_SIZE;
use crate::common::DefaultStateHandler;

verus! {

/// Generic actor builder.
pub struct ActorBuilder {
    /// Receive buffer size
    receive_buffer_size: usize,
    /// The actor's name
    name: String,
}

impl Default for ActorBuilder {
    fn default() -> (b: Self)
        ensures
            b.receive_buffer_size_view() == DEFAULT_RECEIVE_BUFFER_SIZE,
            b.name_view() == Seq::<char>::empty(),
    {
        ActorBuilder { receive_buffer_size: DEFAULT_RECEIVE_BUFFER_SIZE, name: String::new() }
    }
}

impl ActorBuilder {
    /// The receive buffer size.
    pub closed spec fn receive_buffer_size_view(&self) -> usize {
        self.receive_buffer_size
    }

    /// The actor's name.
    pub closed spec fn name_view(&self) -> Seq<char> {
        self.name@
    }

    /// A builder with the default buffer size and an empty name.
    pub fn new() -> (b: Self)
        ensures
            b.receive_buffer_size_view() == DEFAULT_RECEIVE_BUFFER_SIZE,
            b.name_view() == Seq::<char>::empty(),
    {
        ActorBuilder { receive_buffer_size: DEFAULT_RECEIVE_BUFFER_SIZE, name: String::new() }
    }

    /// Sets the receive buffer size.
    pub fn receive_buffer_size(self, receive_buffer_size: usize) -> (b: Self)
        ensures
            b.receive_buffer_size_view() == receive_buffer_size,
            b.name_view() == self.name_view(),
    {
        ActorBuilder { receive_buffer_size, ..self }
    }

    /// Sets the actor's name.
    pub fn name(self, name: &str) -> (b: Self)
        ensures
            b.receive_buffer_size_view() == self.receive_buffer_size_view(),
            b.name_view() == name@,
    {
        ActorBuilder { name: name.to_owned(), ..self }
    }

    /// The name and the receive buffer size, consuming the builder.
    pub(crate) fn into_parts(self) -> (r: (String, usize))
        ensures
            r.0@ == self.name_view(),
            r.1 == self.receive_buffer_size_view(),
    {
        (self.name, self.receive_buffer_size)
    }

    /// A copy of the name, and the receive buffer size.
    pub(crate) fn parts(&self) -> (r: (String, usize))
        ensures
            r.0@ == self.name_view(),
            r.1 == self.receive_buffer_size_view(),
    {
        (self.name.clone(), self.receive_buffer_size)
    }

    /// Continues as a builder that builds one actor.
    pub fn one_shot(self) -> (b: OneShotActorBuilder<DefaultStateHandler>)
        ensures
            b.builder() == self,
            b.state_handler_view() is None,
    {
        OneShotActorBuilder::new(self)
    }

    /// Continues as a builder that can build actors again and again.
    pub fn reusable(self) -> (b: ReusableActorBuilder)
        ensures
            b.builder() == self,
    {
        ReusableActorBuilder::new(self)
    }
}

}
