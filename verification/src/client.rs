//! What the clients of an actor report to their callers.
use vstd::prelude::*;

use crate::common::{ActorError, Res, SimpleActorError};

verus! {

/// The result of sending a message to an actor, from the result of putting it on the
/// actor's channel: the channel refuses it only when the actor is gone.
pub fn message_outcome<T, U>(sent: Result<(), T>) -> (r: Res<(), U>)
    ensures
        sent is Ok ==> r == Ok::<(), ActorError<U>>(()),
        sent is Err ==> r == Err::<(), ActorError<U>>(ActorError::Simple(SimpleActorError::Send)),
{
    match sent {
        Ok(()) => Ok(()),
        Err(_) => Err(ActorError::Simple(SimpleActorError::Send)),
    }
}

/// How far a request travelled.
pub enum RequestDelivery<R, U> {
    /// The request could not be put on the actor's channel
    NotSent,
    /// The request was sent, but the reply channel closed without a reply
    NoReply,
    /// The actor replied
    Replied(Res<R, U>),
}

/// The result of a request, as the client reports it: the actor's reply itself,
/// a send error when the request did not reach the actor, a receive error when
/// no reply came back.
pub fn request_outcome<R, U>(delivery: RequestDelivery<R, U>) -> (r: Res<R, U>)
    ensures
        match delivery {
            RequestDelivery::NotSent => r == Err::<R, ActorError<U>>(ActorError::Simple(SimpleActorError::Send)),
            RequestDelivery::NoReply => r == Err::<R, ActorError<U>>(ActorError::Simple(SimpleActorError::Receive)),
            RequestDelivery::Replied(reply) => r == reply,
        },
{
    match delivery {
        RequestDelivery::NotSent => Err(ActorError::Simple(SimpleActorError::Send)),
        RequestDelivery::NoReply => Err(ActorError::Simple(SimpleActorError::Receive)),
        RequestDelivery::Replied(reply) => reply,
    }
}

/// The result of waiting for a background task, such as an actor server or a scheduler:
/// its own result when it finished, the join error when it panicked or was cancelled.
pub fn joined_outcome<U>(joined: Result<Res<(), U>, U>) -> (r: Res<(), U>)
    ensures
        match joined {
            Ok(res) => r == res,
            Err(e) => r == Err::<(), ActorError<U>>(ActorError::Other(e)),
        },
{
    match joined {
        Ok(res) => res,
        Err(e) => Err(ActorError::Other(e)),
    }
}

}
