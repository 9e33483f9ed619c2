//! Replies between actors: every question is answered on a channel of its
//! own, and no answer is waited for longer than a fixed time.

use crate::constants::CHANNEL_RECV_TIMEOUT;
use crate::errors::ChannelErrorCodes;
use vstd::prelude::*;

verus! {

/// How the wait for a reply ended.
#[derive(Clone, Debug, PartialEq, Eq)]
pub enum Received<T> {
    /// The reply came in time.
    Reply(T),
    /// The one who was asked went away without an answer.
    Closed,
    /// The time ran out.
    TimedOut,
}

/// How long a reply is waited for, in milliseconds.
pub fn recv_timeout_millis() -> (millis: u64)
    ensures
        millis == 2000,
{
    CHANNEL_RECV_TIMEOUT
}

/// What the one who asked gets: the reply, or the reason there is none.
pub open spec fn received_outcome<T>(received: Received<T>) -> Result<T, ChannelErrorCodes> {
    match received {
        Received::Reply(reply) => Ok(reply),
        Received::Closed => Err(ChannelErrorCodes::ChannelReceiveError),
        Received::TimedOut => Err(ChannelErrorCodes::ChannelReceiveTimeout),
    }
}

/// Turns the end of a wait into what the one who asked gets.
pub fn recv_with_timeout<T>(received: Received<T>) -> (r: Result<T, ChannelErrorCodes>)
    ensures
        r == received_outcome(received),
{
    match received {
        Received::Reply(reply) => Ok(reply),
        Received::Closed => Err(ChannelErrorCodes::ChannelReceiveError),
        Received::TimedOut => Err(ChannelErrorCodes::ChannelReceiveTimeout),
    }
}

} // verus!
