//! How the requests that the server makes of all channels are taken in.

use vstd::prelude::*;

verus! {

/// What the loop over the requests has learnt. `C` is the stream of the requests
/// that the server makes of one channel, `R` a request with its means of answer.
#[derive(Debug, PartialEq, Eq)]
pub enum IntakeEvent<C, R> {
    /// A channel is forwarded.
    Stream(C),
    /// The server asks something of channel `proxy_id`; `None` tells that the
    /// server has dropped the channel.
    Request { proxy_id: u64, request: Option<R> },
    /// No channel will be forwarded any more and every stream has ended.
    Complete,
}

/// What the loop does next.
#[derive(Debug, PartialEq, Eq)]
pub enum IntakeCommand<C, R> {
    /// Take requests from this stream too.
    Merge(C),
    /// Start a handler, which runs beside those that are running.
    Spawn { proxy_id: u64, request: Option<R> },
    /// End the loop.
    Stop,
}

/// One turn of the loop over the requests: each request gets a handler of its own.
pub fn run_channel_requests<C, R>(event: IntakeEvent<C, R>) -> (command: IntakeCommand<C, R>)
    ensures
        command == match event {
            IntakeEvent::Stream(stream) => IntakeCommand::Merge(stream),
            IntakeEvent::Request { proxy_id, request } => IntakeCommand::Spawn {
                proxy_id,
                request,
            },
            IntakeEvent::Complete => IntakeCommand::Stop,
        },
{
    match event {
        IntakeEvent::Stream(stream) => IntakeCommand::Merge(stream),
        IntakeEvent::Request { proxy_id, request } => IntakeCommand::Spawn { proxy_id, request },
        IntakeEvent::Complete => IntakeCommand::Stop,
    }
}

} // verus!
