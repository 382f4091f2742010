//! How the actions of the driver are carried out: the offer of a channel and its
//! revocation.
//!
//! The driver's actions are taken one after another. A step names one command and
//! the next event reports its end; meanwhile the handlers of requests may change
//! the task.

use crate::offer::ChannelOffer;
use crate::offer::OfferEncoding;
use crate::offer::OfferParams;
use crate::table::Channel;
use crate::table::ProxyState;
use crate::table::ProxyTask;
use vstd::prelude::*;

verus! {

/// What the driver wants done.
#[derive(Debug, PartialEq, Eq)]
pub enum ProxyAction {
    Offer { id: u64, offer: ChannelOffer },
    Revoke { id: u64 },
    InterruptPolicy,
}

/// What the task has learnt. `S` is the handle whose drop revokes a channel at
/// the server.
#[derive(Debug, PartialEq, Eq)]
pub enum DriverEvent<S> {
    /// The driver's next action.
    Action(ProxyAction),
    /// The driver has no more actions.
    Ended,
    /// The server took the offer.
    Accepted(S),
    /// The server refused the offer.
    Rejected,
    /// The driver answered `Release`; `true` if it released the channel.
    Released(bool),
}

/// What the task waits for.
#[derive(Debug, PartialEq, Eq)]
pub enum DriverPhase {
    /// The driver's next action.
    Idle,
    /// The server's answer to the offer of channel `id`.
    Offering { id: u64 },
    /// The driver's release of channel `id`.
    Releasing { id: u64 },
}

/// What is to be done next.
#[derive(Debug, PartialEq, Eq)]
pub enum DriverCommand<S> {
    /// Make the offer to the server.
    Offer(OfferParams),
    /// Hand the requests that the server makes of channel `id` on to the request
    /// handlers, then ask for the driver's next action.
    Forward { id: u64 },
    /// Drop the handle, so that the server drops the channel, then ask for the
    /// driver's next action.
    Drop(S),
    /// Have the driver release channel `id`.
    Release { id: u64 },
    /// Ask for the driver's next action.
    Next,
    /// End the task.
    Stop,
}

/// The outcome of one step.
#[derive(Debug, PartialEq, Eq)]
pub struct DriverStep<S> {
    pub command: DriverCommand<S>,
    pub phase: DriverPhase,
}

impl<S> DriverStep<S> {
    /// The step names `command` and leaves the task in `phase`.
    pub open spec fn is(self, command: DriverCommand<S>, phase: DriverPhase) -> bool {
        self == DriverStep { command, phase }
    }
}

/// The step makes the server the offer that `encoding` reads from `offer`.
pub open spec fn offers<S>(
    encoding: OfferEncoding,
    id: u64,
    offer: ChannelOffer,
    step: DriverStep<S>,
) -> bool {
    &&& step.command matches DriverCommand::Offer(params)
    &&& encoding.describes(id, offer, params)
    &&& step.phase == (DriverPhase::Offering { id })
}

/// The channel that the task remembers once the server has answered its offer.
pub open spec fn answered_channel<S, W>(event: DriverEvent<S>) -> Channel<S, W> {
    Channel {
        server_request_send: match event {
            DriverEvent::Accepted(sender) => Some(sender),
            _ => None,
        },
        worker_result: None,
    }
}

/// What the revocation of channel `id` does: the first drops the server's handle,
/// and where there is none the driver can release the channel at once.
pub open spec fn revokes<S, W>(
    pre: ProxyState<S, W>,
    id: u64,
    post: ProxyState<S, W>,
    step: DriverStep<S>,
) -> bool {
    &&& post == pre.without_sender(id)
    &&& match pre.channels[id].server_request_send {
        Some(sender) => step.is(DriverCommand::Drop(sender), DriverPhase::Idle),
        None => step.is(DriverCommand::Release { id }, DriverPhase::Releasing { id }),
    }
}

/// The task can take `event` in `phase`: it is what the task waits for, an offer
/// is a supported one, a channel that is revoked is known, and the driver did not
/// fail to release a channel.
pub open spec fn can_take<S, W>(
    encoding: OfferEncoding,
    state: ProxyState<S, W>,
    phase: DriverPhase,
    event: DriverEvent<S>,
) -> bool {
    match phase {
        DriverPhase::Idle => match event {
            DriverEvent::Action(ProxyAction::Offer { id, offer }) => encoding.supported(offer),
            DriverEvent::Action(ProxyAction::Revoke { id }) => state.channels.contains_key(id),
            DriverEvent::Action(ProxyAction::InterruptPolicy) => true,
            DriverEvent::Ended => true,
            _ => false,
        },
        DriverPhase::Offering { id } => event is Accepted || event is Rejected,
        DriverPhase::Releasing { id } => event == DriverEvent::<S>::Released(true),
    }
}

/// What the task does on an event that it can take.
pub open spec fn takes<S, W>(
    encoding: OfferEncoding,
    pre: ProxyState<S, W>,
    phase: DriverPhase,
    event: DriverEvent<S>,
    post: ProxyState<S, W>,
    step: DriverStep<S>,
) -> bool {
    match phase {
        DriverPhase::Idle => match event {
            DriverEvent::Action(ProxyAction::Offer { id, offer }) => {
                &&& post == pre
                &&& offers(encoding, id, offer, step)
            },
            DriverEvent::Action(ProxyAction::Revoke { id }) => revokes(pre, id, post, step),
            DriverEvent::Action(ProxyAction::InterruptPolicy) => {
                &&& post == pre
                &&& step.is(DriverCommand::Next, DriverPhase::Idle)
            },
            _ => {
                &&& post == pre
                &&& step.is(DriverCommand::Stop, DriverPhase::Idle)
            },
        },
        DriverPhase::Offering { id } => {
            &&& post == pre.with_channel(id, answered_channel(event))
            &&& if event is Accepted {
                step.is(DriverCommand::Forward { id }, DriverPhase::Idle)
            } else {
                step.is(DriverCommand::Next, DriverPhase::Idle)
            }
        },
        DriverPhase::Releasing { id } => {
            &&& post == pre.without_channel(id)
            &&& step.is(DriverCommand::Next, DriverPhase::Idle)
        },
    }
}

impl<S, W> ProxyTask<S, W> {
    /// Whether the task can take `event` in `phase`.
    pub fn can_run_offers(
        &self,
        encoding: &OfferEncoding,
        phase: &DriverPhase,
        event: &DriverEvent<S>,
    ) -> (can: bool)
        ensures
            can == can_take(*encoding, self@, *phase, *event),
    {
        match (phase, event) {
            (
                DriverPhase::Idle,
                DriverEvent::Action(ProxyAction::Offer { id, offer }),
            ) => encoding.is_supported(offer),
            (
                DriverPhase::Idle,
                DriverEvent::Action(ProxyAction::Revoke { id }),
            ) => self.has_channel(*id),
            (DriverPhase::Idle, DriverEvent::Action(ProxyAction::InterruptPolicy)) => true,
            (DriverPhase::Idle, DriverEvent::Ended) => true,
            (DriverPhase::Offering { .. }, DriverEvent::Accepted(_)) => true,
            (DriverPhase::Offering { .. }, DriverEvent::Rejected) => true,
            (DriverPhase::Releasing { .. }, DriverEvent::Released(true)) => true,
            _ => false,
        }
    }

    /// One step of the loop over the driver's actions.
    pub fn run_offers(
        &mut self,
        encoding: &OfferEncoding,
        phase: DriverPhase,
        event: DriverEvent<S>,
    ) -> (step: DriverStep<S>)
        requires
            can_take(*encoding, old(self)@, phase, event),
        ensures
            takes(*encoding, old(self)@, phase, event, final(self)@, step),
    {
        match phase {
            DriverPhase::Idle => match event {
                DriverEvent::Action(ProxyAction::Offer { id, offer }) => self.handle_offer(
                    encoding,
                    id,
                    &offer,
                ),
                DriverEvent::Action(ProxyAction::Revoke { id }) => self.handle_revoke(id),
                DriverEvent::Action(ProxyAction::InterruptPolicy) => DriverStep {
                    command: DriverCommand::Next,
                    phase: DriverPhase::Idle,
                },
                _ => DriverStep { command: DriverCommand::Stop, phase: DriverPhase::Idle },
            },
            DriverPhase::Offering { id } => self.handle_offer_answer(id, event),
            DriverPhase::Releasing { id } => {
                self.remove_channel(id);
                DriverStep { command: DriverCommand::Next, phase: DriverPhase::Idle }
            },
        }
    }

    /// The driver offers a channel: the offer is made to the server.
    pub fn handle_offer(&self, encoding: &OfferEncoding, id: u64, offer: &ChannelOffer) -> (step:
        DriverStep<S>)
        requires
            encoding.supported(*offer),
        ensures
            offers(*encoding, id, *offer, step),
    {
        DriverStep {
            command: DriverCommand::Offer(encoding.offer_params(id, offer)),
            phase: DriverPhase::Offering { id },
        }
    }

    /// The server has answered the offer of channel `id`. The driver cannot be
    /// told of a refusal, so the channel is remembered either way.
    fn handle_offer_answer(&mut self, id: u64, event: DriverEvent<S>) -> (step: DriverStep<S>)
        requires
            event is Accepted || event is Rejected,
        ensures
            final(self)@ == old(self)@.with_channel(id, answered_channel(event)),
            event is Accepted ==> step.is(DriverCommand::Forward { id }, DriverPhase::Idle),
            event is Rejected ==> step.is(DriverCommand::Next, DriverPhase::Idle),
    {
        match event {
            DriverEvent::Accepted(sender) => {
                let channel = Channel { server_request_send: Some(sender), worker_result: None };
                self.insert_channel(id, channel);
                DriverStep { command: DriverCommand::Forward { id }, phase: DriverPhase::Idle }
            },
            _ => {
                let channel = Channel { server_request_send: None, worker_result: None };
                self.insert_channel(id, channel);
                DriverStep { command: DriverCommand::Next, phase: DriverPhase::Idle }
            },
        }
    }

    /// The driver revokes channel `id`.
    pub fn handle_revoke(&mut self, id: u64) -> (step: DriverStep<S>)
        requires
            old(self)@.channels.contains_key(id),
        ensures
            revokes(old(self)@, id, final(self)@, step),
    {
        match self.take_sender(id) {
            Some(sender) => DriverStep {
                command: DriverCommand::Drop(sender),
                phase: DriverPhase::Idle,
            },
            None => DriverStep {
                command: DriverCommand::Release { id },
                phase: DriverPhase::Releasing { id },
            },
        }
    }
}

} // verus!
