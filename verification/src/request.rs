//! How a request of the channel server is carried out on a proxied channel.
//!
//! A handler never waits by itself. It names one command at a time and is resumed
//! with the event that reports the command's end; in between, the handlers of
//! other requests may change the task.

use crate::memory::words_as_bytes;
use crate::table::ProxyState;
use crate::table::ProxyTask;
use crate::worker::worker_name;
use vstd::prelude::*;

verus! {

/// What the server asks for when it opens a channel.
#[derive(Debug, PartialEq, Eq)]
pub struct OpenRequest {
    pub ring_gpadl_id: u32,
    pub ring_offset: u32,
    /// The guest's interrupt is backed by an event that the driver can signal.
    pub event_backed: bool,
}

/// What the driver is told when a channel is opened.
#[derive(Debug, PartialEq, Eq)]
pub struct OpenParameters {
    pub ring_buffer_gpadl_handle: u32,
    pub downstream_ring_buffer_page_offset: u32,
    pub node_number: u16,
}

/// A guest physical address descriptor list to be registered.
#[derive(Debug, PartialEq, Eq)]
pub struct GpadlRequest {
    pub id: u32,
    pub count: u16,
    pub buf: Vec<u64>,
}

/// A request of the channel server.
#[derive(Debug, PartialEq, Eq)]
pub enum ChannelRequest {
    Open(OpenRequest),
    Close,
    Gpadl(GpadlRequest),
    TeardownGpadl(u32),
    Modify,
}

/// The answer to a request.
#[derive(Debug, PartialEq, Eq)]
pub enum Reply {
    Open(bool),
    Close,
    Gpadl(bool),
    TeardownGpadl,
    Modify(i32),
}

/// What is to be done next. All but `StartWorker` and `AwaitWorker` are calls of
/// the driver; `id` is the channel that the call, or the worker, is about.
#[derive(Debug, PartialEq, Eq)]
pub enum RequestCommand<W> {
    Open { id: u64, parameters: OpenParameters },
    StartWorker { id: u64, name: String },
    Close { id: u64 },
    AwaitWorker(W),
    CreateGpadl { id: u64, gpadl_id: u32, count: u32, buf: Vec<u8> },
    DeleteGpadl { id: u64, gpadl_id: u32 },
    Release { id: u64 },
}

impl<W> RequestCommand<W> {
    /// The channel that the driver, or a new worker, is named; an awaited worker
    /// is known by its handle alone.
    pub open spec fn channel(self) -> Option<u64> {
        match self {
            RequestCommand::Open { id, .. } => Some(id),
            RequestCommand::StartWorker { id, .. } => Some(id),
            RequestCommand::Close { id } => Some(id),
            RequestCommand::AwaitWorker(_) => None,
            RequestCommand::CreateGpadl { id, .. } => Some(id),
            RequestCommand::DeleteGpadl { id, .. } => Some(id),
            RequestCommand::Release { id } => Some(id),
        }
    }
}

/// How the last command ended.
#[derive(Debug, PartialEq, Eq)]
pub enum RequestEvent<W> {
    /// The driver answered `Open`; `true` if it consented.
    Opened(bool),
    /// The worker runs; its end can be awaited on the handle.
    WorkerStarted(W),
    /// The driver answered `Close`; `true` if it closed the channel.
    Closed(bool),
    /// The awaited worker has ended.
    WorkerFinished,
    /// The driver answered `CreateGpadl`; `true` if it consented.
    GpadlCreated(bool),
    /// The driver answered `DeleteGpadl`; `true` if it deleted the GPADL.
    GpadlDeleted(bool),
    /// The driver answered `Release`; `true` if it released the channel.
    Released(bool),
}

/// What a handler waits for.
#[derive(Debug, PartialEq, Eq)]
pub enum RequestPhase {
    Opening,
    StartingWorker,
    Closing,
    AwaitingWorker,
    CreatingGpadl { gpadl_id: u32 },
    DeletingGpadl,
    /// The server has dropped the channel; the driver is closing it.
    Disconnecting,
    /// GPADLs that the server left behind are being deleted; `remaining` are
    /// still to come.
    Draining { remaining: Vec<u32> },
    Releasing,
}

/// The outcome of one step of a handler.
#[derive(Debug, PartialEq, Eq)]
pub enum RequestStep<W> {
    /// `command` is to be run, and the handler resumed in `phase`.
    Run { command: RequestCommand<W>, phase: RequestPhase },
    /// The handler has ended, with the answer that the request is owed. A server
    /// that has dropped the channel is owed none.
    Finish(Option<Reply>),
}

impl<W> RequestStep<W> {
    /// The step runs `command` and leaves the handler in `phase`.
    pub open spec fn runs(self, command: RequestCommand<W>, phase: RequestPhase) -> bool {
        self == RequestStep::Run { command, phase }
    }

    /// The step ends the handler with `reply`.
    pub open spec fn finishes(self, reply: Option<Reply>) -> bool {
        self == RequestStep::<W>::Finish(reply)
    }
}

/// The driver is told of the ring that the server names, on the first node.
pub open spec fn open_parameters(request: OpenRequest) -> OpenParameters {
    OpenParameters {
        ring_buffer_gpadl_handle: request.ring_gpadl_id,
        downstream_ring_buffer_page_offset: request.ring_offset,
        node_number: 0,
    }
}

/// The step in which the GPADLs of `remaining` of channel `id` are still to be
/// deleted, before the channel is released.
pub open spec fn drains<W>(id: u64, remaining: Seq<u32>, step: RequestStep<W>) -> bool {
    if remaining.len() == 0 {
        step.runs(RequestCommand::Release { id }, RequestPhase::Releasing)
    } else {
        &&& step matches RequestStep::Run { command, phase }
        &&& command == (RequestCommand::<W>::DeleteGpadl { id, gpadl_id: remaining.last() })
        &&& phase matches RequestPhase::Draining { remaining: rest }
        &&& rest@ == remaining.drop_last()
    }
}

/// A handler of `request` can be started for channel `id`: a GPADL that is to be
/// torn down is registered.
pub open spec fn can_start<S, W>(
    state: ProxyState<S, W>,
    id: u64,
    request: Option<ChannelRequest>,
) -> bool {
    request matches Some(ChannelRequest::TeardownGpadl(gpadl_id)) ==> state.registered(
        id,
    ).contains(gpadl_id)
}

/// What the start of a handler does. `None` stands for a server that has dropped
/// the channel.
pub open spec fn starts<S, W>(
    pre: ProxyState<S, W>,
    id: u64,
    request: Option<ChannelRequest>,
    post: ProxyState<S, W>,
    step: RequestStep<W>,
) -> bool {
    match request {
        Some(ChannelRequest::Open(open)) => {
            &&& post == pre
            &&& if open.event_backed {
                step.runs(
                    RequestCommand::Open { id, parameters: open_parameters(open) },
                    RequestPhase::Opening,
                )
            } else {
                step.finishes(Some(Reply::Open(false)))
            }
        },
        Some(ChannelRequest::Close) => {
            &&& post == pre
            &&& step.runs(RequestCommand::Close { id }, RequestPhase::Closing)
        },
        Some(ChannelRequest::Gpadl(gpadl)) => {
            &&& post == pre
            &&& step matches RequestStep::Run { command, phase }
            &&& command matches RequestCommand::CreateGpadl { id: channel, gpadl_id, count, buf }
            &&& channel == id
            &&& gpadl_id == gpadl.id
            &&& count == gpadl.count
            &&& crate::memory::is_memory_image(gpadl.buf@, buf@)
            &&& phase == (RequestPhase::CreatingGpadl { gpadl_id: gpadl.id })
        },
        Some(ChannelRequest::TeardownGpadl(gpadl_id)) => {
            &&& post == pre.with_gpadls(id, pre.registered(id).remove(gpadl_id))
            &&& step.runs(
                RequestCommand::DeleteGpadl { id, gpadl_id },
                RequestPhase::DeletingGpadl,
            )
        },
        Some(ChannelRequest::Modify) => {
            &&& post == pre
            &&& step.finishes(Some(Reply::Modify(0)))
        },
        None => {
            &&& post == pre
            &&& step.runs(RequestCommand::Close { id }, RequestPhase::Disconnecting)
        },
    }
}

/// A handler in `phase` can take `event`: it is what the handler waits for, the
/// driver did not fail in what must not fail, and the task holds the channel, and
/// the worker, that the next step is about.
///
/// A failure to close is borne only where the server has dropped the channel; a
/// failure to delete a GPADL or to release a channel is never borne.
pub open spec fn can_resume<S, W>(
    state: ProxyState<S, W>,
    id: u64,
    phase: RequestPhase,
    event: RequestEvent<W>,
) -> bool {
    match phase {
        RequestPhase::Opening => event is Opened,
        RequestPhase::StartingWorker => event is WorkerStarted && state.channels.contains_key(id),
        RequestPhase::Closing => event == RequestEvent::<W>::Closed(true) && state.is_open(id),
        RequestPhase::AwaitingWorker => event is WorkerFinished,
        RequestPhase::CreatingGpadl { .. } => event is GpadlCreated,
        RequestPhase::DeletingGpadl => event == RequestEvent::<W>::GpadlDeleted(true),
        RequestPhase::Disconnecting => event is Closed,
        RequestPhase::Draining { .. } => event == RequestEvent::<W>::GpadlDeleted(true),
        RequestPhase::Releasing => event == RequestEvent::<W>::Released(true),
    }
}

/// What a handler does on an event that it can take.
pub open spec fn resumes<S, W>(
    pre: ProxyState<S, W>,
    id: u64,
    phase: RequestPhase,
    event: RequestEvent<W>,
    post: ProxyState<S, W>,
    step: RequestStep<W>,
) -> bool {
    match phase {
        RequestPhase::Opening => {
            &&& post == pre
            &&& if event == RequestEvent::<W>::Opened(true) {
                &&& step matches RequestStep::Run { command, phase }
                &&& command matches RequestCommand::StartWorker { id: channel, name }
                &&& channel == id
                &&& name@ == crate::worker::spec_worker_name(id)
                &&& phase is StartingWorker
            } else {
                step.finishes(Some(Reply::Open(false)))
            }
        },
        RequestPhase::StartingWorker => {
            &&& post == pre.with_worker(id, Some(event->WorkerStarted_0))
            &&& step.finishes(Some(Reply::Open(true)))
        },
        RequestPhase::Closing => {
            &&& post == pre.with_worker(id, None)
            &&& step.runs(
                RequestCommand::AwaitWorker(pre.channels[id].worker_result->0),
                RequestPhase::AwaitingWorker,
            )
        },
        RequestPhase::AwaitingWorker => {
            &&& post == pre
            &&& step.finishes(Some(Reply::Close))
        },
        RequestPhase::CreatingGpadl { gpadl_id } => {
            if event == RequestEvent::<W>::GpadlCreated(true) {
                &&& post == pre.with_gpadls(id, pre.registered(id).insert(gpadl_id))
                &&& step.finishes(Some(Reply::Gpadl(true)))
            } else {
                &&& post == pre
                &&& step.finishes(Some(Reply::Gpadl(false)))
            }
        },
        RequestPhase::DeletingGpadl => {
            &&& post == pre
            &&& step.finishes(Some(Reply::TeardownGpadl))
        },
        RequestPhase::Disconnecting => {
            &&& post == pre.without_gpadls(id)
            &&& exists|order: Seq<u32>|
                crate::table::lists(order, pre.registered(id)) && #[trigger] drains(
                    id,
                    order,
                    step,
                )
        },
        RequestPhase::Draining { remaining } => {
            &&& post == pre
            &&& drains(id, remaining@, step)
        },
        RequestPhase::Releasing => {
            &&& post == pre.without_channel(id)
            &&& step.finishes(None)
        },
    }
}

/// The next step of a handler that has the GPADLs of `remaining` of channel `id`
/// left to delete.
fn drain<W>(id: u64, remaining: Vec<u32>) -> (step: RequestStep<W>)
    ensures
        drains(id, remaining@, step),
{
    let mut remaining = remaining;
    match remaining.pop() {
        Some(gpadl_id) => RequestStep::Run {
            command: RequestCommand::DeleteGpadl { id, gpadl_id },
            phase: RequestPhase::Draining { remaining },
        },
        None => RequestStep::Run {
            command: RequestCommand::Release { id },
            phase: RequestPhase::Releasing,
        },
    }
}

impl<S, W> ProxyTask<S, W> {
    /// Whether a handler of `request` can be started for channel `proxy_id`.
    pub fn can_handle_request(&self, proxy_id: u64, request: &Option<ChannelRequest>) -> (can: bool)
        ensures
            can == can_start(self@, proxy_id, *request),
    {
        match request {
            Some(ChannelRequest::TeardownGpadl(gpadl_id)) => self.is_registered(
                proxy_id,
                *gpadl_id,
            ),
            _ => true,
        }
    }

    /// Starts the handler of `request` for channel `proxy_id`; of `None`, where
    /// the server has dropped the channel.
    pub fn handle_request(&mut self, proxy_id: u64, request: Option<ChannelRequest>) -> (step:
        RequestStep<W>)
        requires
            can_start(old(self)@, proxy_id, request),
        ensures
            starts(old(self)@, proxy_id, request, final(self)@, step),
    {
        match request {
            Some(ChannelRequest::Open(open)) => self.handle_open(proxy_id, &open),
            Some(ChannelRequest::Close) => RequestStep::Run {
                command: RequestCommand::Close { id: proxy_id },
                phase: RequestPhase::Closing,
            },
            Some(ChannelRequest::Gpadl(gpadl)) => self.handle_gpadl_create(proxy_id, &gpadl),
            Some(ChannelRequest::TeardownGpadl(gpadl_id)) => self.handle_gpadl_teardown(
                proxy_id,
                gpadl_id,
            ),
            // The server moves the target processor by itself; the driver has
            // nothing to do.
            Some(ChannelRequest::Modify) => RequestStep::Finish(Some(Reply::Modify(0))),
            None => RequestStep::Run {
                command: RequestCommand::Close { id: proxy_id },
                phase: RequestPhase::Disconnecting,
            },
        }
    }

    /// The start of the handler that opens a channel. A guest interrupt that no event
    /// backs cannot be handed to the driver, so such a request fails.
    pub fn handle_open(&self, proxy_id: u64, request: &OpenRequest) -> (step: RequestStep<W>)
        ensures
            request.event_backed ==> step.runs(
                RequestCommand::Open { id: proxy_id, parameters: open_parameters(*request) },
                RequestPhase::Opening,
            ),
            !request.event_backed ==> step.finishes(Some(Reply::Open(false))),
    {
        if !request.event_backed {
            return RequestStep::Finish(Some(Reply::Open(false)));
        }
        RequestStep::Run {
            command: RequestCommand::Open {
                id: proxy_id,
                parameters: OpenParameters {
                    ring_buffer_gpadl_handle: request.ring_gpadl_id,
                    downstream_ring_buffer_page_offset: request.ring_offset,
                    node_number: 0,
                },
            },
            phase: RequestPhase::Opening,
        }
    }

    /// The start of the handler that registers a GPADL: its words go to the driver as
    /// they lie in memory.
    pub fn handle_gpadl_create(&self, proxy_id: u64, request: &GpadlRequest) -> (step:
        RequestStep<W>)
        ensures
            step matches RequestStep::Run { command, phase } && {
                &&& command matches RequestCommand::CreateGpadl { id, gpadl_id, count, buf }
                &&& id == proxy_id
                &&& gpadl_id == request.id
                &&& count == request.count
                &&& crate::memory::is_memory_image(request.buf@, buf@)
                &&& phase == (RequestPhase::CreatingGpadl { gpadl_id: request.id })
            },
    {
        let bytes = words_as_bytes(request.buf.as_slice());
        let mut buf: Vec<u8> = Vec::new();
        buf.extend_from_slice(bytes);
        assert(buf@ =~= bytes@);
        RequestStep::Run {
            command: RequestCommand::CreateGpadl {
                id: proxy_id,
                gpadl_id: request.id,
                count: request.count as u32,
                buf,
            },
            phase: RequestPhase::CreatingGpadl { gpadl_id: request.id },
        }
    }

    /// The start of the handler that tears a GPADL down.
    pub fn handle_gpadl_teardown(&mut self, proxy_id: u64, gpadl_id: u32) -> (step: RequestStep<W>)
        requires
            old(self)@.registered(proxy_id).contains(gpadl_id),
        ensures
            final(self)@ == old(self)@.with_gpadls(
                proxy_id,
                old(self)@.registered(proxy_id).remove(gpadl_id),
            ),
            step.runs(
                RequestCommand::DeleteGpadl { id: proxy_id, gpadl_id },
                RequestPhase::DeletingGpadl,
            ),
    {
        self.unregister_gpadl(proxy_id, gpadl_id);
        RequestStep::Run {
            command: RequestCommand::DeleteGpadl { id: proxy_id, gpadl_id },
            phase: RequestPhase::DeletingGpadl,
        }
    }

    /// Whether the handler that waits in `phase` for channel `proxy_id` can take
    /// `event`.
    pub fn can_resume_request(
        &self,
        proxy_id: u64,
        phase: &RequestPhase,
        event: &RequestEvent<W>,
    ) -> (can: bool)
        ensures
            can == can_resume(self@, proxy_id, *phase, *event),
    {
        match (phase, event) {
            (RequestPhase::Opening, RequestEvent::Opened(_)) => true,
            (RequestPhase::StartingWorker, RequestEvent::WorkerStarted(_)) => self.has_channel(
                proxy_id,
            ),
            (RequestPhase::Closing, RequestEvent::Closed(true)) => self.is_open(proxy_id),
            (RequestPhase::AwaitingWorker, RequestEvent::WorkerFinished) => true,
            (RequestPhase::CreatingGpadl { .. }, RequestEvent::GpadlCreated(_)) => true,
            (RequestPhase::DeletingGpadl, RequestEvent::GpadlDeleted(true)) => true,
            (RequestPhase::Disconnecting, RequestEvent::Closed(_)) => true,
            (RequestPhase::Draining { .. }, RequestEvent::GpadlDeleted(true)) => true,
            (RequestPhase::Releasing, RequestEvent::Released(true)) => true,
            _ => false,
        }
    }

    /// Resumes the handler that waits in `phase` for channel `proxy_id`.
    pub fn resume_request(
        &mut self,
        proxy_id: u64,
        phase: RequestPhase,
        event: RequestEvent<W>,
    ) -> (step: RequestStep<W>)
        requires
            can_resume(old(self)@, proxy_id, phase, event),
        ensures
            resumes(old(self)@, proxy_id, phase, event, final(self)@, step),
    {
        match phase {
            RequestPhase::Opening => match event {
                RequestEvent::Opened(true) => RequestStep::Run {
                    command: RequestCommand::StartWorker {
                        id: proxy_id,
                        name: worker_name(proxy_id),
                    },
                    phase: RequestPhase::StartingWorker,
                },
                _ => RequestStep::Finish(Some(Reply::Open(false))),
            },
            RequestPhase::StartingWorker => {
                if let RequestEvent::WorkerStarted(worker) = event {
                    self.set_worker(proxy_id, worker);
                }
                RequestStep::Finish(Some(Reply::Open(true)))
            },
            RequestPhase::Closing => self.handle_close(proxy_id),
            RequestPhase::AwaitingWorker => RequestStep::Finish(Some(Reply::Close)),
            RequestPhase::CreatingGpadl { gpadl_id } => match event {
                RequestEvent::GpadlCreated(true) => {
                    self.register_gpadl(proxy_id, gpadl_id);
                    RequestStep::Finish(Some(Reply::Gpadl(true)))
                },
                _ => RequestStep::Finish(Some(Reply::Gpadl(false))),
            },
            RequestPhase::DeletingGpadl => RequestStep::Finish(Some(Reply::TeardownGpadl)),
            // The driver does not bear the release of a channel that has GPADLs.
            RequestPhase::Disconnecting => drain(proxy_id, self.take_gpadls(proxy_id)),
            RequestPhase::Draining { remaining } => drain(proxy_id, remaining),
            RequestPhase::Releasing => {
                self.remove_channel(proxy_id);
                RequestStep::Finish(None)
            },
        }
    }

    /// The handler that closes a channel, once the driver has closed it: the
    /// channel's worker is still to be awaited.
    pub fn handle_close(&mut self, proxy_id: u64) -> (step: RequestStep<W>)
        requires
            old(self)@.is_open(proxy_id),
        ensures
            final(self)@ == old(self)@.with_worker(proxy_id, None),
            step.runs(
                RequestCommand::AwaitWorker(old(self)@.channels[proxy_id].worker_result->0),
                RequestPhase::AwaitingWorker,
            ),
    {
        let worker = self.take_worker(proxy_id).unwrap();
        RequestStep::Run {
            command: RequestCommand::AwaitWorker(worker),
            phase: RequestPhase::AwaitingWorker,
        }
    }
}

} // verus!
