//! What each single step of the task does, said of the maps, of the fields and of
//! the bytes themselves.

use crate::driver::DriverCommand;
use crate::driver::DriverEvent;
use crate::driver::DriverPhase;
use crate::driver::DriverStep;
use crate::driver::ProxyAction;
use crate::intake::IntakeCommand;
use crate::intake::IntakeEvent;
use crate::offer::ChannelOffer;
use crate::offer::ChannelType;
use crate::offer::OfferEncoding;
use crate::offer::OfferParams;
use crate::request::ChannelRequest;
use crate::request::GpadlRequest;
use crate::request::OpenRequest;
use crate::request::Reply;
use crate::request::RequestCommand;
use crate::request::RequestEvent;
use crate::request::RequestPhase;
use crate::request::RequestStep;
use crate::table::ProxyState;
use crate::table::ProxyTask;
use vstd::prelude::*;

verus! {

/// Whatever the state of the channel, known or not, open or not, a handler can be
/// started that opens, closes, modifies or disconnects it or registers a GPADL.
/// One that tears a GPADL down can be started exactly if the GPADL is in the set
/// that the map holds for the channel.
pub proof fn law_which_handlers_can_start<S, W>(
    state: ProxyState<S, W>,
    id: u64,
    request: Option<ChannelRequest>,
)
    ensures
        request is None ==> crate::request::can_start(state, id, request),
        request matches Some(ChannelRequest::Open(_)) ==> crate::request::can_start(
            state,
            id,
            request,
        ),
        request == Some(ChannelRequest::Close) ==> crate::request::can_start(state, id, request),
        request matches Some(ChannelRequest::Gpadl(_)) ==> crate::request::can_start(
            state,
            id,
            request,
        ),
        request == Some(ChannelRequest::Modify) ==> crate::request::can_start(state, id, request),
        request matches Some(ChannelRequest::TeardownGpadl(gpadl_id)) ==> (
        crate::request::can_start(state, id, request) <==> state.gpadls.contains_key(id)
            && state.gpadls[id].contains(gpadl_id)),
{
}

/// An opening that an event backs asks the driver to open the handler's channel on
/// the very ring that the server named, on node zero; one that no event backs is
/// refused. Nothing is remembered of either yet.
pub proof fn law_open_starts<S, W>(
    pre: ProxyState<S, W>,
    id: u64,
    request: OpenRequest,
    post: ProxyState<S, W>,
    step: RequestStep<W>,
)
    requires
        crate::request::starts(pre, id, Some(ChannelRequest::Open(request)), post, step),
    ensures
        post.channels == pre.channels,
        post.gpadls == pre.gpadls,
        request.event_backed ==> (step matches RequestStep::Run {
            command: RequestCommand::Open { id: channel, parameters },
            phase,
        } && channel == id && parameters.ring_buffer_gpadl_handle == request.ring_gpadl_id
            && parameters.downstream_ring_buffer_page_offset == request.ring_offset
            && parameters.node_number == 0 && phase is Opening),
        !request.event_backed ==> (step matches RequestStep::Finish(Some(Reply::Open(opened)))
            && !opened),
{
}

/// A close asks the driver to close the handler's channel, and a channel that the
/// server has dropped is closed in the same way. Nothing is forgotten yet.
pub proof fn law_close_and_disconnect_start<S, W>(
    pre: ProxyState<S, W>,
    id: u64,
    request: Option<ChannelRequest>,
    post: ProxyState<S, W>,
    step: RequestStep<W>,
)
    requires
        request is None || request == Some(ChannelRequest::Close),
        crate::request::starts(pre, id, request, post, step),
    ensures
        post.channels == pre.channels,
        post.gpadls == pre.gpadls,
        step matches RequestStep::Run { command: RequestCommand::Close { id: channel }, phase }
            && channel == id && (request is None ==> phase is Disconnecting) && (request is Some
            ==> phase is Closing),
{
}

/// A registration hands the driver the number, the count and the words that the
/// server named, eight bytes to a word in the byte order of the machine. Nothing
/// is remembered of it yet.
pub proof fn law_gpadl_starts<S, W>(
    pre: ProxyState<S, W>,
    id: u64,
    request: GpadlRequest,
    post: ProxyState<S, W>,
    step: RequestStep<W>,
)
    requires
        crate::request::starts(pre, id, Some(ChannelRequest::Gpadl(request)), post, step),
    ensures
        post.channels == pre.channels,
        post.gpadls == pre.gpadls,
        step matches RequestStep::Run {
            command: RequestCommand::CreateGpadl { id: channel, gpadl_id, count, buf },
            phase,
        } && channel == id && gpadl_id == request.id && count == request.count && buf@.len() == 8
            * request.buf@.len() && (forall|i: int|
            0 <= i < request.buf@.len() ==> {
                &&& vstd::endian::endianness() is Little ==> #[trigger] request.buf@[i]
                    == crate::memory::spell(
                    buf@[8 * i],
                    buf@[8 * i + 1],
                    buf@[8 * i + 2],
                    buf@[8 * i + 3],
                ) + 0x1_0000_0000 * crate::memory::spell(
                    buf@[8 * i + 4],
                    buf@[8 * i + 5],
                    buf@[8 * i + 6],
                    buf@[8 * i + 7],
                )
                &&& vstd::endian::endianness() is Big ==> request.buf@[i] == crate::memory::spell(
                    buf@[8 * i + 7],
                    buf@[8 * i + 6],
                    buf@[8 * i + 5],
                    buf@[8 * i + 4],
                ) + 0x1_0000_0000 * crate::memory::spell(
                    buf@[8 * i + 3],
                    buf@[8 * i + 2],
                    buf@[8 * i + 1],
                    buf@[8 * i],
                )
            }) && phase == (RequestPhase::CreatingGpadl { gpadl_id: request.id }),
{
    let buf = step->command->buf;
    assert forall|i: int| 0 <= i < request.buf@.len() implies {
        &&& vstd::endian::endianness() is Little ==> #[trigger] request.buf@[i]
            == crate::memory::spell(
            buf@[8 * i],
            buf@[8 * i + 1],
            buf@[8 * i + 2],
            buf@[8 * i + 3],
        ) + 0x1_0000_0000 * crate::memory::spell(
            buf@[8 * i + 4],
            buf@[8 * i + 5],
            buf@[8 * i + 6],
            buf@[8 * i + 7],
        )
        &&& vstd::endian::endianness() is Big ==> request.buf@[i] == crate::memory::spell(
            buf@[8 * i + 7],
            buf@[8 * i + 6],
            buf@[8 * i + 5],
            buf@[8 * i + 4],
        ) + 0x1_0000_0000 * crate::memory::spell(
            buf@[8 * i + 3],
            buf@[8 * i + 2],
            buf@[8 * i + 1],
            buf@[8 * i],
        )
    } by {
        crate::memory::law_image_spells_words(request.buf@, buf@, i);
    }
}

/// A teardown takes the one GPADL out of the set of the one channel, before the
/// driver is asked to delete that GPADL of that channel.
pub proof fn law_teardown_starts<S, W>(
    pre: ProxyState<S, W>,
    id: u64,
    gpadl_id: u32,
    post: ProxyState<S, W>,
    step: RequestStep<W>,
)
    requires
        pre.gpadls.contains_key(id),
        pre.gpadls[id].contains(gpadl_id),
        crate::request::starts(
            pre,
            id,
            Some(ChannelRequest::TeardownGpadl(gpadl_id)),
            post,
            step,
        ),
    ensures
        post.channels == pre.channels,
        post.gpadls.dom() == pre.gpadls.dom(),
        forall|other: u64|
            other != id && pre.gpadls.contains_key(other) ==> #[trigger] post.gpadls[other]
                == pre.gpadls[other],
        forall|g: u32|
            #[trigger] post.gpadls[id].contains(g) <==> pre.gpadls[id].contains(g) && g != gpadl_id,
        step matches RequestStep::Run {
            command: RequestCommand::DeleteGpadl { id: channel, gpadl_id: deleted },
            phase,
        } && channel == id && deleted == gpadl_id && phase is DeletingGpadl,
{
    assert(post.gpadls.dom() =~= pre.gpadls.dom());
}

/// A change of the target processor is answered with zero at once.
pub proof fn law_modify_starts<S, W>(
    pre: ProxyState<S, W>,
    id: u64,
    post: ProxyState<S, W>,
    step: RequestStep<W>,
)
    requires
        crate::request::starts(pre, id, Some(ChannelRequest::Modify), post, step),
    ensures
        post.channels == pre.channels,
        post.gpadls == pre.gpadls,
        step matches RequestStep::Finish(Some(Reply::Modify(status))) && status == 0,
{
}

/// Which answer each waiting handler can go on with. A new worker needs its channel
/// known, a close needs it known and with a worker; nothing else is asked of the
/// maps. Driver failures are borne of an opening, of a registration and of the
/// close of a dropped channel, and of nothing else.
pub proof fn law_which_handlers_can_go_on<S, W>(
    state: ProxyState<S, W>,
    id: u64,
    ok: bool,
    worker: W,
    gpadl_id: u32,
    remaining: Vec<u32>,
)
    ensures
        crate::request::can_resume(
            state,
            id,
            RequestPhase::Opening,
            RequestEvent::<W>::Opened(ok),
        ),
        crate::request::can_resume(
            state,
            id,
            RequestPhase::StartingWorker,
            RequestEvent::WorkerStarted(worker),
        ) <==> state.channels.contains_key(id),
        crate::request::can_resume(
            state,
            id,
            RequestPhase::Closing,
            RequestEvent::<W>::Closed(ok),
        ) <==> ok && state.channels.contains_key(id)
            && state.channels[id].worker_result is Some,
        crate::request::can_resume(
            state,
            id,
            RequestPhase::AwaitingWorker,
            RequestEvent::<W>::WorkerFinished,
        ),
        crate::request::can_resume(
            state,
            id,
            RequestPhase::CreatingGpadl { gpadl_id },
            RequestEvent::<W>::GpadlCreated(ok),
        ),
        crate::request::can_resume(
            state,
            id,
            RequestPhase::DeletingGpadl,
            RequestEvent::<W>::GpadlDeleted(ok),
        ) <==> ok,
        crate::request::can_resume(
            state,
            id,
            RequestPhase::Disconnecting,
            RequestEvent::<W>::Closed(ok),
        ),
        crate::request::can_resume(
            state,
            id,
            RequestPhase::Draining { remaining },
            RequestEvent::<W>::GpadlDeleted(ok),
        ) <==> ok,
        crate::request::can_resume(
            state,
            id,
            RequestPhase::Releasing,
            RequestEvent::<W>::Released(ok),
        ) <==> ok,
{
}

/// A handler goes on with nothing but the answer to the command that it named.
pub proof fn law_handlers_wait_for_their_answer<S, W>(
    state: ProxyState<S, W>,
    id: u64,
    phase: RequestPhase,
    event: RequestEvent<W>,
)
    requires
        crate::request::can_resume(state, id, phase, event),
    ensures
        phase is Opening <==> event is Opened,
        phase is StartingWorker <==> event is WorkerStarted,
        phase is Closing || phase is Disconnecting <==> event is Closed,
        phase is AwaitingWorker <==> event is WorkerFinished,
        phase is CreatingGpadl <==> event is GpadlCreated,
        phase is DeletingGpadl || phase is Draining <==> event is GpadlDeleted,
        phase is Releasing <==> event is Released,
{
}

/// Once the driver has answered an opening, a worker for the handler's channel is
/// started under the channel's name if the driver consented, and the opening is
/// refused if it did not. Nothing is remembered of either yet.
pub proof fn law_opened<S, W>(
    pre: ProxyState<S, W>,
    id: u64,
    opened: bool,
    post: ProxyState<S, W>,
    step: RequestStep<W>,
)
    requires
        crate::request::resumes(
            pre,
            id,
            RequestPhase::Opening,
            RequestEvent::<W>::Opened(opened),
            post,
            step,
        ),
    ensures
        post.channels == pre.channels,
        post.gpadls == pre.gpadls,
        opened ==> (step matches RequestStep::Run {
            command: RequestCommand::StartWorker { id: channel, name },
            phase,
        } && channel == id && name@.len() > 19 && name@.take(19) == "vmbus proxy worker "@
            && crate::worker::is_numeral(name@.skip(19), id as nat) && phase is StartingWorker),
        !opened ==> (step matches RequestStep::Finish(Some(Reply::Open(ok))) && !ok),
{
    if opened {
        crate::worker::law_worker_name_ends_in_number(id);
    }
}

/// A worker that runs is remembered as the worker of its channel, and of no other;
/// all else stays, and the opening is granted.
pub proof fn law_worker_started<S, W>(
    pre: ProxyState<S, W>,
    id: u64,
    worker: W,
    post: ProxyState<S, W>,
    step: RequestStep<W>,
)
    requires
        pre.channels.contains_key(id),
        crate::request::resumes(
            pre,
            id,
            RequestPhase::StartingWorker,
            RequestEvent::WorkerStarted(worker),
            post,
            step,
        ),
    ensures
        post.gpadls == pre.gpadls,
        post.channels.dom() == pre.channels.dom(),
        forall|other: u64|
            other != id && pre.channels.contains_key(other) ==> #[trigger] post.channels[other]
                == pre.channels[other],
        post.channels[id].worker_result == Some(worker),
        post.channels[id].server_request_send == pre.channels[id].server_request_send,
        step matches RequestStep::Finish(Some(Reply::Open(ok))) && ok,
{
    assert(post.channels.dom() =~= pre.channels.dom());
}

/// The close of a channel takes the channel's worker out, to be awaited, and
/// nothing else.
pub proof fn law_closed<S, W>(
    pre: ProxyState<S, W>,
    id: u64,
    worker: W,
    post: ProxyState<S, W>,
    step: RequestStep<W>,
)
    requires
        pre.channels.contains_key(id),
        pre.channels[id].worker_result == Some(worker),
        crate::request::resumes(
            pre,
            id,
            RequestPhase::Closing,
            RequestEvent::<W>::Closed(true),
            post,
            step,
        ),
    ensures
        post.gpadls == pre.gpadls,
        post.channels.dom() == pre.channels.dom(),
        forall|other: u64|
            other != id && pre.channels.contains_key(other) ==> #[trigger] post.channels[other]
                == pre.channels[other],
        post.channels[id].worker_result is None,
        post.channels[id].server_request_send == pre.channels[id].server_request_send,
        step matches RequestStep::Run { command: RequestCommand::AwaitWorker(awaited), phase }
            && awaited == worker && phase is AwaitingWorker,
{
    assert(post.channels.dom() =~= pre.channels.dom());
}

/// The end of the worker answers the close, and the deletion of a GPADL its
/// teardown; neither changes anything more.
pub proof fn law_close_and_teardown_end<S, W>(
    pre: ProxyState<S, W>,
    id: u64,
    phase: RequestPhase,
    event: RequestEvent<W>,
    post: ProxyState<S, W>,
    step: RequestStep<W>,
)
    requires
        phase is AwaitingWorker || phase is DeletingGpadl,
        crate::request::can_resume(pre, id, phase, event),
        crate::request::resumes(pre, id, phase, event, post, step),
    ensures
        post.channels == pre.channels,
        post.gpadls == pre.gpadls,
        phase is AwaitingWorker ==> (step matches RequestStep::Finish(Some(reply)) && reply
            is Close),
        phase is DeletingGpadl ==> (step matches RequestStep::Finish(Some(reply)) && reply
            is TeardownGpadl),
{
}

/// A GPADL to which the driver consented joins the set of its channel, which is
/// made where there was none; one that the driver refused leaves everything as it
/// was. The channels are left alone either way, the worker of an open one too.
pub proof fn law_gpadl_created<S, W>(
    pre: ProxyState<S, W>,
    id: u64,
    gpadl_id: u32,
    created: bool,
    post: ProxyState<S, W>,
    step: RequestStep<W>,
)
    requires
        crate::request::resumes(
            pre,
            id,
            RequestPhase::CreatingGpadl { gpadl_id },
            RequestEvent::<W>::GpadlCreated(created),
            post,
            step,
        ),
    ensures
        post.channels == pre.channels,
        !created ==> post.gpadls == pre.gpadls,
        created ==> post.gpadls.dom() == pre.gpadls.dom().insert(id),
        created ==> forall|other: u64|
            other != id && pre.gpadls.contains_key(other) ==> #[trigger] post.gpadls[other]
                == pre.gpadls[other],
        created ==> forall|g: u32|
            #[trigger] post.gpadls[id].contains(g) <==> g == gpadl_id || (pre.gpadls.contains_key(
                id,
            ) && pre.gpadls[id].contains(g)),
        step matches RequestStep::Finish(Some(Reply::Gpadl(ok))) && ok == created,
{
    if created {
        assert(post.gpadls.dom() =~= pre.gpadls.dom().insert(id));
    }
}

/// Once a dropped channel is closed, or could not be, its GPADLs are forgotten. If
/// there were any, the driver is asked to delete one of them, and the handler keeps
/// each of the others once; if there were none, it is asked to release the channel.
/// The channel itself is not forgotten yet.
pub proof fn law_disconnected<S, W>(
    pre: ProxyState<S, W>,
    id: u64,
    closed: bool,
    post: ProxyState<S, W>,
    step: RequestStep<W>,
)
    requires
        crate::request::resumes(
            pre,
            id,
            RequestPhase::Disconnecting,
            RequestEvent::<W>::Closed(closed),
            post,
            step,
        ),
    ensures
        post.channels == pre.channels,
        post.gpadls.dom() == pre.gpadls.dom().remove(id),
        forall|other: u64|
            other != id && pre.gpadls.contains_key(other) ==> #[trigger] post.gpadls[other]
                == pre.gpadls[other],
        match step {
            RequestStep::Run { command, phase } => match phase {
                RequestPhase::Draining { remaining } => {
                    &&& pre.gpadls.contains_key(id)
                    &&& command matches RequestCommand::DeleteGpadl { id: channel, gpadl_id }
                    &&& channel == id
                    &&& pre.gpadls[id].contains(gpadl_id)
                    &&& !remaining@.contains(gpadl_id)
                    &&& forall|i: int, j: int|
                        0 <= i < j < remaining@.len() ==> remaining@[i] != remaining@[j]
                    &&& forall|g: u32|
                        #[trigger] remaining@.contains(g) <==> pre.gpadls[id].contains(g) && g
                            != gpadl_id
                },
                RequestPhase::Releasing => {
                    &&& command matches RequestCommand::Release { id: channel }
                    &&& channel == id
                    &&& pre.gpadls.contains_key(id) ==> forall|g: u32|
                        !pre.gpadls[id].contains(g)
                },
                _ => false,
            },
            RequestStep::Finish(_) => false,
        },
{
    assert(post.gpadls.dom() =~= pre.gpadls.dom().remove(id));
    let order = choose|order: Seq<u32>|
        crate::table::lists(order, pre.registered(id)) && #[trigger] crate::request::drains(
            id,
            order,
            step,
        );
    let registered = order.to_set();
    assert(forall|g: u32| #[trigger] registered.contains(g) <==> order.contains(g));
    if order.len() > 0 {
        let last = order.last();
        let rest = order.drop_last();
        assert(order.contains(last));
        assert(registered.contains(last));
        assert forall|g: u32| #[trigger] rest.contains(g) <==> registered.contains(g) && g
            != last by {
            if rest.contains(g) {
                let i = rest.index_of(g);
                assert(order[i] == g);
                assert(order.contains(g));
            }
            if order.contains(g) && g != last {
                let i = order.index_of(g);
                assert(rest[i] == g);
            }
        }
    } else {
        assert(forall|g: u32| !registered.contains(g));
    }
}

/// Each GPADL that a handler has kept is deleted in its turn, and the channel is
/// released after the last of them. The maps are left alone meanwhile.
pub proof fn law_drained<S, W>(
    pre: ProxyState<S, W>,
    id: u64,
    remaining: Vec<u32>,
    post: ProxyState<S, W>,
    step: RequestStep<W>,
)
    requires
        crate::request::resumes(
            pre,
            id,
            RequestPhase::Draining { remaining },
            RequestEvent::<W>::GpadlDeleted(true),
            post,
            step,
        ),
    ensures
        post.channels == pre.channels,
        post.gpadls == pre.gpadls,
        remaining@.len() == 0 ==> (step matches RequestStep::Run {
            command: RequestCommand::Release { id: channel },
            phase,
        } && channel == id && phase is Releasing),
        remaining@.len() > 0 ==> (step matches RequestStep::Run {
            command: RequestCommand::DeleteGpadl { id: channel, gpadl_id },
            phase: RequestPhase::Draining { remaining: rest },
        } && channel == id && rest@.push(gpadl_id) == remaining@),
{
    if remaining@.len() > 0 {
        assert(remaining@ =~= remaining@.drop_last().push(remaining@.last()));
    }
}

/// A channel that the driver has released is forgotten, and it alone; nobody is
/// owed an answer.
pub proof fn law_released<S, W>(
    pre: ProxyState<S, W>,
    id: u64,
    post: ProxyState<S, W>,
    step: RequestStep<W>,
)
    requires
        crate::request::resumes(
            pre,
            id,
            RequestPhase::Releasing,
            RequestEvent::<W>::Released(true),
            post,
            step,
        ),
    ensures
        post.gpadls == pre.gpadls,
        post.channels.dom() == pre.channels.dom().remove(id),
        forall|other: u64|
            other != id && pre.channels.contains_key(other) ==> #[trigger] post.channels[other]
                == pre.channels[other],
        step matches RequestStep::Finish(reply) && reply is None,
{
    assert(post.channels.dom() =~= pre.channels.dom().remove(id));
}

/// The first four bytes of a pipe's offer spell `mode`, in the byte order of the
/// machine.
pub open spec fn spells_mode(bytes: Seq<u8>, mode: u32) -> bool {
    &&& vstd::endian::endianness() is Little ==> mode == crate::memory::spell(
        bytes[0],
        bytes[1],
        bytes[2],
        bytes[3],
    )
    &&& vstd::endian::endianness() is Big ==> mode == crate::memory::spell(
        bytes[3],
        bytes[2],
        bytes[1],
        bytes[0],
    )
}

/// An offer can be made to the server exactly if its flags do not make it a pipe,
/// or its first four bytes are there and spell one of the two known modes.
pub proof fn law_which_offers_are_supported(encoding: OfferEncoding, offer: ChannelOffer)
    ensures
        encoding.supported(offer) <==> offer.channel_flags & encoding.enumerate_device_interface
            == 0 || (offer.user_defined@.len() >= 4 && (spells_mode(
            offer.user_defined@,
            encoding.pipe_type_byte,
        ) || spells_mode(offer.user_defined@, encoding.pipe_type_message))),
{
    if offer.user_defined@.len() >= 4 {
        crate::memory::law_memory_value_of_four(offer.user_defined@.take(4));
    }
}

/// What the server is told of a supported offer, field by field. Flags and mode
/// decide on nothing but the kind of channel and the monitored notification.
pub proof fn law_offer_is_described(
    encoding: OfferEncoding,
    id: u64,
    offer: ChannelOffer,
    params: OfferParams,
)
    requires
        encoding.supported(offer),
        encoding.describes(id, offer, params),
    ensures
        params.interface_name@ == "proxy"@,
        params.interface_id == offer.interface_type,
        params.instance_id == offer.interface_instance,
        params.mmio_megabytes == offer.mmio_megabytes,
        params.mmio_megabytes_optional == offer.mmio_megabytes_optional,
        params.subchannel_index == offer.subchannel_index,
        params.use_mnf <==> offer.channel_flags & encoding.request_monitored_notification != 0,
        params.offer_order matches Some(order) ==> order == id,
        params.offer_order is None <==> id > 0xffff_ffff,
        offer.channel_flags & encoding.enumerate_device_interface == 0 ==> (params.channel_type
            matches ChannelType::Device { pipe_packets } && (pipe_packets <==> offer.channel_flags
            & encoding.named_pipe_mode != 0)),
        offer.channel_flags & encoding.enumerate_device_interface != 0 ==> (params.channel_type
            matches ChannelType::Pipe { message_mode } && (!message_mode <==> spells_mode(
            offer.user_defined@,
            encoding.pipe_type_byte,
        )) && (message_mode ==> spells_mode(offer.user_defined@, encoding.pipe_type_message))),
{
    if offer.user_defined@.len() >= 4 {
        crate::memory::law_memory_value_of_four(offer.user_defined@.take(4));
    }
}

/// Between two actions, a revocation can be taken exactly if the channel is in the
/// map, open or not, with a handle or without; an offer exactly if it is not one of
/// a pipe or its mode is a known one, whatever the maps hold; a change of the
/// interrupt policy and the end of the actions always. Nothing else is waited for.
pub proof fn law_which_actions_can_be_taken<S, W>(
    encoding: OfferEncoding,
    state: ProxyState<S, W>,
    event: DriverEvent<S>,
)
    ensures
        event matches DriverEvent::Action(ProxyAction::Revoke { id }) ==> (
        crate::driver::can_take(encoding, state, DriverPhase::Idle, event)
            <==> state.channels.contains_key(id)),
        event matches DriverEvent::Action(ProxyAction::Offer { id, offer }) ==> (
        crate::driver::can_take(encoding, state, DriverPhase::Idle, event) <==> offer.channel_flags
            & encoding.enumerate_device_interface == 0 || (offer.user_defined@.len() >= 4 && (
        spells_mode(offer.user_defined@, encoding.pipe_type_byte) || spells_mode(
            offer.user_defined@,
            encoding.pipe_type_message,
        )))),
        event == DriverEvent::<S>::Action(ProxyAction::InterruptPolicy) ==> crate::driver::can_take(
            encoding,
            state,
            DriverPhase::Idle,
            event,
        ),
        event is Ended ==> crate::driver::can_take(encoding, state, DriverPhase::Idle, event),
        event is Accepted || event is Rejected || event is Released ==> !crate::driver::can_take(
            encoding,
            state,
            DriverPhase::Idle,
            event,
        ),
{
    if let DriverEvent::Action(ProxyAction::Offer { id, offer }) = event {
        law_which_offers_are_supported(encoding, offer);
    }
}

/// While an offer is out, the server's answer can be taken, either way, and nothing
/// else; while a release is out, the driver's success, and nothing else. Neither
/// rests on what the maps hold.
pub proof fn law_which_answers_can_be_taken<S, W>(
    encoding: OfferEncoding,
    state: ProxyState<S, W>,
    id: u64,
    event: DriverEvent<S>,
)
    ensures
        crate::driver::can_take(encoding, state, DriverPhase::Offering { id }, event) <==> event
            is Accepted || event is Rejected,
        crate::driver::can_take(encoding, state, DriverPhase::Releasing { id }, event) <==> event
            == DriverEvent::<S>::Released(true),
{
}

/// The driver's offer is passed on to the server, every field as the driver gave
/// it, and its answer is awaited. Nothing is remembered of it yet.
pub proof fn law_offer_is_passed_on<S, W>(
    encoding: OfferEncoding,
    pre: ProxyState<S, W>,
    id: u64,
    offer: ChannelOffer,
    post: ProxyState<S, W>,
    step: DriverStep<S>,
)
    requires
        encoding.supported(offer),
        crate::driver::takes(
            encoding,
            pre,
            DriverPhase::Idle,
            DriverEvent::Action(ProxyAction::Offer { id, offer }),
            post,
            step,
        ),
    ensures
        post.channels == pre.channels,
        post.gpadls == pre.gpadls,
        step.phase == (DriverPhase::Offering { id }),
        step.command matches DriverCommand::Offer(params) && params.interface_name@ == "proxy"@
            && params.interface_id == offer.interface_type && params.instance_id
            == offer.interface_instance && params.mmio_megabytes == offer.mmio_megabytes
            && params.mmio_megabytes_optional == offer.mmio_megabytes_optional
            && params.subchannel_index == offer.subchannel_index && (params.use_mnf
            <==> offer.channel_flags & encoding.request_monitored_notification != 0) && (
        params.offer_order matches Some(order) ==> order == id) && (params.offer_order is None
            <==> id > 0xffff_ffff) && (params.channel_type is Pipe <==> offer.channel_flags
            & encoding.enumerate_device_interface != 0),
{
    law_offer_is_described(encoding, id, offer, step.command->Offer_0);
}

/// The server's answer makes the channel known, without a worker; with the handle
/// that came with a consent, which is also what has its requests forwarded, and
/// with none after a refusal. Nothing else is changed, and the driver's next action
/// is awaited.
pub proof fn law_answer_is_remembered<S, W>(
    encoding: OfferEncoding,
    pre: ProxyState<S, W>,
    id: u64,
    event: DriverEvent<S>,
    post: ProxyState<S, W>,
    step: DriverStep<S>,
)
    requires
        event is Accepted || event is Rejected,
        crate::driver::takes(
            encoding,
            pre,
            DriverPhase::Offering { id },
            event,
            post,
            step,
        ),
    ensures
        post.gpadls == pre.gpadls,
        post.channels.dom() == pre.channels.dom().insert(id),
        forall|other: u64|
            other != id && pre.channels.contains_key(other) ==> #[trigger] post.channels[other]
                == pre.channels[other],
        post.channels[id].worker_result is None,
        event matches DriverEvent::Accepted(sender) ==> post.channels[id].server_request_send
            == Some(sender),
        event is Rejected ==> post.channels[id].server_request_send is None,
        event is Accepted ==> step.command == (DriverCommand::<S>::Forward { id }),
        event is Rejected ==> step.command is Next,
        step.phase is Idle,
{
    assert(post.channels.dom() =~= pre.channels.dom().insert(id));
}

/// A revocation takes the handle out of the channel, to be dropped; where there is
/// none, the driver is asked for the release. The worker, and all else, stays.
pub proof fn law_revocation_takes_handle<S, W>(
    encoding: OfferEncoding,
    pre: ProxyState<S, W>,
    id: u64,
    post: ProxyState<S, W>,
    step: DriverStep<S>,
)
    requires
        pre.channels.contains_key(id),
        crate::driver::takes(
            encoding,
            pre,
            DriverPhase::Idle,
            DriverEvent::Action(ProxyAction::Revoke { id }),
            post,
            step,
        ),
    ensures
        post.gpadls == pre.gpadls,
        post.channels.dom() == pre.channels.dom(),
        forall|other: u64|
            other != id && pre.channels.contains_key(other) ==> #[trigger] post.channels[other]
                == pre.channels[other],
        post.channels[id].server_request_send is None,
        post.channels[id].worker_result == pre.channels[id].worker_result,
        pre.channels[id].server_request_send matches Some(sender) ==> step.command
            == DriverCommand::Drop(sender) && step.phase is Idle,
        pre.channels[id].server_request_send is None ==> step.command == (DriverCommand::<
            S,
        >::Release { id }) && step.phase == (DriverPhase::Releasing { id }),
{
    assert(post.channels.dom() =~= pre.channels.dom());
}

/// A change of the interrupt policy asks for nothing but the driver's next action;
/// the end of the actions ends the task. Neither changes anything.
pub proof fn law_policy_and_end_change_nothing<S, W>(
    encoding: OfferEncoding,
    pre: ProxyState<S, W>,
    event: DriverEvent<S>,
    post: ProxyState<S, W>,
    step: DriverStep<S>,
)
    requires
        event is Ended || event == DriverEvent::<S>::Action(ProxyAction::InterruptPolicy),
        crate::driver::takes(encoding, pre, DriverPhase::Idle, event, post, step),
    ensures
        post.channels == pre.channels,
        post.gpadls == pre.gpadls,
        step.phase is Idle,
        event is Ended ==> step.command is Stop,
        event is Action ==> step.command is Next,
{
}

/// A channel whose release the driver's loop has asked for is forgotten, and it
/// alone, and the driver's next action is awaited.
pub proof fn law_release_forgets_channel<S, W>(
    encoding: OfferEncoding,
    pre: ProxyState<S, W>,
    id: u64,
    post: ProxyState<S, W>,
    step: DriverStep<S>,
)
    requires
        crate::driver::takes(
            encoding,
            pre,
            DriverPhase::Releasing { id },
            DriverEvent::Released(true),
            post,
            step,
        ),
    ensures
        post.gpadls == pre.gpadls,
        post.channels.dom() == pre.channels.dom().remove(id),
        forall|other: u64|
            other != id && pre.channels.contains_key(other) ==> #[trigger] post.channels[other]
                == pre.channels[other],
        step.command is Next,
        step.phase is Idle,
{
    assert(post.channels.dom() =~= pre.channels.dom().remove(id));
}

/// A channel is open exactly if the map holds it with a worker; its GPADLs are
/// those of the set that the map holds for it, and none where it holds no set. A
/// new task holds nothing.
pub proof fn law_state_is_what_the_maps_hold<S, W>(state: ProxyState<S, W>, id: u64, gpadl_id: u32)
    ensures
        state.is_open(id) <==> state.channels.contains_key(id)
            && state.channels[id].worker_result is Some,
        state.registered(id).contains(gpadl_id) <==> state.gpadls.contains_key(id)
            && state.gpadls[id].contains(gpadl_id),
        !ProxyState::<S, W>::empty().channels.contains_key(id),
        !ProxyState::<S, W>::empty().gpadls.contains_key(id),
{
}

/// A task tells of itself what its maps hold.
pub proof fn law_task_tells_what_it_holds<S, W>(
    task: ProxyTask<S, W>,
    id: u64,
    gpadl_id: u32,
    known: bool,
    open: bool,
    registered: bool,
)
    requires
        call_ensures(ProxyTask::<S, W>::has_channel, (&task, id), known),
        call_ensures(ProxyTask::<S, W>::is_open, (&task, id), open),
        call_ensures(ProxyTask::<S, W>::is_registered, (&task, id, gpadl_id), registered),
    ensures
        known <==> task@.channels.contains_key(id),
        open <==> task@.channels.contains_key(id) && task@.channels[id].worker_result is Some,
        registered <==> task@.gpadls.contains_key(id) && task@.gpadls[id].contains(gpadl_id),
{
}

/// A new task knows no channel and no GPADL.
pub proof fn law_new_task_holds_nothing<S, W>(task: ProxyTask<S, W>, id: u64)
    requires
        call_ensures(ProxyTask::<S, W>::new, (), task),
    ensures
        !task@.channels.contains_key(id),
        !task@.gpadls.contains_key(id),
{
}

/// The task says that a handler can be started exactly if the GPADL that it is to
/// tear down, where it is to tear one down, is in the set of its channel.
pub proof fn law_task_tells_which_handlers_can_start<S, W>(
    task: ProxyTask<S, W>,
    id: u64,
    request: Option<ChannelRequest>,
    can: bool,
)
    requires
        call_ensures(ProxyTask::<S, W>::can_handle_request, (&task, id, &request), can),
    ensures
        can <==> (request matches Some(ChannelRequest::TeardownGpadl(gpadl_id))
            ==> task@.gpadls.contains_key(id) && task@.gpadls[id].contains(gpadl_id)),
{
}

/// The task says that a handler can go on exactly if the event answers what the
/// handler waits for, reports no failure that is not borne, and finds the channel,
/// and on a close the worker, in the map.
pub proof fn law_task_tells_which_handlers_can_go_on<S, W>(
    task: ProxyTask<S, W>,
    id: u64,
    phase: RequestPhase,
    event: RequestEvent<W>,
    can: bool,
)
    requires
        call_ensures(ProxyTask::<S, W>::can_resume_request, (&task, id, &phase, &event), can),
    ensures
        phase is Opening ==> (can <==> event is Opened),
        phase is StartingWorker ==> (can <==> event is WorkerStarted
            && task@.channels.contains_key(id)),
        phase is Closing ==> (can <==> event is Closed && event->Closed_0
            && task@.channels.contains_key(id) && task@.channels[id].worker_result is Some),
        phase is AwaitingWorker ==> (can <==> event is WorkerFinished),
        phase is CreatingGpadl ==> (can <==> event is GpadlCreated),
        phase is DeletingGpadl || phase is Draining ==> (can <==> event is GpadlDeleted
            && event->GpadlDeleted_0),
        phase is Disconnecting ==> (can <==> event is Closed),
        phase is Releasing ==> (can <==> event is Released && event->Released_0),
{
}

/// The task says between two actions that a revocation can be taken exactly if the
/// channel is in the map, and an offer exactly if it is supported, whatever else the
/// maps hold; while an answer is out, exactly that answer.
pub proof fn law_task_tells_which_events_can_be_taken<S, W>(
    task: ProxyTask<S, W>,
    encoding: OfferEncoding,
    phase: DriverPhase,
    event: DriverEvent<S>,
    can: bool,
)
    requires
        call_ensures(ProxyTask::<S, W>::can_run_offers, (&task, &encoding, &phase, &event), can),
    ensures
        phase is Idle ==> (event matches DriverEvent::Action(ProxyAction::Revoke { id }) ==> (can
            <==> task@.channels.contains_key(id))),
        phase is Idle ==> (event matches DriverEvent::Action(ProxyAction::Offer { offer, .. }) ==> (
        can <==> offer.channel_flags & encoding.enumerate_device_interface == 0 || (
        offer.user_defined@.len() >= 4 && (spells_mode(
            offer.user_defined@,
            encoding.pipe_type_byte,
        ) || spells_mode(offer.user_defined@, encoding.pipe_type_message))))),
        phase is Idle && event == DriverEvent::<S>::Action(ProxyAction::InterruptPolicy) ==> can,
        phase is Idle && event is Ended ==> can,
        phase is Idle && can ==> event is Action || event is Ended,
        phase is Offering ==> (can <==> event is Accepted || event is Rejected),
        phase is Releasing ==> (can <==> event is Released && event->Released_0),
{
    law_which_actions_can_be_taken(encoding, task@, event);
}

/// An opening can be asked of the task in any state, and hands the driver the ring
/// that the server named.
pub proof fn law_task_opens<S, W>(
    task: ProxyTask<S, W>,
    id: u64,
    request: OpenRequest,
    step: RequestStep<W>,
)
    requires
        call_ensures(ProxyTask::<S, W>::handle_open, (&task, id, &request), step),
    ensures
        call_requires(ProxyTask::<S, W>::handle_open, (&task, id, &request)),
        request.event_backed ==> (step matches RequestStep::Run {
            command: RequestCommand::Open { id: channel, parameters },
            phase,
        } && channel == id && parameters.ring_buffer_gpadl_handle == request.ring_gpadl_id
            && parameters.downstream_ring_buffer_page_offset == request.ring_offset
            && parameters.node_number == 0 && phase is Opening),
        !request.event_backed ==> (step matches RequestStep::Finish(Some(Reply::Open(opened)))
            && !opened),
{
}

/// A registration can be asked of the task in any state, and hands the driver the
/// words that the server named, the bytes of each in the byte order of the machine.
pub proof fn law_task_creates_gpadls<S, W>(
    task: ProxyTask<S, W>,
    id: u64,
    request: GpadlRequest,
    step: RequestStep<W>,
    i: int,
)
    requires
        call_ensures(ProxyTask::<S, W>::handle_gpadl_create, (&task, id, &request), step),
    ensures
        call_requires(ProxyTask::<S, W>::handle_gpadl_create, (&task, id, &request)),
        step matches RequestStep::Run {
            command: RequestCommand::CreateGpadl { id: channel, gpadl_id, count, buf },
            phase,
        } && channel == id && gpadl_id == request.id && count == request.count && buf@.len() == 8
            * request.buf@.len() && phase == (RequestPhase::CreatingGpadl { gpadl_id: request.id })
            && (0 <= i < request.buf@.len() && vstd::endian::endianness() is Little
            ==> request.buf@[i] == crate::memory::spell(
            buf@[8 * i],
            buf@[8 * i + 1],
            buf@[8 * i + 2],
            buf@[8 * i + 3],
        ) + 0x1_0000_0000 * crate::memory::spell(
            buf@[8 * i + 4],
            buf@[8 * i + 5],
            buf@[8 * i + 6],
            buf@[8 * i + 7],
        )) && (0 <= i < request.buf@.len() && vstd::endian::endianness() is Big
            ==> request.buf@[i] == crate::memory::spell(
            buf@[8 * i + 7],
            buf@[8 * i + 6],
            buf@[8 * i + 5],
            buf@[8 * i + 4],
        ) + 0x1_0000_0000 * crate::memory::spell(
            buf@[8 * i + 3],
            buf@[8 * i + 2],
            buf@[8 * i + 1],
            buf@[8 * i],
        )),
{
    if 0 <= i < request.buf@.len() {
        crate::memory::law_image_spells_words(request.buf@, step->command->buf@, i);
    }
}

/// An offer is said to be supported exactly if its flags do not make it a pipe, or its
/// first four bytes are there and spell one of the two known modes.
pub proof fn law_supported_offers_are_told(
    encoding: OfferEncoding,
    offer: ChannelOffer,
    supported: bool,
)
    requires
        call_ensures(OfferEncoding::is_supported, (&encoding, &offer), supported),
    ensures
        supported <==> offer.channel_flags & encoding.enumerate_device_interface == 0 || (
        offer.user_defined@.len() >= 4 && (spells_mode(
            offer.user_defined@,
            encoding.pipe_type_byte,
        ) || spells_mode(offer.user_defined@, encoding.pipe_type_message))),
{
    law_which_offers_are_supported(encoding, offer);
}

/// Every supported offer can be described, whatever its flags, and every field of the
/// description but the kind of channel is the driver's own.
pub proof fn law_supported_offers_are_described(
    encoding: OfferEncoding,
    id: u64,
    offer: ChannelOffer,
    supported: bool,
    params: OfferParams,
)
    requires
        call_ensures(OfferEncoding::is_supported, (&encoding, &offer), supported),
        supported,
        call_ensures(OfferEncoding::offer_params, (&encoding, id, &offer), params),
    ensures
        call_requires(OfferEncoding::offer_params, (&encoding, id, &offer)),
        params.interface_name@ == "proxy"@,
        params.interface_id == offer.interface_type,
        params.instance_id == offer.interface_instance,
        params.mmio_megabytes == offer.mmio_megabytes,
        params.mmio_megabytes_optional == offer.mmio_megabytes_optional,
        params.subchannel_index == offer.subchannel_index,
        params.use_mnf <==> offer.channel_flags & encoding.request_monitored_notification != 0,
        params.offer_order matches Some(order) ==> order == id,
        params.offer_order is None <==> id > 0xffff_ffff,
        params.channel_type is Pipe <==> offer.channel_flags & encoding.enumerate_device_interface
            != 0,
{
}

/// What is decoded of an offer's flags and mode: a pipe where the flags say so, and
/// then one of messages exactly if the mode is not that of bytes; else a device, with
/// pipe packets exactly if the flags say so.
pub proof fn law_channel_type_is_decoded(
    encoding: OfferEncoding,
    channel_flags: u16,
    pipe_mode: u32,
    channel_type: ChannelType,
)
    requires
        pipe_mode == encoding.pipe_type_byte || pipe_mode == encoding.pipe_type_message,
        call_ensures(
            OfferEncoding::decode_channel_type,
            (&encoding, channel_flags, pipe_mode),
            channel_type,
        ),
    ensures
        call_requires(OfferEncoding::decode_channel_type, (&encoding, channel_flags, pipe_mode)),
        channel_type is Pipe <==> channel_flags & encoding.enumerate_device_interface != 0,
        channel_type matches ChannelType::Pipe { message_mode } ==> (!message_mode <==> pipe_mode
            == encoding.pipe_type_byte),
        channel_type matches ChannelType::Device { pipe_packets } ==> (pipe_packets
            <==> channel_flags & encoding.named_pipe_mode != 0),
{
}

/// The name that a worker is given ends in the number of its channel.
pub proof fn law_worker_is_named(id: u64, name: String)
    requires
        call_ensures(crate::worker::worker_name, (id,), name),
    ensures
        name@.len() > 19,
        name@.take(19) == "vmbus proxy worker "@,
        crate::worker::is_numeral(name@.skip(19), id as nat),
{
    crate::worker::law_worker_name_ends_in_number(id);
}

/// The loop over the requests takes every event. It merges exactly the streams that
/// it is handed, starts a handler of exactly the requests that come, for the channels
/// that they come of, and stops exactly when all is over.
pub proof fn law_requests_are_taken_in<C, R>(event: IntakeEvent<C, R>, command: IntakeCommand<C, R>)
    requires
        call_ensures(crate::intake::run_channel_requests::<C, R>, (event,), command),
    ensures
        call_requires(crate::intake::run_channel_requests::<C, R>, (event,)),
        event is Stream <==> command is Merge,
        event matches IntakeEvent::Stream(stream) ==> command->Merge_0 == stream,
        event is Request <==> command is Spawn,
        event is Request ==> command->Spawn_proxy_id == event->proxy_id && command->Spawn_request
            == event->request,
        event is Complete <==> command is Stop,
{
}

/// The task starts a handler of any request, in any state in which a GPADL that is to
/// be torn down is in the set of its channel, and what the start does is what the
/// laws on starts speak of.
pub proof fn law_task_starts_handlers<S, W>(
    task: &mut ProxyTask<S, W>,
    id: u64,
    request: Option<ChannelRequest>,
    step: RequestStep<W>,
)
    requires
        request matches Some(ChannelRequest::TeardownGpadl(gpadl_id))
            ==> old(task)@.gpadls.contains_key(id) && old(task)@.gpadls[id].contains(gpadl_id),
        call_ensures(ProxyTask::<S, W>::handle_request, (task, id, request), step),
    ensures
        call_requires(ProxyTask::<S, W>::handle_request, (task, id, request)),
        crate::request::starts(old(task)@, id, request, final(task)@, step),
{
    law_which_handlers_can_start(old(task)@, id, request);
}

/// The task resumes a handler with any event that the handler can go on with, and
/// what it does then is what the laws on answers speak of.
pub proof fn law_task_resumes_handlers<S, W>(
    task: &mut ProxyTask<S, W>,
    id: u64,
    phase: RequestPhase,
    event: RequestEvent<W>,
    step: RequestStep<W>,
)
    requires
        crate::request::can_resume(old(task)@, id, phase, event),
        call_ensures(ProxyTask::<S, W>::resume_request, (task, id, phase, event), step),
    ensures
        call_requires(ProxyTask::<S, W>::resume_request, (task, id, phase, event)),
        crate::request::resumes(old(task)@, id, phase, event, final(task)@, step),
{
}

/// The loop over the driver's actions takes any event that can be taken, and what it
/// does then is what the laws on the driver speak of.
pub proof fn law_task_takes_driver_events<S, W>(
    task: &mut ProxyTask<S, W>,
    encoding: OfferEncoding,
    phase: DriverPhase,
    event: DriverEvent<S>,
    step: DriverStep<S>,
)
    requires
        crate::driver::can_take(encoding, old(task)@, phase, event),
        call_ensures(ProxyTask::<S, W>::run_offers, (task, &encoding, phase, event), step),
    ensures
        call_requires(ProxyTask::<S, W>::run_offers, (task, &encoding, phase, event)),
        crate::driver::takes(encoding, old(task)@, phase, event, final(task)@, step),
{
}

/// Every open channel can be closed: its worker is taken out, to be awaited, and
/// nothing else is changed.
pub proof fn law_task_closes<S, W>(
    task: &mut ProxyTask<S, W>,
    id: u64,
    worker: W,
    step: RequestStep<W>,
)
    requires
        old(task)@.channels.contains_key(id),
        old(task)@.channels[id].worker_result == Some(worker),
        call_ensures(ProxyTask::<S, W>::handle_close, (task, id), step),
    ensures
        call_requires(ProxyTask::<S, W>::handle_close, (task, id)),
        final(task)@.gpadls == old(task)@.gpadls,
        final(task)@.channels.dom() == old(task)@.channels.dom(),
        forall|other: u64|
            other != id && old(task)@.channels.contains_key(other)
                ==> #[trigger] final(task)@.channels[other] == old(task)@.channels[other],
        final(task)@.channels[id].worker_result is None,
        final(task)@.channels[id].server_request_send
            == old(task)@.channels[id].server_request_send,
        step matches RequestStep::Run { command: RequestCommand::AwaitWorker(awaited), phase }
            && awaited == worker && phase is AwaitingWorker,
{
    assert(final(task)@.channels.dom() =~= old(task)@.channels.dom());
}

/// Every GPADL in the set of a channel can be torn down: it leaves the set, and
/// nothing else is changed.
pub proof fn law_task_tears_down<S, W>(
    task: &mut ProxyTask<S, W>,
    id: u64,
    gpadl_id: u32,
    step: RequestStep<W>,
)
    requires
        old(task)@.gpadls.contains_key(id),
        old(task)@.gpadls[id].contains(gpadl_id),
        call_ensures(ProxyTask::<S, W>::handle_gpadl_teardown, (task, id, gpadl_id), step),
    ensures
        call_requires(ProxyTask::<S, W>::handle_gpadl_teardown, (task, id, gpadl_id)),
        final(task)@.channels == old(task)@.channels,
        final(task)@.gpadls.dom() == old(task)@.gpadls.dom(),
        forall|other: u64|
            other != id && old(task)@.gpadls.contains_key(other)
                ==> #[trigger] final(task)@.gpadls[other] == old(task)@.gpadls[other],
        forall|g: u32|
            #[trigger] final(task)@.gpadls[id].contains(g) <==> old(task)@.gpadls[id].contains(g)
                && g != gpadl_id,
        step matches RequestStep::Run {
            command: RequestCommand::DeleteGpadl { id: channel, gpadl_id: deleted },
            phase,
        } && channel == id && deleted == gpadl_id && phase is DeletingGpadl,
{
    assert(final(task)@.gpadls.dom() =~= old(task)@.gpadls.dom());
}

/// Every known channel can be revoked, open or not: its handle is taken out, to be
/// dropped, or where there is none its release is asked for; nothing else is changed.
pub proof fn law_task_revokes<S, W>(
    task: &mut ProxyTask<S, W>,
    id: u64,
    step: DriverStep<S>,
)
    requires
        old(task)@.channels.contains_key(id),
        call_ensures(ProxyTask::<S, W>::handle_revoke, (task, id), step),
    ensures
        call_requires(ProxyTask::<S, W>::handle_revoke, (task, id)),
        final(task)@.gpadls == old(task)@.gpadls,
        final(task)@.channels.dom() == old(task)@.channels.dom(),
        forall|other: u64|
            other != id && old(task)@.channels.contains_key(other)
                ==> #[trigger] final(task)@.channels[other] == old(task)@.channels[other],
        final(task)@.channels[id].server_request_send is None,
        final(task)@.channels[id].worker_result == old(task)@.channels[id].worker_result,
        old(task)@.channels[id].server_request_send matches Some(sender) ==> step.command
            == DriverCommand::Drop(sender) && step.phase is Idle,
        old(task)@.channels[id].server_request_send is None ==> step.command == (DriverCommand::<
            S,
        >::Release { id }) && step.phase == (DriverPhase::Releasing { id }),
{
    assert(final(task)@.channels.dom() =~= old(task)@.channels.dom());
}

/// Every supported offer can be passed on in any state, with the identifiers and the
/// sizes that the driver gave.
pub proof fn law_task_offers<S, W>(
    task: ProxyTask<S, W>,
    encoding: OfferEncoding,
    id: u64,
    offer: ChannelOffer,
    supported: bool,
    step: DriverStep<S>,
)
    requires
        call_ensures(OfferEncoding::is_supported, (&encoding, &offer), supported),
        supported,
        call_ensures(ProxyTask::<S, W>::handle_offer, (&task, &encoding, id, &offer), step),
    ensures
        call_requires(ProxyTask::<S, W>::handle_offer, (&task, &encoding, id, &offer)),
        step.phase == (DriverPhase::Offering { id }),
        step.command matches DriverCommand::Offer(params) && params.interface_id
            == offer.interface_type && params.instance_id == offer.interface_instance
            && params.mmio_megabytes == offer.mmio_megabytes && params.mmio_megabytes_optional
            == offer.mmio_megabytes_optional && params.subchannel_index == offer.subchannel_index,
{
}

} // verus!
