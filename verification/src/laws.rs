//! What holds of the task over more than one step.

use crate::driver::DriverCommand;
use crate::driver::DriverEvent;
use crate::driver::DriverPhase;
use crate::driver::DriverStep;
use crate::driver::ProxyAction;
use crate::offer::ChannelOffer;
use crate::offer::OfferEncoding;
use crate::offer::OfferParams;
use crate::request::ChannelRequest;
use crate::request::OpenRequest;
use crate::request::Reply;
use crate::request::RequestCommand;
use crate::request::RequestEvent;
use crate::request::RequestPhase;
use crate::request::RequestStep;
use crate::table::ProxyState;
use vstd::prelude::*;

verus! {

/// The life of one request handler. Step `k` finds the task in `pres[k]` and
/// leaves it in `posts[k]`; between two steps other handlers, and the loop over
/// the driver's actions, may have changed it.
pub struct HandlerRun<S, W> {
    pub id: u64,
    pub request: Option<ChannelRequest>,
    pub pres: Seq<ProxyState<S, W>>,
    /// The events that the handler was resumed with. The start takes none, so
    /// `events[0]` says nothing.
    pub events: Seq<RequestEvent<W>>,
    pub posts: Seq<ProxyState<S, W>>,
    pub steps: Seq<RequestStep<W>>,
}

impl<S, W> HandlerRun<S, W> {
    /// The number of steps.
    pub open spec fn len(self) -> nat {
        self.steps.len()
    }

    /// Step `k`, after the start, is what the handler does where it waits.
    pub open spec fn resumes_at(self, k: int) -> bool {
        &&& self.steps[k - 1] is Run
        &&& crate::request::can_resume(
            self.pres[k],
            self.id,
            self.steps[k - 1]->phase,
            self.events[k],
        )
        &&& crate::request::resumes(
            self.pres[k],
            self.id,
            self.steps[k - 1]->phase,
            self.events[k],
            self.posts[k],
            self.steps[k],
        )
    }

    /// Every step is one that the handler takes.
    pub open spec fn valid(self) -> bool {
        &&& self.len() > 0
        &&& self.pres.len() == self.len()
        &&& self.events.len() == self.len()
        &&& self.posts.len() == self.len()
        &&& crate::request::can_start(self.pres[0], self.id, self.request)
        &&& crate::request::starts(
            self.pres[0],
            self.id,
            self.request,
            self.posts[0],
            self.steps[0],
        )
        &&& forall|k: int| 0 < k < self.len() ==> #[trigger] self.resumes_at(k)
    }

    /// The handler has ended.
    pub open spec fn complete(self) -> bool {
        self.valid() && self.steps.last() is Finish
    }

    /// The answer that the handler ended with.
    pub open spec fn reply(self) -> Option<Reply> {
        self.steps.last()->Finish_0
    }

    /// Nothing else changed what the task holds of the handler's channel while the
    /// handler ran.
    pub open spec fn undisturbed(self) -> bool {
        forall|k: int|
            0 < k < self.len() ==> (#[trigger] self.pres[k]).agrees_on(
                self.posts[k - 1],
                self.id,
            )
    }
}

/// `reply` is an answer to `request`.
pub open spec fn answers(request: Option<ChannelRequest>, reply: Option<Reply>) -> bool {
    match request {
        Some(ChannelRequest::Open(_)) => reply matches Some(Reply::Open(_)),
        Some(ChannelRequest::Close) => reply == Some(Reply::Close),
        Some(ChannelRequest::Gpadl(_)) => reply matches Some(Reply::Gpadl(_)),
        Some(ChannelRequest::TeardownGpadl(_)) => reply == Some(Reply::TeardownGpadl),
        Some(ChannelRequest::Modify) => reply == Some(Reply::Modify(0)),
        None => reply is None,
    }
}

/// A handler of `request` may wait in `phase`.
pub open spec fn serves(request: Option<ChannelRequest>, phase: RequestPhase) -> bool {
    match request {
        Some(ChannelRequest::Open(_)) => phase is Opening || phase is StartingWorker,
        Some(ChannelRequest::Close) => phase is Closing || phase is AwaitingWorker,
        Some(ChannelRequest::Gpadl(gpadl)) => phase == (RequestPhase::CreatingGpadl {
            gpadl_id: gpadl.id,
        }),
        Some(ChannelRequest::TeardownGpadl(_)) => phase is DeletingGpadl,
        Some(ChannelRequest::Modify) => false,
        None => phase is Disconnecting || phase is Draining || phase is Releasing,
    }
}

/// A handler of `request` may take `step`.
pub open spec fn fits<W>(request: Option<ChannelRequest>, step: RequestStep<W>) -> bool {
    match step {
        RequestStep::Run { command, phase } => serves(request, phase),
        RequestStep::Finish(reply) => answers(request, reply),
    }
}

proof fn lemma_step_fits<S, W>(run: HandlerRun<S, W>, k: int)
    requires
        run.valid(),
        0 <= k < run.len(),
    ensures
        fits(run.request, run.steps[k]),
    decreases k,
{
    if k > 0 {
        lemma_step_fits(run, k - 1);
        assert(run.resumes_at(k));
    }
}

/// A handler that has ended gives an answer of the kind that its request is owed,
/// and a server that has dropped the channel gets none.
pub proof fn law_answer_fits_request<S, W>(run: HandlerRun<S, W>)
    requires
        run.complete(),
    ensures
        answers(run.request, run.reply()),
{
    lemma_step_fits(run, run.len() - 1);
}

/// Every call of the driver that a handler names, and the worker that it starts,
/// is about the handler's own channel.
pub proof fn law_commands_name_own_channel<S, W>(run: HandlerRun<S, W>, k: int)
    requires
        run.valid(),
        0 <= k < run.len(),
        run.steps[k] is Run,
    ensures
        run.steps[k]->command is AwaitWorker || run.steps[k]->command.channel() == Some(run.id),
{
    if k > 0 {
        assert(run.resumes_at(k));
    }
}

/// No step of a handler touches what the task holds of another channel.
pub proof fn law_other_channels_untouched<S, W>(run: HandlerRun<S, W>, k: int, other: u64)
    requires
        run.valid(),
        0 <= k < run.len(),
        other != run.id,
    ensures
        run.posts[k].agrees_on(run.pres[k], other),
{
    if k > 0 {
        assert(run.resumes_at(k));
    }
}

/// No step of a handler takes the server's handle out of a channel, puts one in,
/// or makes a channel known: a step leaves the handle as it is or forgets the
/// channel.
pub proof fn law_handlers_leave_senders<S, W>(run: HandlerRun<S, W>, k: int, id: u64)
    requires
        run.valid(),
        0 <= k < run.len(),
        run.posts[k].channels.contains_key(id),
    ensures
        run.pres[k].channels.contains_key(id),
        run.posts[k].channels[id].server_request_send
            == run.pres[k].channels[id].server_request_send,
{
    if k > 0 {
        assert(run.resumes_at(k));
    }
}

/// A request that fails changes nothing: every step of a handler that answers
/// with a refusal leaves the task as it was.
pub proof fn law_refusal_changes_nothing<S, W>(run: HandlerRun<S, W>, k: int)
    requires
        run.complete(),
        run.reply() == Some(Reply::Open(false)) || run.reply() == Some(Reply::Gpadl(false)),
        0 <= k < run.len(),
    ensures
        run.posts[k] == run.pres[k],
{
    law_answer_fits_request(run);
    lemma_step_fits(run, k);
    if k > 0 {
        lemma_step_fits(run, k - 1);
        assert(run.resumes_at(k));
        if run.steps[k] is Finish && k < run.len() - 1 {
            assert(run.resumes_at(k + 1));
        }
    }
}

/// A channel is opened exactly if an event backs the guest's interrupt and the
/// driver consents; then the worker that was started is remembered, and nothing
/// else is changed. The driver is asked with the ring that the server named, and
/// the worker bears the channel's name.
pub proof fn law_open<S, W>(run: HandlerRun<S, W>, request: OpenRequest)
    requires
        run.complete(),
        run.request == Some(ChannelRequest::Open(request)),
    ensures
        !request.event_backed ==> run.len() == 1 && run.reply() == Some(Reply::Open(false)),
        request.event_backed ==> {
            &&& run.len() >= 2
            &&& run.steps[0]->command == (RequestCommand::<W>::Open {
                id: run.id,
                parameters: crate::request::open_parameters(request),
            })
            &&& run.steps[0]->command matches RequestCommand::Open { id, parameters }
            &&& id == run.id
            &&& parameters.ring_buffer_gpadl_handle == request.ring_gpadl_id
            &&& parameters.downstream_ring_buffer_page_offset == request.ring_offset
            &&& parameters.node_number == 0
            &&& run.reply() == Some(
                Reply::Open(run.events[1] == RequestEvent::<W>::Opened(true)),
            )
        },
        run.reply() == Some(Reply::Open(true)) ==> {
            &&& run.len() == 3
            &&& run.steps[1]->command matches RequestCommand::StartWorker { id, name }
            &&& id == run.id
            &&& name@ == crate::worker::spec_worker_name(run.id)
            &&& run.events[2] matches RequestEvent::WorkerStarted(worker)
            &&& run.posts[0] == run.pres[0]
            &&& run.posts[1] == run.pres[1]
            &&& run.posts[2] == run.pres[2].with_worker(run.id, Some(worker))
            &&& run.posts[2].is_open(run.id)
        },
{
    if run.len() >= 2 {
        assert(run.resumes_at(1));
    }
    if run.len() >= 3 {
        assert(run.resumes_at(2));
    }
    if run.len() >= 4 {
        assert(run.resumes_at(3));
    }
}

/// A channel is closed in three steps: the driver closes it, and does not fail,
/// the worker that the opening left is awaited, and the answer follows. It is not
/// open afterwards, so it cannot be closed again before it is opened again.
pub proof fn law_close<S, W>(run: HandlerRun<S, W>)
    requires
        run.complete(),
        run.request == Some(ChannelRequest::Close),
    ensures
        run.len() == 3,
        run.steps[0]->command == (RequestCommand::<W>::Close { id: run.id }),
        run.events[1] == RequestEvent::<W>::Closed(true),
        run.pres[1].channels[run.id].worker_result matches Some(worker)
            && run.steps[1]->command == RequestCommand::AwaitWorker(worker),
        run.posts[0] == run.pres[0],
        run.posts[1] == run.pres[1].with_worker(run.id, None),
        run.posts[2] == run.pres[2],
        !run.posts[1].is_open(run.id),
        !crate::request::can_resume(
            run.posts[1],
            run.id,
            RequestPhase::Closing,
            RequestEvent::<W>::Closed(true),
        ),
{
    assert(run.len() >= 2);
    assert(run.resumes_at(1));
    assert(run.len() >= 3);
    assert(run.resumes_at(2));
    if run.len() >= 4 {
        assert(run.resumes_at(3));
    }
}

/// A close that the server asked for goes on exactly if the driver closed the
/// channel and the channel is known and open. Of a channel that the server has
/// dropped, the disconnect goes on whether or not the driver closed it.
pub proof fn law_failed_close_is_borne_only_of_dropped_channels<S, W>(
    state: ProxyState<S, W>,
    id: u64,
    closed: bool,
)
    ensures
        crate::request::can_resume(
            state,
            id,
            RequestPhase::Closing,
            RequestEvent::<W>::Closed(closed),
        ) <==> closed && state.channels.contains_key(id)
            && state.channels[id].worker_result is Some,
        crate::request::can_resume(
            state,
            id,
            RequestPhase::Disconnecting,
            RequestEvent::<W>::Closed(closed),
        ),
{
}

/// What an opening leaves is what a later close awaits, if nothing has replaced
/// the channel's worker in between. The close takes it out of the channel and
/// changes nothing else.
pub proof fn law_close_awaits_opened_worker<S, W>(
    opening: HandlerRun<S, W>,
    closing: HandlerRun<S, W>,
)
    requires
        opening.complete(),
        opening.request matches Some(ChannelRequest::Open(_)),
        opening.reply() == Some(Reply::Open(true)),
        closing.complete(),
        closing.request == Some(ChannelRequest::Close),
        closing.id == opening.id,
        closing.pres[1].channels[opening.id].worker_result
            == opening.posts[2].channels[opening.id].worker_result,
    ensures
        opening.events[2] matches RequestEvent::WorkerStarted(worker)
            && closing.steps[1]->command == RequestCommand::AwaitWorker(worker),
        closing.posts[1] == closing.pres[1].with_worker(opening.id, None),
{
    law_open(opening, opening.request->0->Open_0);
    law_close(closing);
}

/// A GPADL is registered exactly if the driver consents, and the driver is handed
/// the words as they lie in memory.
pub proof fn law_gpadl_create<S, W>(run: HandlerRun<S, W>)
    requires
        run.complete(),
        run.request matches Some(ChannelRequest::Gpadl(_)),
    ensures
        run.request matches Some(ChannelRequest::Gpadl(gpadl)) && {
            let created = run.events[1] == RequestEvent::<W>::GpadlCreated(true);
            &&& run.len() == 2
            &&& run.steps[0]->command matches RequestCommand::CreateGpadl {
                id,
                gpadl_id,
                count,
                buf,
            }
            &&& id == run.id
            &&& gpadl_id == gpadl.id
            &&& count == gpadl.count
            &&& crate::memory::is_memory_image(gpadl.buf@, buf@)
            &&& run.reply() == Some(Reply::Gpadl(created))
            &&& created ==> run.posts[1].registered(run.id) == run.pres[1].registered(
                run.id,
            ).insert(gpadl.id)
            &&& !created ==> run.posts[1] == run.pres[1]
        },
{
    assert(run.len() >= 2);
    assert(run.resumes_at(1));
    if run.len() >= 3 {
        assert(run.resumes_at(2));
    }
}

/// Tearing a GPADL down undoes its registration: the GPADLs of the channel are
/// the ones of before, if it was not among them and nothing has changed them in
/// between, and it can be torn down only once.
pub proof fn law_teardown_undoes_create<S, W>(
    creating: HandlerRun<S, W>,
    teardown: HandlerRun<S, W>,
)
    requires
        creating.complete(),
        creating.request matches Some(ChannelRequest::Gpadl(gpadl)) && teardown.request == Some(
            ChannelRequest::TeardownGpadl(gpadl.id),
        ) && !creating.pres[1].registered(creating.id).contains(gpadl.id),
        creating.reply() == Some(Reply::Gpadl(true)),
        teardown.complete(),
        teardown.id == creating.id,
        teardown.pres[0].registered(creating.id) == creating.posts[1].registered(creating.id),
    ensures
        teardown.steps[0]->command == (RequestCommand::<W>::DeleteGpadl {
            id: creating.id,
            gpadl_id: creating.request->0->Gpadl_0.id,
        }),
        teardown.posts[0].registered(creating.id) == creating.pres[1].registered(creating.id),
        teardown.posts[0].channels == teardown.pres[0].channels,
        !crate::request::can_start(teardown.posts[0], creating.id, teardown.request),
{
    law_gpadl_create(creating);
    assert(creating.resumes_at(1));
    assert(teardown.posts[0].registered(creating.id) =~= creating.pres[1].registered(creating.id));
}

/// A GPADL that is torn down is forgotten before the driver is asked to delete
/// it, and the answer follows once the driver has.
pub proof fn law_teardown<S, W>(run: HandlerRun<S, W>, gpadl_id: u32)
    requires
        run.complete(),
        run.request == Some(ChannelRequest::TeardownGpadl(gpadl_id)),
    ensures
        run.len() == 2,
        run.steps[0]->command == (RequestCommand::<W>::DeleteGpadl { id: run.id, gpadl_id }),
        run.posts[0] == run.pres[0].with_gpadls(
            run.id,
            run.pres[0].registered(run.id).remove(gpadl_id),
        ),
        run.posts[1] == run.pres[1],
        run.reply() == Some(Reply::TeardownGpadl),
{
    assert(run.len() >= 2);
    assert(run.resumes_at(1));
    if run.len() >= 3 {
        assert(run.resumes_at(2));
    }
}

/// Whatever becomes of a GPADL, the channels stay as they are: no step of a handler
/// that registers one or tears one down touches a worker, a handle or which channels
/// are known.
pub proof fn law_gpadl_handlers_leave_channels<S, W>(run: HandlerRun<S, W>, k: int)
    requires
        run.valid(),
        run.request matches Some(ChannelRequest::Gpadl(_)) || run.request matches Some(
            ChannelRequest::TeardownGpadl(_),
        ),
        0 <= k < run.len(),
    ensures
        run.posts[k].channels == run.pres[k].channels,
{
    if k > 0 {
        lemma_step_fits(run, k - 1);
        assert(run.resumes_at(k));
    }
}

/// Opening and closing a channel, and moving its target processor, leaves the GPADLs
/// as they are, those of the channel too.
pub proof fn law_channel_handlers_leave_gpadls<S, W>(run: HandlerRun<S, W>, k: int)
    requires
        run.valid(),
        run.request matches Some(ChannelRequest::Open(_)) || run.request == Some(
            ChannelRequest::Close,
        ) || run.request == Some(ChannelRequest::Modify),
        0 <= k < run.len(),
    ensures
        run.posts[k].gpadls == run.pres[k].gpadls,
{
    if k > 0 {
        lemma_step_fits(run, k - 1);
        assert(run.resumes_at(k));
    }
}

/// A change of the target processor is acknowledged at once, and changes nothing.
pub proof fn law_modify<S, W>(run: HandlerRun<S, W>)
    requires
        run.valid(),
        run.request == Some(ChannelRequest::Modify),
    ensures
        run.len() == 1,
        run.posts[0] == run.pres[0],
        run.reply() == Some(Reply::Modify(0)),
{
    if run.len() >= 2 {
        assert(run.resumes_at(1));
    }
}

proof fn lemma_drain<S, W>(run: HandlerRun<S, W>, order: Seq<u32>, k: int)
    requires
        run.valid(),
        run.len() > 1,
        crate::request::drains(run.id, order, run.steps[1]),
        1 <= k <= order.len() + 1,
        k < run.len(),
    ensures
        crate::request::drains(run.id, order.take(order.len() + 1 - k), run.steps[k]),
    decreases k,
{
    if k == 1 {
        assert(order.take(order.len() as int) =~= order);
    } else {
        lemma_drain(run, order, k - 1);
        assert(run.resumes_at(k));
        let before = order.take(order.len() + 2 - k);
        assert(before.drop_last() =~= order.take(order.len() + 1 - k));
    }
}

/// The GPADLs that steps `1` up to and with `count` of the run have the driver
/// delete.
pub open spec fn deleted<S, W>(run: HandlerRun<S, W>, count: nat) -> Seq<u32> {
    Seq::new(count, |k: int| run.steps[k + 1]->command->DeleteGpadl_gpadl_id)
}

/// A channel that the server has dropped is closed; then each GPADL that is still
/// registered is deleted once, and no other; then the driver releases the channel
/// and the task forgets it. The GPADLs are forgotten before the first of them is
/// deleted, whatever other handlers do meanwhile.
pub proof fn law_disconnect<S, W>(run: HandlerRun<S, W>)
    requires
        run.complete(),
        run.request is None,
    ensures
        run.len() >= 3,
        run.steps[0]->command == (RequestCommand::<W>::Close { id: run.id }),
        forall|k: int|
            1 <= k <= run.len() - 3 ==> (#[trigger] run.steps[k])->command is DeleteGpadl
                && run.steps[k]->command.channel() == Some(run.id),
        crate::table::lists(
            deleted(run, (run.len() - 3) as nat),
            run.pres[1].registered(run.id),
        ),
        run.steps[run.len() - 2]->command == (RequestCommand::<W>::Release { id: run.id }),
        run.reply() is None,
        run.posts[1] == run.pres[1].without_gpadls(run.id),
        run.posts.last() == run.pres.last().without_channel(run.id),
        forall|k: int|
            0 <= k < run.len() - 1 && k != 1 ==> #[trigger] run.posts[k] == run.pres[k],
{
    let n = run.len();
    assert(n >= 2);
    assert(run.resumes_at(1));
    let order = choose|order: Seq<u32>|
        crate::table::lists(order, run.pres[1].registered(run.id))
            && #[trigger] crate::request::drains(run.id, order, run.steps[1]);
    let g = order.len() as int;
    assert forall|k: int| 1 <= k <= g + 1 && k < n implies {
        &&& run.steps[k] is Run
        &&& k <= g ==> run.steps[k]->command == (RequestCommand::<W>::DeleteGpadl {
            id: run.id,
            gpadl_id: order[g - k],
        })
        &&& k == g + 1 ==> run.steps[k].runs(
            RequestCommand::Release { id: run.id },
            RequestPhase::Releasing,
        )
        &&& k != 1 ==> #[trigger] run.posts[k] == run.pres[k]
    } by {
        lemma_drain(run, order, k);
        assert(run.resumes_at(k));
        if k > 1 {
            lemma_drain(run, order, k - 1);
        }
    }
    assert(n >= g + 3) by {
        if n <= g + 2 {
            lemma_drain(run, order, n - 1);
        }
    }
    assert(n == g + 3) by {
        lemma_drain(run, order, g + 1);
        assert(run.resumes_at(g + 2));
        if n > g + 3 {
            assert(run.resumes_at(g + 3));
        }
    }
    lemma_drain(run, order, g + 1);
    assert(run.resumes_at(g + 2));
    let found = deleted(run, (n - 3) as nat);
    assert forall|k: int| 1 <= k <= n - 3 implies (#[trigger] run.steps[k])->command
        is DeleteGpadl && run.steps[k]->command.channel() == Some(run.id) by {
        lemma_drain(run, order, k);
    }
    assert(found =~= order.reverse()) by {
        assert forall|k: int| 0 <= k < g implies found[k] == order.reverse()[k] by {
            lemma_drain(run, order, k + 1);
        }
    }
    assert(found.no_duplicates());
    assert(found.to_set() =~= order.to_set()) by {
        assert forall|x: u32| order.contains(x) implies found.contains(x) by {
            let i = order.index_of(x);
            assert(found[g - 1 - i] == x);
        }
    }
    assert forall|k: int| 0 <= k < n - 1 && k != 1 implies #[trigger] run.posts[k]
        == run.pres[k] by {
        if k > 1 {
            lemma_drain(run, order, k - 1);
            assert(run.resumes_at(k));
        }
    }
}

proof fn lemma_gpadls_stay_forgotten<S, W>(run: HandlerRun<S, W>, k: int)
    requires
        run.complete(),
        run.request is None,
        run.undisturbed(),
        1 <= k < run.len(),
    ensures
        !run.posts[k].gpadls.contains_key(run.id),
    decreases k,
{
    law_disconnect(run);
    if k > 1 {
        lemma_gpadls_stay_forgotten(run, k - 1);
        assert(run.pres[k].agrees_on(run.posts[k - 1], run.id));
    }
}

/// The handler of a dropped channel wipes the channel out of the task, if nothing
/// else touches that channel while it runs.
pub proof fn law_disconnect_forgets_channel<S, W>(run: HandlerRun<S, W>)
    requires
        run.complete(),
        run.request is None,
        run.undisturbed(),
    ensures
        !run.posts.last().channels.contains_key(run.id),
        !run.posts.last().gpadls.contains_key(run.id),
{
    law_disconnect(run);
    lemma_gpadls_stay_forgotten(run, run.len() - 1);
}

/// A handler takes a bounded number of steps: three at most for a request, and
/// for a dropped channel three more than there are GPADLs to delete.
pub proof fn law_handlers_end<S, W>(run: HandlerRun<S, W>)
    requires
        run.valid(),
    ensures
        run.request is Some ==> run.len() <= 3,
        run.request is None && run.len() >= 2 ==> exists|order: Seq<u32>|
            #[trigger] crate::table::lists(order, run.pres[1].registered(run.id)) && run.len()
                <= order.len() + 3,
{
    if run.len() >= 2 {
        assert(run.resumes_at(1));
        if run.request is None {
            let order = choose|order: Seq<u32>|
                crate::table::lists(order, run.pres[1].registered(run.id))
                    && #[trigger] crate::request::drains(run.id, order, run.steps[1]);
            let g = order.len() as int;
            if run.len() > g + 3 {
                lemma_drain(run, order, g + 1);
                assert(run.resumes_at(g + 2));
                assert(run.resumes_at(g + 3));
            }
            assert(crate::table::lists(order, run.pres[1].registered(run.id)));
        }
    }
    if run.request is Some && run.len() >= 4 {
        assert(run.resumes_at(2));
        assert(run.resumes_at(3));
    }
}

/// One step of the loop over the driver's actions.
pub struct DriverTransition<S, W> {
    pub encoding: OfferEncoding,
    pub pre: ProxyState<S, W>,
    pub phase: DriverPhase,
    pub event: DriverEvent<S>,
    pub post: ProxyState<S, W>,
    pub step: DriverStep<S>,
}

impl<S, W> DriverTransition<S, W> {
    /// The step is one that the loop takes.
    pub open spec fn valid(self) -> bool {
        &&& crate::driver::can_take(self.encoding, self.pre, self.phase, self.event)
        &&& crate::driver::takes(
            self.encoding,
            self.pre,
            self.phase,
            self.event,
            self.post,
            self.step,
        )
    }

    /// The step is about channel `id`.
    pub open spec fn concerns(self, id: u64) -> bool {
        ||| self.phase == (DriverPhase::Offering { id })
        ||| self.phase == (DriverPhase::Releasing { id })
        ||| self.phase is Idle && self.event == DriverEvent::<S>::Action(
            ProxyAction::Revoke { id },
        )
    }

    /// The step answers the revocation of channel `id`.
    pub open spec fn is_revocation(self, id: u64) -> bool {
        &&& self.valid()
        &&& self.phase is Idle
        &&& self.event == DriverEvent::<S>::Action(ProxyAction::Revoke { id })
    }

    /// The step takes the server's answer to the offer of channel `id`.
    pub open spec fn is_answer(self, id: u64) -> bool {
        &&& self.valid()
        &&& self.phase == (DriverPhase::Offering { id })
    }

    /// The step takes the driver's release of channel `id`.
    pub open spec fn is_release(self, id: u64) -> bool {
        &&& self.valid()
        &&& self.phase == (DriverPhase::Releasing { id })
    }
}

/// The loop touches nothing but the channel that the driver's action is about,
/// and never a GPADL.
pub proof fn law_driver_touches_one_channel<S, W>(t: DriverTransition<S, W>, other: u64)
    requires
        t.valid(),
        !t.concerns(other),
    ensures
        t.post.agrees_on(t.pre, other),
        t.post.gpadls == t.pre.gpadls,
{
}

/// The loop leaves the worker of a channel as it is, unless the driver offers the
/// channel anew.
pub proof fn law_driver_leaves_workers<S, W>(t: DriverTransition<S, W>, id: u64)
    requires
        t.valid(),
        t.post.channels.contains_key(id),
        !t.is_answer(id),
    ensures
        t.pre.channels.contains_key(id),
        t.post.channels[id].worker_result == t.pre.channels[id].worker_result,
        t.post.gpadls == t.pre.gpadls,
{
}

/// A channel that the server took is forwarded, and its first revocation drops
/// the handle that came with the server's consent, without asking the driver.
pub proof fn law_revocation_drops_accepted_handle<S, W>(
    answer: DriverTransition<S, W>,
    revocation: DriverTransition<S, W>,
    id: u64,
)
    requires
        answer.is_answer(id),
        answer.event is Accepted,
        revocation.is_revocation(id),
        revocation.pre.channels[id].server_request_send
            == answer.post.channels[id].server_request_send,
    ensures
        answer.step.is(DriverCommand::Forward { id }, DriverPhase::Idle),
        revocation.step.is(DriverCommand::Drop(answer.event->Accepted_0), DriverPhase::Idle),
        revocation.post.channels.contains_key(id),
        revocation.post.channels[id].server_request_send is None,
{
}

/// A channel that the server refused is remembered all the same, closed and
/// without a handle, and nothing is forwarded; when the driver revokes it, it is
/// released at once.
pub proof fn law_refused_channel_is_released<S, W>(
    answer: DriverTransition<S, W>,
    revocation: DriverTransition<S, W>,
    id: u64,
)
    requires
        answer.is_answer(id),
        answer.event is Rejected,
        revocation.is_revocation(id),
        revocation.pre.channels[id].server_request_send
            == answer.post.channels[id].server_request_send,
    ensures
        answer.step.is(DriverCommand::Next, DriverPhase::Idle),
        answer.post.channels.contains_key(id),
        !answer.post.is_open(id),
        revocation.step.is(DriverCommand::Release { id }, DriverPhase::Releasing { id }),
{
}

/// Where the driver revokes a channel whose handle was dropped before and which
/// no new offer has replaced, the channel is released; then the task has forgotten
/// it, and it cannot be revoked again.
pub proof fn law_second_revocation_releases<S, W>(
    first: DriverTransition<S, W>,
    second: DriverTransition<S, W>,
    release: DriverTransition<S, W>,
    id: u64,
)
    requires
        first.is_revocation(id),
        second.is_revocation(id),
        second.pre.channels[id].server_request_send == first.post.channels[id].server_request_send,
        release.is_release(id),
    ensures
        second.step.is(DriverCommand::Release { id }, DriverPhase::Releasing { id }),
        second.post == second.pre,
        release.post == release.pre.without_channel(id),
        !crate::driver::can_take(
            release.encoding,
            release.post,
            DriverPhase::Idle,
            DriverEvent::<S>::Action(ProxyAction::Revoke { id }),
        ),
{
    assert(second.post.channels =~= second.pre.channels);
}

/// The life of the loop over the driver's actions. Step `k` finds the task in
/// `pres[k]` and leaves it in `posts[k]`; between two steps the request handlers
/// may have changed it.
pub struct DriverRun<S, W> {
    pub encoding: OfferEncoding,
    pub pres: Seq<ProxyState<S, W>>,
    pub events: Seq<DriverEvent<S>>,
    pub posts: Seq<ProxyState<S, W>>,
    pub steps: Seq<DriverStep<S>>,
}

impl<S, W> DriverRun<S, W> {
    /// The number of steps.
    pub open spec fn len(self) -> nat {
        self.steps.len()
    }

    /// The phase that step `k` is taken in: the loop begins idle and goes on from
    /// where the last step left it.
    pub open spec fn phase_at(self, k: int) -> DriverPhase {
        if k == 0 {
            DriverPhase::Idle
        } else {
            self.steps[k - 1].phase
        }
    }

    /// Step `k`.
    pub open spec fn transition(self, k: int) -> DriverTransition<S, W> {
        DriverTransition {
            encoding: self.encoding,
            pre: self.pres[k],
            phase: self.phase_at(k),
            event: self.events[k],
            post: self.posts[k],
            step: self.steps[k],
        }
    }

    /// Step `k` is one that the loop takes, and the loop was not stopped before.
    pub open spec fn goes_on_at(self, k: int) -> bool {
        &&& self.transition(k).valid()
        &&& k > 0 ==> !(self.steps[k - 1].command is Stop)
    }

    /// Every step is one that the loop takes.
    pub open spec fn valid(self) -> bool {
        &&& self.pres.len() == self.len()
        &&& self.events.len() == self.len()
        &&& self.posts.len() == self.len()
        &&& forall|k: int| 0 <= k < self.len() ==> #[trigger] self.goes_on_at(k)
    }

    /// At step `k` the driver offers channel `id`.
    pub open spec fn offered_at(self, k: int, id: u64) -> bool {
        self.events[k] matches DriverEvent::Action(ProxyAction::Offer { id: offered, .. })
            && offered == id
    }

    /// At step `k` the driver revokes channel `id`.
    pub open spec fn revoked_at(self, k: int, id: u64) -> bool {
        self.events[k] == DriverEvent::<S>::Action(ProxyAction::Revoke { id })
    }

    /// At step `k` the server answers the offer that the driver made of channel
    /// `id` one step before.
    pub open spec fn answered_at(self, k: int, id: u64) -> bool {
        &&& k > 0
        &&& self.offered_at(k - 1, id)
        &&& self.events[k] is Accepted || self.events[k] is Rejected
    }
}

/// The loop waits for the server's answer to the offer of channel `id` exactly
/// after the driver has made that offer, and for the release of channel `id`
/// exactly after it has asked the driver for it; else it waits for the driver.
proof fn lemma_driver_phase<S, W>(run: DriverRun<S, W>, k: int, id: u64)
    requires
        run.valid(),
        0 <= k < run.len(),
    ensures
        run.phase_at(k) == (DriverPhase::Offering { id }) <==> k > 0 && run.offered_at(k - 1, id),
        run.phase_at(k) == (DriverPhase::Releasing { id }) <==> k > 0 && run.steps[k - 1].command
            == (DriverCommand::<S>::Release { id }),
{
    assert(run.goes_on_at(k));
    if k > 0 {
        assert(run.goes_on_at(k - 1));
    }
}

/// What the driver offers is made to the server at once, and the next thing that
/// the loop takes is the server's answer.
pub proof fn law_offer_is_made_and_answered<S, W>(
    run: DriverRun<S, W>,
    k: int,
    id: u64,
    offer: ChannelOffer,
)
    requires
        run.valid(),
        0 <= k < run.len(),
        run.events[k] == DriverEvent::<S>::Action(ProxyAction::Offer { id, offer }),
    ensures
        run.steps[k].command matches DriverCommand::Offer(params) && {
            &&& run.encoding.describes(id, offer, params)
            &&& params.interface_id == offer.interface_type
            &&& params.instance_id == offer.interface_instance
            &&& params.mmio_megabytes == offer.mmio_megabytes
            &&& params.mmio_megabytes_optional == offer.mmio_megabytes_optional
            &&& params.subchannel_index == offer.subchannel_index
        },
        run.posts[k] == run.pres[k],
        k + 1 < run.len() ==> {
            &&& run.answered_at(k + 1, id)
            &&& run.posts[k + 1] == run.pres[k + 1].with_channel(
                id,
                crate::driver::answered_channel(run.events[k + 1]),
            )
        },
{
    assert(run.goes_on_at(k));
    if k + 1 < run.len() {
        assert(run.offered_at(k, id));
        lemma_driver_phase(run, k + 1, id);
        assert(run.goes_on_at(k + 1));
    }
}

/// The requests of a channel are forwarded exactly at the step in which the server
/// accepts the channel, which is the one after the driver's offer of it.
pub proof fn law_forwarded_exactly_if_accepted<S, W>(run: DriverRun<S, W>, k: int, id: u64)
    requires
        run.valid(),
        0 <= k < run.len(),
    ensures
        run.steps[k].command == (DriverCommand::<S>::Forward { id }) <==> run.answered_at(k, id)
            && run.events[k] is Accepted,
{
    assert(run.goes_on_at(k));
    lemma_driver_phase(run, k, id);
}

/// The loop stops exactly when the driver has no more actions, and takes no step
/// after that.
pub proof fn law_stopped_exactly_if_ended<S, W>(run: DriverRun<S, W>, k: int)
    requires
        run.valid(),
        0 <= k < run.len(),
    ensures
        run.steps[k].command is Stop <==> run.events[k] is Ended,
        run.steps[k].command is Stop ==> k == run.len() - 1 && run.posts[k] == run.pres[k],
{
    assert(run.goes_on_at(k));
    if k + 1 < run.len() {
        assert(run.goes_on_at(k + 1));
    }
}

/// A handle is dropped exactly when the driver revokes the channel that holds it.
/// A release is asked for exactly when the driver revokes a channel that holds
/// none; the next thing that the loop takes is then the driver's release, on which
/// the channel is forgotten.
pub proof fn law_dropped_or_released_exactly_if_revoked<S, W>(
    run: DriverRun<S, W>,
    k: int,
    id: u64,
)
    requires
        run.valid(),
        0 <= k < run.len(),
    ensures
        run.steps[k].command is Drop ==> exists|revoked: u64| #[trigger] run.revoked_at(k, revoked),
        run.revoked_at(k, id) ==> match run.pres[k].channels[id].server_request_send {
            Some(sender) => run.steps[k].command == DriverCommand::Drop(sender),
            None => run.steps[k].command == (DriverCommand::<S>::Release { id }),
        },
        run.steps[k].command == (DriverCommand::<S>::Release { id }) <==> run.revoked_at(k, id)
            && run.pres[k].channels[id].server_request_send is None,
        run.steps[k].command == (DriverCommand::<S>::Release { id }) && k + 1 < run.len() ==> {
            &&& run.events[k + 1] == DriverEvent::<S>::Released(true)
            &&& run.posts[k + 1] == run.pres[k + 1].without_channel(id)
        },
{
    assert(run.goes_on_at(k));
    if run.steps[k].command is Drop {
        let revoked = run.events[k]->Action_0->Revoke_id;
        assert(run.revoked_at(k, revoked));
    }
    if k + 1 < run.len() {
        lemma_driver_phase(run, k + 1, id);
        assert(run.goes_on_at(k + 1));
    }
}

/// The loop makes a channel known only on the server's answer to its offer, and
/// forgets one only on the release that it has asked for.
pub proof fn law_channels_come_and_go<S, W>(run: DriverRun<S, W>, k: int, id: u64)
    requires
        run.valid(),
        0 <= k < run.len(),
    ensures
        run.answered_at(k, id) ==> run.posts[k].channels.contains_key(id),
        !run.pres[k].channels.contains_key(id) && run.posts[k].channels.contains_key(id)
            ==> run.answered_at(k, id),
        run.pres[k].channels.contains_key(id) && !run.posts[k].channels.contains_key(id) ==> k > 0
            && run.steps[k - 1].command == (DriverCommand::<S>::Release { id }),
        run.posts[k].gpadls == run.pres[k].gpadls,
{
    assert(run.goes_on_at(k));
    lemma_driver_phase(run, k, id);
}

/// The order numbers of offers follow the driver's identifiers: where two offers
/// have one, they compare as the identifiers do.
pub proof fn law_offer_order_follows_ids(
    encoding: OfferEncoding,
    id1: u64,
    offer1: ChannelOffer,
    params1: OfferParams,
    id2: u64,
    offer2: ChannelOffer,
    params2: OfferParams,
)
    requires
        encoding.describes(id1, offer1, params1),
        encoding.describes(id2, offer2, params2),
        params1.offer_order is Some,
        params2.offer_order is Some,
    ensures
        params1.offer_order->0 < params2.offer_order->0 <==> id1 < id2,
        params1.offer_order->0 == params2.offer_order->0 <==> id1 == id2,
{
}

} // verus!
