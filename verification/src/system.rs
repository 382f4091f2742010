//! What holds of the task while any number of handlers run beside one another,
//! and beside the loop over the driver's actions.

use crate::driver::DriverEvent;
use crate::driver::DriverPhase;
use crate::driver::DriverStep;
use crate::driver::ProxyAction;
use crate::offer::OfferEncoding;
use crate::request::ChannelRequest;
use crate::request::RequestCommand;
use crate::request::RequestEvent;
use crate::request::RequestPhase;
use crate::request::RequestStep;
use crate::table::ProxyState;
use vstd::prelude::*;

verus! {

/// A handler that waits in `phase` for channel `id`.
pub struct Waiting {
    pub id: u64,
    pub phase: RequestPhase,
}

/// The task, and every handler that was ever started. `None` stands for one that
/// has ended.
pub struct System<S, W> {
    pub state: ProxyState<S, W>,
    pub handlers: Seq<Option<Waiting>>,
}

/// What happens next in the system.
pub enum Occurrence<S, W> {
    /// A handler of `request` is started for channel `id`.
    Start { id: u64, request: Option<ChannelRequest>, step: RequestStep<W> },
    /// The handler at `index` takes `event`.
    Resume { index: int, event: RequestEvent<W>, step: RequestStep<W> },
    /// The loop over the driver's actions takes `event`.
    Driver {
        encoding: OfferEncoding,
        phase: DriverPhase,
        event: DriverEvent<S>,
        step: DriverStep<S>,
    },
}

/// Where a handler for channel `id` is after `step`.
pub open spec fn waiting_after<W>(id: u64, step: RequestStep<W>) -> Option<Waiting> {
    match step {
        RequestStep::Run { command, phase } => Some(Waiting { id, phase }),
        RequestStep::Finish(reply) => None,
    }
}

/// `occurrence` takes the system from `pre` to `post`.
pub open spec fn moves<S, W>(
    pre: System<S, W>,
    occurrence: Occurrence<S, W>,
    post: System<S, W>,
) -> bool {
    match occurrence {
        Occurrence::Start { id, request, step } => {
            &&& crate::request::can_start(pre.state, id, request)
            &&& crate::request::starts(pre.state, id, request, post.state, step)
            &&& post.handlers == pre.handlers.push(waiting_after(id, step))
        },
        Occurrence::Resume { index, event, step } => {
            &&& 0 <= index < pre.handlers.len()
            &&& pre.handlers[index] matches Some(waiting)
            &&& crate::request::can_resume(pre.state, waiting.id, waiting.phase, event)
            &&& crate::request::resumes(
                pre.state,
                waiting.id,
                waiting.phase,
                event,
                post.state,
                step,
            )
            &&& post.handlers == pre.handlers.update(index, waiting_after(waiting.id, step))
        },
        Occurrence::Driver { encoding, phase, event, step } => {
            &&& crate::driver::can_take(encoding, pre.state, phase, event)
            &&& crate::driver::takes(encoding, pre.state, phase, event, post.state, step)
            &&& post.handlers == pre.handlers
        },
    }
}

/// All that has happened since the task was made.
pub struct History<S, W> {
    pub occurrences: Seq<Occurrence<S, W>>,
    /// The systems before and after each occurrence.
    pub systems: Seq<System<S, W>>,
}

impl<S, W> History<S, W> {
    /// The history begins with a new task without handlers, and each occurrence is
    /// one that the library allows.
    pub open spec fn valid(self) -> bool {
        &&& self.systems.len() == self.occurrences.len() + 1
        &&& self.systems[0].state == ProxyState::<S, W>::empty()
        &&& self.systems[0].handlers.len() == 0
        &&& forall|k: int|
            0 <= k < self.occurrences.len() ==> #[trigger] moves(
                self.systems[k],
                self.occurrences[k],
                self.systems[k + 1],
            )
    }

    /// Occurrence `k` registers GPADL `gpadl_id` of channel `id`, which was not
    /// registered: the driver has consented to its creation.
    pub open spec fn registers(self, k: int, id: u64, gpadl_id: u32) -> bool {
        &&& self.occurrences[k] matches Occurrence::Resume { index, event, .. }
        &&& self.systems[k].handlers[index] == Some(
            Waiting { id, phase: RequestPhase::CreatingGpadl { gpadl_id } },
        )
        &&& event == RequestEvent::<W>::GpadlCreated(true)
        &&& !self.systems[k].state.registered(id).contains(gpadl_id)
    }

    /// Occurrence `k` has the driver delete GPADL `gpadl_id` of channel `id`.
    pub open spec fn deletes(self, k: int, id: u64, gpadl_id: u32) -> bool {
        let command = RequestCommand::<W>::DeleteGpadl { id, gpadl_id };
        match self.occurrences[k] {
            Occurrence::Start { step, .. } => step is Run && step->command == command,
            Occurrence::Resume { step, .. } => step is Run && step->command == command,
            Occurrence::Driver { .. } => false,
        }
    }

    /// At occurrence `k` a handler for channel `id` is resumed, which waited in
    /// `phase`.
    pub open spec fn resumed(self, k: int, id: u64, phase: RequestPhase) -> bool {
        &&& self.occurrences[k] matches Occurrence::Resume { index, .. }
        &&& self.systems[k].handlers[index] == Some(Waiting { id, phase })
    }

    /// At occurrence `k` the server answers an offer of channel `id`.
    pub open spec fn answered(self, k: int, id: u64) -> bool {
        self.occurrences[k] matches Occurrence::Driver { phase, .. } && phase == (
        DriverPhase::Offering { id })
    }

    /// At occurrence `k` the driver revokes channel `id`.
    pub open spec fn revoked(self, k: int, id: u64) -> bool {
        self.occurrences[k] matches Occurrence::Driver { phase, event, .. } && phase is Idle
            && event == DriverEvent::<S>::Action(ProxyAction::Revoke { id })
    }

    /// At occurrence `k` the driver has released channel `id`, for a handler or for
    /// the loop over its actions.
    pub open spec fn released(self, k: int, id: u64) -> bool {
        ||| self.resumed(k, id, RequestPhase::Releasing)
        ||| self.occurrences[k] matches Occurrence::Driver { phase, .. } && phase == (
        DriverPhase::Releasing { id })
    }

    /// At occurrence `k` a handler is started that tears GPADL `gpadl_id` of channel
    /// `id` down.
    pub open spec fn torn_down(self, k: int, id: u64, gpadl_id: u32) -> bool {
        self.occurrences[k] matches Occurrence::Start { id: channel, request, .. } && channel == id
            && request == Some(ChannelRequest::TeardownGpadl(gpadl_id))
    }

    /// How often GPADL `gpadl_id` of channel `id` was registered in the first `n`
    /// occurrences.
    pub open spec fn registrations(self, n: nat, id: u64, gpadl_id: u32) -> nat
        decreases n,
    {
        if n == 0 {
            0
        } else {
            let before = self.registrations((n - 1) as nat, id, gpadl_id);
            before + count(self.registers(n - 1, id, gpadl_id))
        }
    }

    /// How often the driver was told in the first `n` occurrences to delete GPADL
    /// `gpadl_id` of channel `id`.
    pub open spec fn deletions(self, n: nat, id: u64, gpadl_id: u32) -> nat
        decreases n,
    {
        if n == 0 {
            0
        } else {
            let before = self.deletions((n - 1) as nat, id, gpadl_id);
            before + count(self.deletes(n - 1, id, gpadl_id))
        }
    }
}

/// One if `condition` holds, else none.
pub open spec fn count(condition: bool) -> nat {
    if condition {
        1
    } else {
        0
    }
}

/// The handler still has GPADL `gpadl_id` of channel `id` to delete.
pub open spec fn owes(handler: Option<Waiting>, id: u64, gpadl_id: u32) -> bool {
    &&& handler matches Some(waiting)
    &&& waiting.id == id
    &&& waiting.phase matches RequestPhase::Draining { remaining }
    &&& remaining@.contains(gpadl_id)
}

/// How many of `handlers` still have GPADL `gpadl_id` of channel `id` to delete.
pub open spec fn owed(handlers: Seq<Option<Waiting>>, id: u64, gpadl_id: u32) -> nat
    decreases handlers.len(),
{
    if handlers.len() == 0 {
        0
    } else {
        owed(handlers.drop_last(), id, gpadl_id) + count(owes(handlers.last(), id, gpadl_id))
    }
}

/// The handler has no GPADL to delete twice.
pub open spec fn drains_once(handler: Option<Waiting>) -> bool {
    handler matches Some(waiting) ==> (waiting.phase matches RequestPhase::Draining { remaining }
        ==> remaining@.no_duplicates())
}

proof fn lemma_owed_push(
    handlers: Seq<Option<Waiting>>,
    handler: Option<Waiting>,
    id: u64,
    gpadl_id: u32,
)
    ensures
        owed(handlers.push(handler), id, gpadl_id) == owed(handlers, id, gpadl_id) + count(
            owes(handler, id, gpadl_id),
        ),
{
    assert(handlers.push(handler).drop_last() =~= handlers);
}

proof fn lemma_owed_update(
    handlers: Seq<Option<Waiting>>,
    index: int,
    handler: Option<Waiting>,
    id: u64,
    gpadl_id: u32,
)
    requires
        0 <= index < handlers.len(),
    ensures
        owed(handlers.update(index, handler), id, gpadl_id) + count(
            owes(handlers[index], id, gpadl_id),
        ) == owed(handlers, id, gpadl_id) + count(owes(handler, id, gpadl_id)),
    decreases handlers.len(),
{
    let updated = handlers.update(index, handler);
    if index == handlers.len() - 1 {
        assert(updated.drop_last() =~= handlers.drop_last());
    } else {
        assert(updated.drop_last() =~= handlers.drop_last().update(index, handler));
        lemma_owed_update(handlers.drop_last(), index, handler, id, gpadl_id);
    }
}

proof fn lemma_owed_nothing(handlers: Seq<Option<Waiting>>, id: u64, gpadl_id: u32)
    requires
        forall|i: int| 0 <= i < handlers.len() ==> !owes(#[trigger] handlers[i], id, gpadl_id),
    ensures
        owed(handlers, id, gpadl_id) == 0,
    decreases handlers.len(),
{
    if handlers.len() > 0 {
        assert forall|i: int| 0 <= i < handlers.len() - 1 implies !owes(
            #[trigger] handlers.drop_last()[i],
            id,
            gpadl_id,
        ) by {
            assert(handlers.drop_last()[i] == handlers[i]);
        }
        lemma_owed_nothing(handlers.drop_last(), id, gpadl_id);
    }
}

/// What a handler has to delete after the step that drains `order`, together with
/// what the step deletes, is `order`.
proof fn lemma_drain_accounts<W>(
    order: Seq<u32>,
    step: RequestStep<W>,
    channel: u64,
    gpadl_id: u32,
)
    requires
        order.no_duplicates(),
        crate::request::drains(channel, order, step),
    ensures
        drains_once(waiting_after(channel, step)),
        step is Run,
        count(order.contains(gpadl_id)) == count(
            step->command == (RequestCommand::<W>::DeleteGpadl { id: channel, gpadl_id }),
        ) + count(owes(waiting_after(channel, step), channel, gpadl_id)),
{
    if order.len() > 0 {
        let rest = order.drop_last();
        assert(order =~= rest.push(order.last()));
        if rest.contains(gpadl_id) {
            let i = rest.index_of(gpadl_id);
            assert(order[i] == gpadl_id);
        }
        if order.contains(gpadl_id) && gpadl_id != order.last() {
            let i = order.index_of(gpadl_id);
            assert(rest[i] == gpadl_id);
        }
        if gpadl_id == order.last() {
            assert(order[order.len() - 1] == gpadl_id);
        }
    }
}

proof fn lemma_drains_once<S, W>(history: History<S, W>, n: nat)
    requires
        history.valid(),
        n < history.systems.len(),
    ensures
        forall|i: int|
            0 <= i < history.systems[n as int].handlers.len() ==> drains_once(
                #[trigger] history.systems[n as int].handlers[i],
            ),
    decreases n,
{
    if n > 0 {
        let k = n - 1;
        lemma_drains_once(history, k as nat);
        let pre = history.systems[k];
        let post = history.systems[k + 1];
        assert(moves(pre, history.occurrences[k], post));
        match history.occurrences[k] {
            Occurrence::Resume { index, event, step } => {
                let waiting = pre.handlers[index]->0;
                assert(drains_once(pre.handlers[index]));
                match waiting.phase {
                    RequestPhase::Disconnecting => {
                        let order = choose|order: Seq<u32>|
                            crate::table::lists(order, pre.state.registered(waiting.id))
                                && #[trigger] crate::request::drains(waiting.id, order, step);
                        lemma_drain_accounts(order, step, waiting.id, 0);
                    },
                    RequestPhase::Draining { remaining } => {
                        lemma_drain_accounts(remaining@, step, waiting.id, 0);
                    },
                    _ => {},
                }
            },
            _ => {},
        }
    }
}

/// Whatever runs beside what, a GPADL that was registered is still registered, or
/// waits in one handler to be deleted, or was deleted: as often as it was
/// registered, and no more often.
pub proof fn law_gpadls_are_accounted_for<S, W>(
    history: History<S, W>,
    n: nat,
    id: u64,
    gpadl_id: u32,
)
    requires
        history.valid(),
        n < history.systems.len(),
    ensures
        history.registrations(n, id, gpadl_id) == history.deletions(n, id, gpadl_id) + count(
            history.systems[n as int].state.registered(id).contains(gpadl_id),
        ) + owed(history.systems[n as int].handlers, id, gpadl_id),
    decreases n,
{
    if n > 0 {
        let k = n - 1;
        law_gpadls_are_accounted_for(history, k as nat, id, gpadl_id);
        lemma_drains_once(history, k as nat);
        let pre = history.systems[k];
        let post = history.systems[k + 1];
        assert(moves(pre, history.occurrences[k], post));
        match history.occurrences[k] {
            Occurrence::Start { id: channel, request, step } => {
                lemma_owed_push(pre.handlers, waiting_after(channel, step), id, gpadl_id);
            },
            Occurrence::Resume { index, event, step } => {
                let waiting = pre.handlers[index]->0;
                let after = waiting_after(waiting.id, step);
                assert(drains_once(pre.handlers[index]));
                lemma_owed_update(pre.handlers, index, after, id, gpadl_id);
                match waiting.phase {
                    RequestPhase::Disconnecting => {
                        let order = choose|order: Seq<u32>|
                            crate::table::lists(order, pre.state.registered(waiting.id))
                                && #[trigger] crate::request::drains(waiting.id, order, step);
                        lemma_drain_accounts(order, step, waiting.id, gpadl_id);
                        assert(order.to_set().contains(gpadl_id) == order.contains(gpadl_id));
                    },
                    RequestPhase::Draining { remaining } => {
                        lemma_drain_accounts(remaining@, step, waiting.id, gpadl_id);
                    },
                    _ => {},
                }
            },
            Occurrence::Driver { encoding, phase, event, step } => {},
        }
    }
}

/// Once a channel has no GPADL registered and no handler is left that deletes one
/// of it, every GPADL of the channel has been deleted exactly as often as it was
/// registered.
pub proof fn law_every_gpadl_is_deleted_once<S, W>(
    history: History<S, W>,
    n: nat,
    id: u64,
    gpadl_id: u32,
)
    requires
        history.valid(),
        n < history.systems.len(),
        !history.systems[n as int].state.registered(id).contains(gpadl_id),
        forall|i: int|
            0 <= i < history.systems[n as int].handlers.len() ==> !owes(
                #[trigger] history.systems[n as int].handlers[i],
                id,
                gpadl_id,
            ),
    ensures
        history.deletions(n, id, gpadl_id) == history.registrations(n, id, gpadl_id),
{
    law_gpadls_are_accounted_for(history, n, id, gpadl_id);
    lemma_owed_nothing(history.systems[n as int].handlers, id, gpadl_id);
}

/// A channel that is open stays open with the same worker, whatever is registered,
/// torn down, offered or revoked meanwhile, until a worker is started for it anew, it
/// is closed, it is released or it is offered anew.
pub proof fn law_open_channel_keeps_worker<S, W>(
    history: History<S, W>,
    m: int,
    n: int,
    id: u64,
    worker: W,
)
    requires
        history.valid(),
        0 <= m <= n < history.systems.len(),
        history.systems[m].state.channels.contains_key(id),
        history.systems[m].state.channels[id].worker_result == Some(worker),
        forall|k: int|
            m <= k < n ==> !#[trigger] history.released(k, id) && !history.answered(k, id)
                && !history.resumed(k, id, RequestPhase::StartingWorker) && !history.resumed(
                k,
                id,
                RequestPhase::Closing,
            ),
    ensures
        history.systems[n].state.channels.contains_key(id),
        history.systems[n].state.channels[id].worker_result == Some(worker),
        crate::request::can_resume(
            history.systems[n].state,
            id,
            RequestPhase::Closing,
            RequestEvent::<W>::Closed(true),
        ),
    decreases n,
{
    if m < n {
        let k = n - 1;
        law_open_channel_keeps_worker(history, m, k, id, worker);
        assert(!history.released(k, id));
        assert(moves(history.systems[k], history.occurrences[k], history.systems[k + 1]));
    }
}

/// The handle that came with the server's consent stays in its channel until the
/// driver revokes the channel, or it is released or offered anew.
pub proof fn law_channel_keeps_handle<S, W>(
    history: History<S, W>,
    m: int,
    n: int,
    id: u64,
    sender: S,
)
    requires
        history.valid(),
        0 <= m <= n < history.systems.len(),
        history.systems[m].state.channels.contains_key(id),
        history.systems[m].state.channels[id].server_request_send == Some(sender),
        forall|k: int|
            m <= k < n ==> !#[trigger] history.released(k, id) && !history.answered(k, id)
                && !history.revoked(k, id),
    ensures
        history.systems[n].state.channels.contains_key(id),
        history.systems[n].state.channels[id].server_request_send == Some(sender),
    decreases n,
{
    if m < n {
        let k = n - 1;
        law_channel_keeps_handle(history, m, k, id, sender);
        assert(!history.released(k, id));
        assert(moves(history.systems[k], history.occurrences[k], history.systems[k + 1]));
    }
}

/// A channel that is known stays known until it is released, and can be revoked all
/// that time.
pub proof fn law_channel_stays_known<S, W>(
    history: History<S, W>,
    encoding: OfferEncoding,
    m: int,
    n: int,
    id: u64,
)
    requires
        history.valid(),
        0 <= m <= n < history.systems.len(),
        history.systems[m].state.channels.contains_key(id),
        forall|k: int| m <= k < n ==> !#[trigger] history.released(k, id),
    ensures
        history.systems[n].state.channels.contains_key(id),
        crate::driver::can_take(
            encoding,
            history.systems[n].state,
            DriverPhase::Idle,
            DriverEvent::<S>::Action(ProxyAction::Revoke { id }),
        ),
    decreases n,
{
    if m < n {
        let k = n - 1;
        law_channel_stays_known(history, encoding, m, k, id);
        assert(!history.released(k, id));
        assert(moves(history.systems[k], history.occurrences[k], history.systems[k + 1]));
    }
}

/// A GPADL that is registered stays registered until it is torn down or its channel
/// is disconnected, and can be torn down all that time.
pub proof fn law_gpadl_stays_registered<S, W>(
    history: History<S, W>,
    m: int,
    n: int,
    id: u64,
    gpadl_id: u32,
)
    requires
        history.valid(),
        0 <= m <= n < history.systems.len(),
        history.systems[m].state.gpadls.contains_key(id),
        history.systems[m].state.gpadls[id].contains(gpadl_id),
        forall|k: int|
            m <= k < n ==> !#[trigger] history.torn_down(k, id, gpadl_id) && !history.resumed(
                k,
                id,
                RequestPhase::Disconnecting,
            ),
    ensures
        history.systems[n].state.gpadls.contains_key(id),
        history.systems[n].state.gpadls[id].contains(gpadl_id),
        crate::request::can_start(
            history.systems[n].state,
            id,
            Some(ChannelRequest::TeardownGpadl(gpadl_id)),
        ),
    decreases n,
{
    if m < n {
        let k = n - 1;
        law_gpadl_stays_registered(history, m, k, id, gpadl_id);
        assert(!history.torn_down(k, id, gpadl_id));
        assert(moves(history.systems[k], history.occurrences[k], history.systems[k + 1]));
    }
}

/// Nothing comes by itself. A channel becomes known only on the server's answer to
/// its offer, gets a handle only with the server's consent, gets a worker only where
/// one was started for it, and has a GPADL registered only where the driver consented
/// to that GPADL.
pub proof fn law_where_things_come_from<S, W>(
    history: History<S, W>,
    k: int,
    id: u64,
    gpadl_id: u32,
)
    requires
        history.valid(),
        0 <= k < history.occurrences.len(),
    ensures
        ({
            let pre = history.systems[k].state;
            let post = history.systems[k + 1].state;
            &&& post.channels.contains_key(id) && !pre.channels.contains_key(id)
                ==> history.answered(k, id)
            &&& post.channels.contains_key(id) && post.channels[id].server_request_send is Some
                && !(pre.channels.contains_key(id) && pre.channels[id].server_request_send
                == post.channels[id].server_request_send) ==> history.answered(k, id)
                && history.occurrences[k]->Driver_event == DriverEvent::Accepted(
                post.channels[id].server_request_send->0,
            )
            &&& post.channels.contains_key(id) && post.channels[id].worker_result is Some && !(
            pre.channels.contains_key(id) && pre.channels[id].worker_result
                == post.channels[id].worker_result) ==> history.resumed(
                k,
                id,
                RequestPhase::StartingWorker,
            ) && history.occurrences[k]->Resume_event == RequestEvent::WorkerStarted(
                post.channels[id].worker_result->0,
            )
            &&& post.gpadls.contains_key(id) && post.gpadls[id].contains(gpadl_id) && !(
            pre.gpadls.contains_key(id) && pre.gpadls[id].contains(gpadl_id)) ==> history.resumed(
                k,
                id,
                RequestPhase::CreatingGpadl { gpadl_id },
            ) && history.occurrences[k]->Resume_event == RequestEvent::<W>::GpadlCreated(true)
        }),
{
    assert(moves(history.systems[k], history.occurrences[k], history.systems[k + 1]));
}

} // verus!
