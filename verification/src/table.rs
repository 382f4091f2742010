//! What the task remembers of the channels that the driver has offered.

use std::collections::HashMap;
use std::collections::HashSet;
use vstd::prelude::*;

verus! {

broadcast use vstd::std_specs::hash::group_hash_axioms;

/// One offered channel. `S` is the handle whose drop revokes the channel at the
/// server, `W` the handle on which the end of the channel's worker is awaited.
pub struct Channel<S, W> {
    /// Present from the server's consent until the driver revokes the channel.
    pub server_request_send: Option<S>,
    /// Present while the channel is open.
    pub worker_result: Option<W>,
}

/// The channels by the identifier that the driver gave them, and the GPADLs that
/// are registered with the driver for each of them.
pub struct ProxyTask<S, W> {
    channels: HashMap<u64, Channel<S, W>>,
    gpadls: HashMap<u64, HashSet<u32>>,
}

/// The contents of a `ProxyTask`.
#[verifier::ext_equal]
pub struct ProxyState<S, W> {
    pub channels: Map<u64, Channel<S, W>>,
    pub gpadls: Map<u64, Set<u32>>,
}

impl<S, W> ProxyState<S, W> {
    /// No channel and no GPADL.
    pub open spec fn empty() -> Self {
        ProxyState { channels: Map::empty(), gpadls: Map::empty() }
    }

    /// The GPADLs that are registered for channel `id`.
    pub open spec fn registered(self, id: u64) -> Set<u32> {
        if self.gpadls.contains_key(id) {
            self.gpadls[id]
        } else {
            Set::empty()
        }
    }

    /// Channel `id` is known and open.
    pub open spec fn is_open(self, id: u64) -> bool {
        self.channels.contains_key(id) && self.channels[id].worker_result is Some
    }

    /// `self` with `channel` known as `id`.
    pub open spec fn with_channel(self, id: u64, channel: Channel<S, W>) -> Self {
        ProxyState { channels: self.channels.insert(id, channel), ..self }
    }

    /// `self` with the known channel `id` having `worker` for its worker.
    pub open spec fn with_worker(self, id: u64, worker: Option<W>) -> Self {
        self.with_channel(id, Channel { worker_result: worker, ..self.channels[id] })
    }

    /// `self` with the server's handle of the known channel `id` taken out.
    pub open spec fn without_sender(self, id: u64) -> Self {
        self.with_channel(id, Channel { server_request_send: None, ..self.channels[id] })
    }

    /// `self` with channel `id` forgotten.
    pub open spec fn without_channel(self, id: u64) -> Self {
        ProxyState { channels: self.channels.remove(id), ..self }
    }

    /// `self` with `gpadls` registered for channel `id`.
    pub open spec fn with_gpadls(self, id: u64, gpadls: Set<u32>) -> Self {
        ProxyState { gpadls: self.gpadls.insert(id, gpadls), ..self }
    }

    /// `self` with nothing known of the GPADLs of channel `id`.
    pub open spec fn without_gpadls(self, id: u64) -> Self {
        ProxyState { gpadls: self.gpadls.remove(id), ..self }
    }

    /// `self` and `other` hold the same of channel `id`.
    pub open spec fn agrees_on(self, other: Self, id: u64) -> bool {
        &&& self.channels.contains_key(id) == other.channels.contains_key(id)
        &&& self.channels.contains_key(id) ==> self.channels[id] == other.channels[id]
        &&& self.gpadls.contains_key(id) == other.gpadls.contains_key(id)
        &&& self.gpadls.contains_key(id) ==> self.gpadls[id] == other.gpadls[id]
    }
}

/// `list` names every element of `set` once, and nothing else.
pub open spec fn lists(list: Seq<u32>, set: Set<u32>) -> bool {
    &&& list.no_duplicates()
    &&& list.to_set() == set
}

impl<S, W> View for ProxyTask<S, W> {
    type V = ProxyState<S, W>;

    closed spec fn view(&self) -> ProxyState<S, W> {
        ProxyState {
            channels: self.channels@,
            gpadls: self.gpadls@.map_values(|set: HashSet<u32>| set@),
        }
    }
}

impl<S, W> ProxyTask<S, W> {
    /// A task to which nothing has been offered yet.
    pub fn new() -> (task: Self)
        ensures
            task@ == ProxyState::<S, W>::empty(),
    {
        let task = ProxyTask { channels: HashMap::new(), gpadls: HashMap::new() };
        assert(task@.gpadls =~= Map::empty());
        task
    }

    /// Whether channel `id` is known.
    pub fn has_channel(&self, id: u64) -> (known: bool)
        ensures
            known == self@.channels.contains_key(id),
    {
        self.channels.contains_key(&id)
    }

    /// Whether channel `id` is known and open.
    pub fn is_open(&self, id: u64) -> (open: bool)
        ensures
            open == self@.is_open(id),
    {
        match self.channels.get(&id) {
            Some(channel) => channel.worker_result.is_some(),
            None => false,
        }
    }

    /// Whether GPADL `gpadl_id` is registered for channel `id`.
    pub fn is_registered(&self, id: u64, gpadl_id: u32) -> (registered: bool)
        ensures
            registered == self@.registered(id).contains(gpadl_id),
    {
        match self.gpadls.get(&id) {
            Some(set) => set.contains(&gpadl_id),
            None => false,
        }
    }

    pub(crate) fn insert_channel(&mut self, id: u64, channel: Channel<S, W>)
        ensures
            final(self)@ == old(self)@.with_channel(id, channel),
    {
        self.channels.insert(id, channel);
    }

    pub(crate) fn remove_channel(&mut self, id: u64)
        ensures
            final(self)@ == old(self)@.without_channel(id),
    {
        self.channels.remove(&id);
    }

    pub(crate) fn set_worker(&mut self, id: u64, worker: W)
        requires
            old(self)@.channels.contains_key(id),
        ensures
            final(self)@ == old(self)@.with_worker(id, Some(worker)),
    {
        if let Some(channel) = self.channels.remove(&id) {
            let channel = Channel { worker_result: Some(worker), ..channel };
            self.channels.insert(id, channel);
        }
        assert(self@.channels =~= old(self)@.with_worker(id, Some(worker)).channels);
    }

    pub(crate) fn take_worker(&mut self, id: u64) -> (worker: Option<W>)
        requires
            old(self)@.channels.contains_key(id),
        ensures
            worker == old(self)@.channels[id].worker_result,
            final(self)@ == old(self)@.with_worker(id, None),
    {
        let mut worker = None;
        if let Some(channel) = self.channels.remove(&id) {
            worker = channel.worker_result;
            let server_request_send = channel.server_request_send;
            self.channels.insert(id, Channel { server_request_send, worker_result: None });
        }
        assert(self@.channels =~= old(self)@.with_worker(id, None).channels);
        worker
    }

    pub(crate) fn take_sender(&mut self, id: u64) -> (sender: Option<S>)
        requires
            old(self)@.channels.contains_key(id),
        ensures
            sender == old(self)@.channels[id].server_request_send,
            final(self)@ == old(self)@.without_sender(id),
    {
        let mut sender = None;
        if let Some(channel) = self.channels.remove(&id) {
            sender = channel.server_request_send;
            let worker_result = channel.worker_result;
            self.channels.insert(id, Channel { server_request_send: None, worker_result });
        }
        assert(self@.channels =~= old(self)@.without_sender(id).channels);
        sender
    }

    pub(crate) fn register_gpadl(&mut self, id: u64, gpadl_id: u32)
        ensures
            final(self)@ == old(self)@.with_gpadls(id, old(self)@.registered(id).insert(gpadl_id)),
    {
        let mut set = match self.gpadls.remove(&id) {
            Some(set) => set,
            None => HashSet::new(),
        };
        set.insert(gpadl_id);
        self.gpadls.insert(id, set);
        assert(self@.gpadls =~= old(self)@.gpadls.insert(
            id,
            old(self)@.registered(id).insert(gpadl_id),
        ));
    }

    pub(crate) fn unregister_gpadl(&mut self, id: u64, gpadl_id: u32)
        requires
            old(self)@.registered(id).contains(gpadl_id),
        ensures
            final(self)@ == old(self)@.with_gpadls(id, old(self)@.registered(id).remove(gpadl_id)),
    {
        if let Some(mut set) = self.gpadls.remove(&id) {
            set.remove(&gpadl_id);
            self.gpadls.insert(id, set);
        }
        assert(self@.gpadls =~= old(self)@.gpadls.insert(
            id,
            old(self)@.registered(id).remove(gpadl_id),
        ));
    }

    /// Forgets the GPADLs of channel `id` and hands them out, in the order in
    /// which the set is walked.
    pub(crate) fn take_gpadls(&mut self, id: u64) -> (gpadls: Vec<u32>)
        ensures
            lists(gpadls@, old(self)@.registered(id)),
            final(self)@ == old(self)@.without_gpadls(id),
    {
        let taken = self.gpadls.remove(&id);
        assert(self@.gpadls =~= old(self)@.gpadls.remove(id));
        let mut gpadls: Vec<u32> = Vec::new();
        if let Some(set) = taken {
            for gpadl_id in walk: set.iter()
                invariant
                    walk.seq().no_duplicates(),
                    walk.seq().unref().to_set() == set@,
                    gpadls@ == walk.seq().unref().take(walk.index()),
                    walk.index() == walk.seq().len() ==> gpadls@ == walk.seq().unref(),
            {
                gpadls.push(*gpadl_id);
                assert(walk.index() + 1 == walk.seq().len() ==> gpadls@ =~= walk.seq().unref());
            }
        } else {
            assert(gpadls@.to_set() =~= Set::empty());
        }
        gpadls
    }
}

} // verus!
