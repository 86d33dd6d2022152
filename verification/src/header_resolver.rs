//! The bookkeeping behind on-demand header art.
//!
//! A catalog row whose guessed artwork URLs all fail asks for its real header image. Requests wait
//! in a short queue for a worker, and what a worker found is remembered per app.
use std::collections::{HashMap, VecDeque};
use vstd::prelude::*;

verus! {

broadcast use vstd::std_specs::hash::group_hash_axioms;

/// How many workers resolve headers in parallel. Each takes app IDs off the shared queue, so this
/// parallelises latency; the store's own limiter still caps the request rate.
pub const HEADER_RESOLVER_WORKERS: usize = 4;

/// Upper bound on queued-but-unstarted header resolutions.
///
/// The queue is a window on the most recently requested apps: a request past the bound drops the
/// oldest entry, which is the one least likely to still be on screen.
pub const HEADER_RESOLVER_QUEUE_LIMIT: usize = 48;

/// What is known about an app's header image.
pub enum HeaderSlot {
    /// A resolution is in flight or queued.
    Pending,
    /// The header URL that the store reported.
    Resolved(String),
    /// The store had no usable header.
    Failed,
}

/// The header art known so far, and the apps still waiting for a worker.
pub struct HeaderResolver {
    pub slots: HashMap<u32, HeaderSlot>,
    pub queue: VecDeque<u32>,
}

/// The mathematical model of a `HeaderResolver`.
#[verifier::ext_equal]
pub ghost struct ResolverModel {
    pub slots: Map<u32, HeaderSlot>,
    pub queue: Seq<u32>,
}

impl View for HeaderResolver {
    type V = ResolverModel;

    open spec fn view(&self) -> ResolverModel {
        ResolverModel { slots: self.slots@, queue: self.queue@ }
    }
}

impl ResolverModel {
    /// The queue is bounded, names no app twice, and every app in it is marked pending.
    pub open spec fn wf(self) -> bool {
        &&& self.queue.len() <= HEADER_RESOLVER_QUEUE_LIMIT
        &&& self.queue.no_duplicates()
        &&& forall|i: int|
            0 <= i < self.queue.len() ==> {
                &&& self.slots.contains_key(#[trigger] self.queue[i])
                &&& self.slots[self.queue[i]] == HeaderSlot::Pending
            }
    }

    /// Whether a worker has taken the app off the queue and has not reported back.
    pub open spec fn in_flight(self, app_id: u32) -> bool {
        &&& self.slots.contains_key(app_id)
        &&& self.slots[app_id] == HeaderSlot::Pending
        &&& !self.queue.contains(app_id)
    }

    /// A request for `app_id`: nothing where the app is known, else the app joins the queue, and
    /// the oldest entry leaves a full queue together with its marker.
    pub open spec fn requested(self, app_id: u32) -> ResolverModel {
        if self.slots.contains_key(app_id) {
            self
        } else if self.queue.len() < HEADER_RESOLVER_QUEUE_LIMIT {
            ResolverModel {
                slots: self.slots.insert(app_id, HeaderSlot::Pending),
                queue: self.queue.push(app_id),
            }
        } else {
            ResolverModel {
                slots: self.slots.insert(app_id, HeaderSlot::Pending).remove(self.queue[0]),
                queue: self.queue.drop_first().push(app_id),
            }
        }
    }

    /// The backlog forgotten: the queue empty, and none of its apps marked any more.
    pub open spec fn cancelled(self) -> ResolverModel {
        ResolverModel {
            slots: self.slots.remove_keys(self.queue.to_set()),
            queue: Seq::empty(),
        }
    }
}

impl HeaderResolver {
    /// A resolver that knows no app yet.
    pub fn new() -> (resolver: Self)
        ensures
            resolver@.wf(),
            resolver@.slots == Map::<u32, HeaderSlot>::empty(),
            resolver@.queue == Seq::<u32>::empty(),
    {
        HeaderResolver { slots: HashMap::new(), queue: VecDeque::new() }
    }

    /// The resolved header URL if one is already known. Never triggers a request: `None` while the
    /// app is unknown, pending or failed.
    pub fn get(&self, app_id: u32) -> (url: Option<String>)
        ensures
            url == (if self@.slots.contains_key(app_id) {
                match self@.slots[app_id] {
                    HeaderSlot::Resolved(url) => Some(url),
                    _ => None,
                }
            } else {
                None
            }),
    {
        match self.slots.get(&app_id) {
            Some(HeaderSlot::Resolved(url)) => Some(url.clone()),
            _ => None,
        }
    }

    /// Queues a resolution the first time an app is asked for, and does nothing once the app is
    /// pending, resolved or known to have failed, so it may be called on every frame.
    pub fn request(&mut self, app_id: u32)
        requires
            old(self)@.wf(),
        ensures
            final(self)@.wf(),
            final(self)@ == old(self)@.requested(app_id),
    {
        if self.slots.contains_key(&app_id) {
            return;
        }
        self.slots.insert(app_id, HeaderSlot::Pending);
        self.queue.push_back(app_id);
        assert(forall|i: int| 0 <= i < old(self)@.queue.len() ==> old(self)@.queue[i] != app_id);
        if self.queue.len() > HEADER_RESOLVER_QUEUE_LIMIT {
            if let Some(dropped) = self.queue.pop_front() {
                self.slots.remove(&dropped);
                assert(dropped == old(self)@.queue[0]);
            }
            assert(self.queue@ =~= old(self)@.queue.drop_first().push(app_id));
        }
    }

    /// Hands the app that has waited longest to a worker.
    pub fn take_next(&mut self) -> (app_id: Option<u32>)
        requires
            old(self)@.wf(),
        ensures
            final(self)@.wf(),
            final(self)@.slots == old(self)@.slots,
            app_id is Some <==> old(self)@.queue.len() > 0,
            app_id is None ==> final(self)@ == old(self)@,
            app_id is Some ==> app_id->0 == old(self)@.queue[0] && final(self)@.queue
                == old(self)@.queue.drop_first() && final(self)@.in_flight(app_id->0),
    {
        let next = self.queue.pop_front();
        proof {
            if old(self)@.queue.len() > 0 {
                assert(self.queue@ =~= old(self)@.queue.drop_first());
            } else {
                assert(self.queue@ =~= old(self)@.queue);
            }
        }
        next
    }

    /// Remembers what a worker found for an app that it took off the queue.
    pub fn store_result(&mut self, app_id: u32, found: Result<String, String>)
        requires
            old(self)@.wf(),
            !old(self)@.queue.contains(app_id),
        ensures
            final(self)@.wf(),
            final(self)@.queue == old(self)@.queue,
            final(self)@.slots == old(self)@.slots.insert(
                app_id,
                match found {
                    Ok(url) => HeaderSlot::Resolved(url),
                    Err(_) => HeaderSlot::Failed,
                },
            ),
    {
        let slot = match found {
            Ok(url) => HeaderSlot::Resolved(url),
            Err(_) => HeaderSlot::Failed,
        };
        self.slots.insert(app_id, slot);
    }

    /// Drops everything still waiting for a worker, for example when the user leaves a long list.
    /// Work already in flight keeps its marker.
    pub fn cancel_pending(&mut self)
        requires
            old(self)@.wf(),
        ensures
            final(self)@.wf(),
            final(self)@ == old(self)@.cancelled(),
    {
        let ghost slots = self.slots@;
        let ghost all = self.queue@;
        assert(all.skip(0) =~= all);
        while self.queue.len() > 0
            invariant
                self.queue@.len() <= all.len(),
                self.queue@ == all.skip(all.len() - self.queue@.len()),
                self.slots@ == slots.remove_keys(
                    all.take(all.len() - self.queue@.len()).to_set(),
                ),
            decreases self.queue@.len(),
        {
            let ghost done = all.len() - self.queue@.len();
            if let Some(dropped) = self.queue.pop_front() {
                self.slots.remove(&dropped);
                proof {
                    assert(dropped == all[done]);
                    assert(self.queue@ =~= all.skip(done + 1));
                    assert(all.take(done + 1) =~= all.take(done).push(dropped));
                    assert(all.take(done + 1).to_set() =~= all.take(done).to_set().insert(dropped))
                        by {
                        assert forall|x: u32|
                            all.take(done + 1).contains(x) implies all.take(done).to_set().insert(
                            dropped,
                        ).contains(x) by {}
                        assert(all.take(done + 1)[done] == dropped);
                        assert forall|x: u32| all.take(done).contains(x) implies all.take(
                            done + 1,
                        ).contains(x) by {
                            let i = choose|i: int| 0 <= i < done && all.take(done)[i] == x;
                            assert(all.take(done + 1)[i] == x);
                        }
                    }
                    assert(self.slots@ =~= slots.remove_keys(all.take(done + 1).to_set()));
                }
            }
        }
        assert(all.take(all.len() as int) =~= all);
        assert(self.queue@ =~= Seq::empty());
    }
}

/// Asking for an app a second time changes nothing, so a row may ask on every frame.
pub proof fn repeated_request_is_a_no_op(model: ResolverModel, app_id: u32)
    requires
        model.wf(),
    ensures
        model.requested(app_id).requested(app_id) == model.requested(app_id),
{
    if !model.slots.contains_key(app_id) && model.queue.len() >= HEADER_RESOLVER_QUEUE_LIMIT {
        assert(model.queue[0] != app_id);
    }
}

/// A request never makes the backlog longer than the limit, however many were made before.
pub proof fn backlog_stays_bounded(model: ResolverModel, app_ids: Seq<u32>)
    requires
        model.wf(),
    ensures
        requested_all(model, app_ids).wf(),
        requested_all(model, app_ids).queue.len() <= HEADER_RESOLVER_QUEUE_LIMIT,
    decreases app_ids.len(),
{
    if app_ids.len() > 0 {
        backlog_stays_bounded(model, app_ids.drop_last());
        let before = requested_all(model, app_ids.drop_last());
        let app_id = app_ids.last();
        assert(before.requested(app_id).wf()) by {
            if !before.slots.contains_key(app_id) {
                assert(forall|i: int| 0 <= i < before.queue.len() ==> before.queue[i] != app_id);
            }
        }
    }
}

/// The model after one request for each of `app_ids` in turn.
pub open spec fn requested_all(model: ResolverModel, app_ids: Seq<u32>) -> ResolverModel
    decreases app_ids.len(),
{
    if app_ids.len() == 0 {
        model
    } else {
        requested_all(model, app_ids.drop_last()).requested(app_ids.last())
    }
}

/// An app in a worker's hands stays off the queue, whatever is requested or cancelled meanwhile, so
/// that the worker's answer never meets a second request for the same app.
pub proof fn app_in_flight_stays_in_flight(model: ResolverModel, app_id: u32, other: u32)
    requires
        model.wf(),
        model.in_flight(app_id),
    ensures
        model.requested(other).in_flight(app_id),
        model.cancelled().in_flight(app_id),
{
    let after = model.requested(other);
    if after.queue.contains(app_id) {
        let i = choose|i: int| 0 <= i < after.queue.len() && after.queue[i] == app_id;
        assert(model.queue.contains(app_id)) by {
            if model.queue.len() < HEADER_RESOLVER_QUEUE_LIMIT {
                assert(model.queue[i] == app_id);
            } else {
                assert(model.queue[i + 1] == app_id);
            }
        }
    }
    if model.queue.len() > 0 {
        assert(model.queue.contains(model.queue[0]));
    }
}

/// The app that an overflowing request pushes out may be asked for again: it then stands in the
/// queue as the newest entry.
pub proof fn evicted_app_can_return(model: ResolverModel, app_id: u32)
    requires
        model.wf(),
        model.queue.len() == HEADER_RESOLVER_QUEUE_LIMIT,
        !model.slots.contains_key(app_id),
    ensures
        ({
            let evicted = model.queue[0];
            let after = model.requested(app_id);
            &&& !after.slots.contains_key(evicted)
            &&& after.requested(evicted).queue.last() == evicted
            &&& after.requested(evicted).slots[evicted] == HeaderSlot::Pending
        }),
{
    assert(model.queue[0] != app_id);
    assert(model.requested(app_id).queue[0] == model.queue[1]);
}

/// Cancelling leaves every answer that is already known, and every app a worker has taken, as it
/// was; an app of the cancelled backlog can be asked for again.
pub proof fn cancelling_keeps_answers(model: ResolverModel, app_id: u32)
    requires
        model.wf(),
    ensures
        !model.queue.contains(app_id) ==> {
            &&& model.cancelled().slots.contains_key(app_id) == model.slots.contains_key(app_id)
            &&& model.slots.contains_key(app_id) ==> model.cancelled().slots[app_id]
                == model.slots[app_id]
        },
        model.queue.contains(app_id) ==> model.cancelled().requested(app_id).queue == seq![app_id],
{
    if model.queue.contains(app_id) {
        assert(!model.cancelled().slots.contains_key(app_id));
        assert(model.cancelled().requested(app_id).queue =~= seq![app_id]);
    }
}

} // verus!
