//! What the header art and the limiter promise.
use crate::header_resolver::{HeaderResolver, HeaderSlot};
use crate::rate_limiter::RateLimiter;
use vstd::prelude::*;

verus! {

broadcast use vstd::std_specs::hash::group_hash_axioms;

/// An app that is asked for the first time waits behind those before it. A second request changes
/// nothing. Where more than forty-eight wait, the one that waited longest gives way.
pub proof fn a_request_waits_its_turn(
    resolver: &mut HeaderResolver,
    app_id: u32,
    again: &mut HeaderResolver,
)
    requires
        old(resolver)@.wf(),
        call_ensures(HeaderResolver::request, (resolver, app_id), ()),
        *old(again) == *final(resolver),
        call_ensures(HeaderResolver::request, (again, app_id), ()),
    ensures
        !old(resolver).slots@.contains_key(app_id) ==> final(resolver).queue@.len() > 0
            && final(resolver).queue@.last() == app_id && final(
            resolver).slots@.contains_key(app_id) && final(resolver).slots@[app_id]
            == HeaderSlot::Pending,
        old(resolver).slots@.contains_key(app_id) ==> final(resolver).queue@
            == old(resolver).queue@ && final(resolver).slots@ == old(resolver).slots@,
        final(again).queue@ == final(resolver).queue@,
        final(again).slots@ == final(resolver).slots@,
        final(resolver).queue@.len() <= 48,
        old(resolver).queue@.len() < 48 && !old(resolver).slots@.contains_key(app_id) ==> final(
            resolver).queue@ == old(resolver).queue@.push(app_id),
        old(resolver).queue@.len() == 48 && !old(resolver).slots@.contains_key(app_id) ==> final(
            resolver).queue@ == old(resolver).queue@.skip(1).push(app_id) && !final(
            resolver).slots@.contains_key(old(resolver).queue@[0]),
{
    let before = old(resolver)@;
    if before.queue.len() == 48 && !before.slots.contains_key(app_id) {
        assert(before.queue.drop_first() =~= before.queue.skip(1));
        assert(before.slots.contains_key(before.queue[0]));
    }
}

/// Workers take the apps in the order in which they were asked for, each once.
pub proof fn the_first_request_is_taken_first(
    resolver: &mut HeaderResolver,
    first: Option<u32>,
    again: &mut HeaderResolver,
    second: Option<u32>,
)
    requires
        old(resolver)@.wf(),
        call_ensures(HeaderResolver::take_next, (resolver,), first),
        *old(again) == *final(resolver),
        call_ensures(HeaderResolver::take_next, (again,), second),
    ensures
        first is None <==> old(resolver).queue@.len() == 0,
        first is Some ==> first == Some(old(resolver).queue@[0]),
        old(resolver).queue@.len() > 1 ==> second == Some(old(resolver).queue@[1]) && second
            != first,
        old(resolver).queue@.len() <= 1 ==> second is None,
        final(resolver).slots@ == old(resolver).slots@,
{
    let queue = old(resolver)@.queue;
    if queue.len() > 1 {
        assert(queue.drop_first()[0] == queue[1]);
        assert(queue[0] != queue[1]);
    }
}

/// What a worker found is what is shown from then on, for that app alone. A failure shows nothing,
/// and the app is not asked for again.
pub proof fn what_was_found_is_shown(
    resolver: &mut HeaderResolver,
    app_id: u32,
    found: Result<String, String>,
    after: &HeaderResolver,
    shown: Option<String>,
    other: u32,
    before: Option<String>,
    still: Option<String>,
    again: &mut HeaderResolver,
)
    requires
        old(resolver)@.wf(),
        !old(resolver)@.queue.contains(app_id),
        call_ensures(HeaderResolver::store_result, (resolver, app_id, found), ()),
        *after == *final(resolver),
        call_ensures(HeaderResolver::get, (after, app_id), shown),
        other != app_id,
        call_ensures(HeaderResolver::get, (&*old(resolver), other), before),
        call_ensures(HeaderResolver::get, (after, other), still),
        *old(again) == *final(resolver),
        call_ensures(HeaderResolver::request, (again, app_id), ()),
    ensures
        found matches Ok(url) ==> shown == Some(url),
        found is Err ==> shown is None,
        still == before,
        final(resolver).queue@ == old(resolver).queue@,
        final(again).queue@ == final(resolver).queue@,
{
}

/// A new resolver knows nothing, and nothing is shown before it was found.
pub proof fn nothing_is_shown_before_it_was_found(
    fresh: HeaderResolver,
    app_id: u32,
    shown: Option<String>,
    resolver: &HeaderResolver,
    url: Option<String>,
)
    requires
        call_ensures(HeaderResolver::new, (), fresh),
        call_ensures(HeaderResolver::get, (&fresh, app_id), shown),
        call_ensures(HeaderResolver::get, (resolver, app_id), url),
    ensures
        shown is None,
        fresh.queue@.len() == 0,
        url matches Some(text) ==> resolver.slots@.contains_key(app_id) && resolver.slots@[app_id]
            == HeaderSlot::Resolved(text),
        resolver.slots@.contains_key(app_id) && (resolver.slots@[app_id] matches HeaderSlot::Resolved(
            text,
        )) ==> url == Some(resolver.slots@[app_id]->Resolved_0),
{
}

/// A cancel forgets those that wait, who can ask again, and keeps every answer.
pub proof fn a_cancel_forgets_the_waiting(
    resolver: &mut HeaderResolver,
    after: &HeaderResolver,
    app_id: u32,
    before: Option<String>,
    still: Option<String>,
    again: &mut HeaderResolver,
)
    requires
        old(resolver)@.wf(),
        call_ensures(HeaderResolver::cancel_pending, (resolver,), ()),
        *after == *final(resolver),
        call_ensures(HeaderResolver::get, (&*old(resolver), app_id), before),
        call_ensures(HeaderResolver::get, (after, app_id), still),
        *old(again) == *final(resolver),
        call_ensures(HeaderResolver::request, (again, app_id), ()),
    ensures
        final(resolver).queue@.len() == 0,
        still == before,
        old(resolver).queue@.contains(app_id) ==> final(again).queue@ == seq![app_id],
        !old(resolver).queue@.contains(app_id) && old(resolver).slots@.contains_key(app_id)
            ==> final(again).queue@.len() == 0,
{
    crate::header_resolver::cancelling_keeps_answers(old(resolver)@, app_id);
    let model = old(resolver)@;
    if model.queue.contains(app_id) {
        let i = choose|i: int| 0 <= i < model.queue.len() && model.queue[i] == app_id;
        assert(model.slots[model.queue[i]] == HeaderSlot::Pending);
        assert(model.queue.to_set().contains(app_id));
    }
}

/// The limiter grants a request while fewer than its maximum were granted within its window, and
/// remembers exactly those and the new one.
pub proof fn requests_within_the_window_count(
    limiter: &mut RateLimiter,
    now: u128,
    verdict: Result<(), u128>,
)
    requires
        old(limiter).window > 0,
        call_ensures(RateLimiter::check, (limiter, now), verdict),
    ensures
        ({
            let window = old(limiter).window;
            let counted = old(limiter).hits@.filter(|hit: u128| now < hit + window);
            &&& verdict is Ok <==> counted.len() < old(limiter).max
            &&& verdict is Ok ==> final(limiter).hits@ == counted.push(now)
            &&& verdict is Err ==> final(limiter).hits@ == counted
            &&& final(limiter).window == window
            &&& final(limiter).max == old(limiter).max
        }),
{
    let window = old(limiter).window;
    let a = |hit: u128| crate::rate_limiter::elapsed(now, hit) < window;
    let b = |hit: u128| now < hit + window;
    assert forall|hit: u128| #[trigger] a(hit) == b(hit) by {}
    assert(a =~= b);
    assert(crate::rate_limiter::in_window(old(limiter).hits@, now, window) == old(
        limiter).hits@.filter(b));
}

/// One request per window: a second is refused until the window has passed since the first, and the
/// wait that it is told leads exactly to that moment.
pub proof fn the_wait_ends_with_the_window(
    window: u128,
    fresh: RateLimiter,
    limiter: &mut RateLimiter,
    now: u128,
    first: Result<(), u128>,
    again: &mut RateLimiter,
    later: u128,
    second: Result<(), u128>,
)
    requires
        call_ensures(RateLimiter::new, (1usize, window), fresh),
        *old(limiter) == fresh,
        call_ensures(RateLimiter::check, (limiter, now), first),
        *old(again) == *final(limiter),
        call_ensures(RateLimiter::check, (again, later), second),
        now <= later,
    ensures
        first is Ok,
        second is Ok <==> later >= now + window,
        second matches Err(wait) ==> later + wait == now + window,
{
    reveal(Seq::filter);
    let empty = Seq::<u128>::empty();
    assert(crate::rate_limiter::in_window(empty, now, window) =~= empty);
    assert(fresh.hits@ =~= empty);
    let hits = final(limiter).hits@;
    assert(hits =~= seq![now]);
    let keep = |hit: u128| crate::rate_limiter::elapsed(later, hit) < window;
    assert(hits.drop_last() =~= empty);
    assert(hits.drop_last().filter(keep) =~= empty);
    assert(hits.last() == now);
    assert(hits.filter(keep) =~= if keep(now) {
        seq![now]
    } else {
        empty
    });
    assert(crate::rate_limiter::in_window(hits, later, window) == hits.filter(keep));
}

} // verus!
