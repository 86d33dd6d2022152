//! A rolling-window rate limiter.
//!
//! Points in time and lengths of time are whole nanoseconds; a point in time is counted from any
//! fixed origin of a monotonic clock.
use vstd::prelude::*;

verus! {

/// Keeps a single user from spamming the API: at most `max` requests in any `window`.
pub struct RateLimiter {
    pub window: u128,
    pub max: usize,
    pub hits: Vec<u128>,
}

/// The time from `then` to `now`, zero where `then` is later.
pub open spec fn elapsed(now: u128, then: u128) -> int {
    if now >= then {
        now - then
    } else {
        0
    }
}

/// The requests that still count at `now`, oldest first.
pub open spec fn in_window(hits: Seq<u128>, now: u128, window: u128) -> Seq<u128> {
    hits.filter(|hit: u128| elapsed(now, hit) < window)
}

/// How long a request that is turned down at `now` has to wait.
pub open spec fn retry_after(counted: Seq<u128>, now: u128, window: u128) -> int {
    let oldest = if counted.len() > 0 {
        counted[0]
    } else {
        now
    };
    if window >= elapsed(now, oldest) {
        window - elapsed(now, oldest)
    } else {
        0
    }
}

/// Whether a request made at `now` is within the limit, given the accepted requests so far.
pub open spec fn accepts(hits: Seq<u128>, now: u128, window: u128, max: usize) -> bool {
    in_window(hits, now, window).len() < max
}

/// The requests that are remembered after one made at `now`.
pub open spec fn remembered(hits: Seq<u128>, now: u128, window: u128, max: usize) -> Seq<u128> {
    if accepts(hits, now, window, max) {
        in_window(hits, now, window).push(now)
    } else {
        in_window(hits, now, window)
    }
}

/// The requests that a new limiter remembers after calls at these times.
pub open spec fn hits_after(calls: Seq<u128>, window: u128, max: usize) -> Seq<u128>
    decreases calls.len(),
{
    if calls.len() == 0 {
        Seq::empty()
    } else {
        remembered(hits_after(calls.drop_last(), window, max), calls.last(), window, max)
    }
}

/// The times at which a new limiter accepts a request, of calls at these times.
pub open spec fn accepted(calls: Seq<u128>, window: u128, max: usize) -> Seq<u128>
    decreases calls.len(),
{
    if calls.len() == 0 {
        Seq::empty()
    } else {
        let before = accepted(calls.drop_last(), window, max);
        if accepts(hits_after(calls.drop_last(), window, max), calls.last(), window, max) {
            before.push(calls.last())
        } else {
            before
        }
    }
}

/// Whether no time is earlier than the one before it.
pub open spec fn in_time_order(times: Seq<u128>) -> bool {
    forall|i: int, j: int| 0 <= i <= j < times.len() ==> times[i] <= times[j]
}

impl RateLimiter {
    /// No more requests are remembered than are allowed.
    pub open spec fn wf(&self) -> bool {
        self.hits@.len() <= self.max
    }

    /// A limiter that has seen no request.
    pub fn new(max: usize, window: u128) -> (limiter: Self)
        ensures
            limiter.wf(),
            limiter.max == max,
            limiter.window == window,
            limiter.hits@ == Seq::<u128>::empty(),
    {
        RateLimiter { window, max, hits: Vec::new() }
    }

    /// Records a request made at `now`. `Ok` where it is within the limit, else the time to wait.
    pub fn check(&mut self, now: u128) -> (verdict: Result<(), u128>)
        ensures
            final(self).window == old(self).window,
            final(self).max == old(self).max,
            old(self).wf() ==> final(self).wf(),
            verdict is Ok <==> accepts(old(self).hits@, now, old(self).window, old(self).max),
            final(self).hits@ == remembered(
                old(self).hits@,
                now,
                old(self).window,
                old(self).max,
            ),
            ({
                let counted = in_window(old(self).hits@, now, old(self).window);
                match verdict {
                    Ok(_) => {
                        &&& counted.len() < old(self).max
                        &&& final(self).hits@ == counted.push(now)
                    },
                    Err(wait) => {
                        &&& counted.len() >= old(self).max
                        &&& final(self).hits@ == counted
                        &&& wait == retry_after(counted, now, old(self).window)
                    },
                }
            }),
    {
        let window: u128 = self.window;
        let ghost hits = self.hits@;
        let ghost counts = |hit: u128| elapsed(now, hit) < window;
        let mut counted: Vec<u128> = Vec::new();
        let mut i: usize = 0;
        while i < self.hits.len()
            invariant
                i <= hits.len(),
                hits == self.hits@,
                counts == (|hit: u128| elapsed(now, hit) < window),
                counted@ == hits.take(i as int).filter(counts),
                counted@.len() <= i,
            decreases hits.len() - i,
        {
            let hit: u128 = self.hits[i];
            let age: u128 = if now >= hit {
                now - hit
            } else {
                0
            };
            proof {
                assert(hits.take(i + 1).drop_last() =~= hits.take(i as int));
                reveal(Seq::filter);
            }
            if age < window {
                counted.push(hit);
            }
            i += 1;
        }
        assert(hits.take(i as int) =~= hits);
        if counted.len() >= self.max {
            let oldest: u128 = if counted.len() > 0 {
                counted[0]
            } else {
                now
            };
            let age: u128 = if now >= oldest {
                now - oldest
            } else {
                0
            };
            let wait: u128 = if window >= age {
                window - age
            } else {
                0
            };
            self.hits = counted;
            return Err(wait);
        }
        counted.push(now);
        self.hits = counted;
        Ok(())
    }
}

/// Of times in order that are not later than `now`, those that still count are the last ones.
proof fn window_is_a_tail(times: Seq<u128>, now: u128, window: u128) -> (k: int)
    requires
        in_time_order(times),
        forall|i: int| 0 <= i < times.len() ==> times[i] <= now,
    ensures
        0 <= k <= times.len(),
        in_window(times, now, window) == times.skip(k),
        forall|i: int| 0 <= i < k ==> now - #[trigger] times[i] >= window,
    decreases times.len(),
{
    reveal(Seq::filter);
    if times.len() == 0 {
        assert(in_window(times, now, window) =~= times.skip(0));
        0
    } else {
        let rest = times.drop_last();
        assert(in_time_order(rest)) by {
            assert forall|i: int, j: int| 0 <= i <= j < rest.len() implies rest[i] <= rest[j] by {
                assert(times[i] <= times[j]);
            }
        }
        let k = window_is_a_tail(rest, now, window);
        assert forall|i: int| 0 <= i < k implies now - #[trigger] times[i] >= window by {
            assert(rest[i] == times[i]);
        }
        if elapsed(now, times.last()) < window {
            assert(in_window(times, now, window) =~= times.skip(k));
            k
        } else {
            assert forall|i: int| 0 <= i < times.len() implies now - #[trigger] times[i]
                >= window by {
                assert(times[i] <= times[times.len() - 1]);
            }
            if k < rest.len() {
                assert(rest.skip(k)[0] == rest[k]);
                let counts = |hit: u128| elapsed(now, hit) < window;
                rest.lemma_filter_pred(counts, 0);
                assert(rest[k] == times[k]);
                assert(false);
            }
            assert(in_window(times, now, window) =~= times.skip(times.len() as int));
            times.len() as int
        }
    }
}

/// How the accepted requests and the remembered ones stand after calls in order: the remembered
/// ones are the last of the accepted, the others are out of the window, and of any `max` + 1
/// accepted in a row the last comes a whole window after the first.
proof fn accepted_are_spaced(calls: Seq<u128>, window: u128, max: usize) -> (k: int)
    requires
        in_time_order(calls),
    ensures
        ({
            let times = accepted(calls, window, max);
            &&& in_time_order(times)
            &&& forall|i: int|
                0 <= i < times.len() ==> calls.len() > 0 && #[trigger] times[i] <= calls.last()
            &&& 0 <= k <= times.len()
            &&& hits_after(calls, window, max) == times.skip(k)
            &&& forall|i: int| 0 <= i < k ==> calls.last() - #[trigger] times[i] >= window
            &&& forall|i: int|
                0 <= i && i + max < times.len() ==> times[i + max] - #[trigger] times[i] >= window
        }),
    decreases calls.len(),
{
    let times = accepted(calls, window, max);
    if calls.len() == 0 {
        assert(hits_after(calls, window, max) =~= times.skip(0));
        0
    } else {
        let earlier = calls.drop_last();
        let now = calls.last();
        assert(in_time_order(earlier)) by {
            assert forall|i: int, j: int|
                0 <= i <= j < earlier.len() implies earlier[i] <= earlier[j] by {
                assert(calls[i] <= calls[j]);
            }
        }
        let k = accepted_are_spaced(earlier, window, max);
        let before = accepted(earlier, window, max);
        let hits = hits_after(earlier, window, max);
        assert forall|i: int| 0 <= i < before.len() implies #[trigger] before[i] <= now by {
            assert(calls[calls.len() - 2] <= calls[calls.len() - 1]);
        }
        assert(in_time_order(hits)) by {
            assert forall|i: int, j: int| 0 <= i <= j < hits.len() implies hits[i] <= hits[j] by {
                assert(before[i + k] <= before[j + k]);
            }
        }
        assert forall|i: int| 0 <= i < hits.len() implies hits[i] <= now by {
            assert(before[i + k] <= now);
        }
        let m = window_is_a_tail(hits, now, window);
        let out = k + m;
        assert(hits.skip(m) =~= before.skip(out));
        assert forall|i: int| 0 <= i < out implies now - #[trigger] before[i] >= window by {
            if i < k {
                assert(calls[calls.len() - 2] <= calls[calls.len() - 1]);
                assert(earlier.last() - before[i] >= window);
            } else {
                assert(hits[i - k] == before[i]);
            }
        }
        if accepts(hits, now, window, max) {
            assert(times == before.push(now));
            assert(hits_after(calls, window, max) =~= times.skip(out));
            assert forall|i: int| 0 <= i && i + max < times.len() implies times[i + max]
                - #[trigger] times[i] >= window by {
                if i + max < before.len() {
                    assert(before[i + max] - before[i] >= window);
                } else {
                    assert(i < out);
                    if i < before.len() {
                        assert(times[i] == before[i]);
                    }
                }
            }
            assert forall|i: int| 0 <= i < out implies now - #[trigger] times[i] >= window by {
                assert(times[i] == before[i]);
            }
        } else {
            assert(times == before);
        }
        out
    }
}

/// Of times in order, those of a span stand in a row.
proof fn span_is_a_row(times: Seq<u128>, from: u128, to: u128) -> (row: (int, int))
    requires
        in_time_order(times),
    ensures
        0 <= row.0 <= row.1 <= times.len(),
        in_span(times, from, to) == times.subrange(row.0, row.1),
        forall|i: int| row.0 <= i < row.1 ==> from <= #[trigger] times[i] <= to,
        forall|i: int| row.1 <= i < times.len() ==> #[trigger] times[i] > to,
    decreases times.len(),
{
    reveal(Seq::filter);
    if times.len() == 0 {
        assert(in_span(times, from, to) =~= times.subrange(0, 0));
        (0, 0)
    } else {
        let rest = times.drop_last();
        let last = times.last();
        assert(in_time_order(rest)) by {
            assert forall|i: int, j: int| 0 <= i <= j < rest.len() implies rest[i] <= rest[j] by {
                assert(times[i] <= times[j]);
            }
        }
        let row = span_is_a_row(rest, from, to);
        assert(rest.subrange(row.0, row.1) =~= times.subrange(row.0, row.1));
        assert forall|i: int| row.0 <= i < row.1 implies from <= #[trigger] times[i] <= to by {
            assert(rest[i] == times[i]);
        }
        assert forall|i: int| row.1 <= i < rest.len() implies #[trigger] times[i] > to by {
            assert(rest[i] == times[i]);
        }
        if last > to {
            row
        } else {
            if row.1 < rest.len() {
                assert(times[row.1] <= times[times.len() - 1]);
                assert(false);
            }
            if last >= from {
                assert(in_span(times, from, to) =~= times.subrange(row.0, times.len() as int));
                (row.0, times.len() as int)
            } else {
                if row.0 < row.1 {
                    assert(times[row.0] <= times[times.len() - 1]);
                    assert(false);
                }
                assert(in_span(times, from, to) =~= times.subrange(
                    times.len() as int,
                    times.len() as int,
                ));
                (times.len() as int, times.len() as int)
            }
        }
    }
}

/// The times in a span, its ends among them.
pub open spec fn in_span(times: Seq<u128>, from: u128, to: u128) -> Seq<u128> {
    times.filter(|time: u128| from <= time <= to)
}

/// Whatever the calls, no span of time shorter than the window holds more than `max` accepted
/// requests, and no more than `max` are ever remembered.
pub proof fn limit_holds_in_every_span(
    calls: Seq<u128>,
    window: u128,
    max: usize,
    from: u128,
    to: u128,
)
    requires
        in_time_order(calls),
        to - from < window,
    ensures
        in_span(accepted(calls, window, max), from, to).len() <= max,
        hits_after(calls, window, max).len() <= max,
{
    let times = accepted(calls, window, max);
    let _ = accepted_are_spaced(calls, window, max);
    let row = span_is_a_row(times, from, to);
    if row.1 - row.0 > max {
        assert(times[row.0 + max] - times[row.0] >= window);
        assert(false);
    }
    hits_stay_few(calls, window, max);
}

proof fn hits_stay_few(calls: Seq<u128>, window: u128, max: usize)
    ensures
        hits_after(calls, window, max).len() <= max,
    decreases calls.len(),
{
    if calls.len() > 0 {
        let hits = hits_after(calls.drop_last(), window, max);
        hits_stay_few(calls.drop_last(), window, max);
        hits.lemma_filter_len(|hit: u128| elapsed(calls.last(), hit) < window);
    }
}

/// The wait that a refusal names is enough: the same request made that much later is within the
/// limit.
pub proof fn waiting_as_told_is_enough(
    counted: Seq<u128>,
    now: u128,
    window: u128,
    max: usize,
    later: u128,
)
    requires
        0 < max,
        counted.len() == max,
        counted == in_window(counted, now, window),
        counted[0] <= now,
        later == now + retry_after(counted, now, window),
    ensures
        in_window(counted, later, window).len() < max,
{
    let counts = |hit: u128| elapsed(later, hit) < window;
    assert(!counts(counted[0])) by {
        assert(later - counted[0] >= window);
    }
    filter_is_shorter(counted, counts, 0);
}

/// A refusal names a wait that is neither nothing nor longer than the window, and the next request,
/// made after just that wait, is accepted.
pub proof fn refusal_ends_as_told(calls: Seq<u128>, now: u128, window: u128, max: usize, later: u128)
    requires
        max > 0,
        in_time_order(calls.push(now)),
        !accepts(hits_after(calls, window, max), now, window, max),
        later == now + retry_after(
            in_window(hits_after(calls, window, max), now, window),
            now,
            window,
        ),
    ensures
        0 < later - now <= window,
        accepts(hits_after(calls.push(now), window, max), later, window, max),
{
    let hits = hits_after(calls, window, max);
    let counts = |hit: u128| elapsed(now, hit) < window;
    let counted = in_window(hits, now, window);
    assert(calls.push(now).drop_last() =~= calls);
    assert(in_time_order(calls)) by {
        assert forall|i: int, j: int| 0 <= i <= j < calls.len() implies calls[i] <= calls[j] by {
            assert(calls.push(now)[i] <= calls.push(now)[j]);
        }
    }
    hits_stay_few(calls, window, max);
    hits.lemma_filter_len(counts);
    assert forall|i: int| 0 <= i < counted.len() implies counts(counted[i]) by {
        hits.lemma_filter_pred(counts, i);
    }
    filter_keeps_all(counted, counts);
    let k = accepted_are_spaced(calls, window, max);
    let times = accepted(calls, window, max);
    assert forall|i: int| 0 <= i < hits.len() implies hits[i] <= now by {
        assert(times[i + k] <= calls.last());
        assert(calls.push(now)[calls.len() - 1] <= calls.push(now)[calls.len() as int]);
    }
    assert(in_time_order(hits)) by {
        assert forall|i: int, j: int| 0 <= i <= j < hits.len() implies hits[i] <= hits[j] by {
            assert(times[i + k] <= times[j + k]);
        }
    }
    let m = window_is_a_tail(hits, now, window);
    assert(counted[0] == hits[m]);
    assert(counts(counted[0]));
    waiting_as_told_is_enough(counted, now, window, max, later);
}

/// The wait that a refusal names is needed: while it lasts, every counted request still counts, so
/// the same request is refused again.
pub proof fn waiting_less_is_not_enough(
    counted: Seq<u128>,
    now: u128,
    window: u128,
    sooner: u128,
)
    requires
        counted.len() > 0,
        counted == in_window(counted, now, window),
        forall|i: int, j: int| 0 <= i <= j < counted.len() ==> counted[i] <= counted[j],
        counted.last() <= now,
        now <= sooner < now + retry_after(counted, now, window),
    ensures
        in_window(counted, sooner, window) == counted,
{
    let counts = |hit: u128| elapsed(sooner, hit) < window;
    assert forall|i: int| 0 <= i < counted.len() implies counts(counted[i]) by {
        assert(counted[0] <= counted[i]);
        assert(counted[i] <= counted[counted.len() - 1]);
    }
    filter_keeps_all(counted, counts);
}

/// A filter that every element passes returns the list itself.
proof fn filter_keeps_all(list: Seq<u128>, keep: spec_fn(u128) -> bool)
    requires
        forall|i: int| 0 <= i < list.len() ==> keep(list[i]),
    ensures
        list.filter(keep) == list,
    decreases list.len(),
{
    reveal(Seq::filter);
    if list.len() > 0 {
        filter_keeps_all(list.drop_last(), keep);
        assert(list.drop_last().push(list.last()) =~= list);
    }
}

/// A filter that drops the element at `at` returns fewer elements than it was given.
proof fn filter_is_shorter(list: Seq<u128>, keep: spec_fn(u128) -> bool, at: int)
    requires
        0 <= at < list.len(),
        !keep(list[at]),
    ensures
        list.filter(keep).len() < list.len(),
    decreases list.len(),
{
    reveal(Seq::filter);
    if at == list.len() - 1 {
        list.drop_last().lemma_filter_len(keep);
    } else {
        filter_is_shorter(list.drop_last(), keep, at);
    }
}

} // verus!
