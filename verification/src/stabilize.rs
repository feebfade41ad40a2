//! The URL-stabilization poller: repeated sampling that confirms a
//! value has stopped changing for a required number of consecutive
//! checks.  Used both before navigation (drain leftover redirects) and
//! after it (absorb the redirect chain a navigate can trigger).

use vstd::prelude::*;
use crate::engine::{Clock, EngineAdapter, EngineError};
use crate::navigate::NavigationOptions;
use crate::strutil::str_eq;

verus! {

/// The stable-count after an observation run: how many consecutive
/// most-recent samples equalled their predecessor.  It resets to zero
/// whenever a sample differs from the one before it.
pub open spec fn stable_count_of(obs: Seq<Seq<char>>) -> int
    decreases obs.len(),
{
    if obs.len() <= 1 {
        0
    } else if obs.last() == obs[obs.len() - 2] {
        stable_count_of(obs.drop_last()) + 1
    } else {
        0
    }
}

/// One polling step of the stabilization fold: the count increments
/// when the new sample equals the previous one and resets otherwise.
pub fn stable_count_step(count: u32, same: bool) -> (r: u32)
    requires
        count < u32::MAX,
    ensures
        r as int == if same {
            count + 1
        } else {
            0
        },
{
    if same {
        count + 1
    } else {
        0
    }
}

/// The stable-count never exceeds the number of samples taken after
/// the first one.
pub proof fn lemma_stable_count_bound(obs: Seq<Seq<char>>)
    ensures
        obs.len() >= 1 ==> stable_count_of(obs) <= obs.len() - 1,
        stable_count_of(obs) >= 0,
    decreases obs.len(),
{
    if obs.len() > 1 {
        lemma_stable_count_bound(obs.drop_last());
    }
}

/// Stabilization cannot be reported early: a stable-count of at least
/// `k` means the last `k + 1` samples were all the same value.  In
/// particular, with a required count of three, success cannot come
/// before the third consecutive repetition of the final value.
pub proof fn lemma_stable_count_needs_run(obs: Seq<Seq<char>>, k: int)
    requires
        0 <= k,
        obs.len() >= 1,
        stable_count_of(obs) >= k,
    ensures
        k < obs.len(),
        forall|i: int| obs.len() - 1 - k <= i < obs.len() ==> #[trigger] obs[i] == obs[obs.len()
            - 1],
    decreases k,
{
    lemma_stable_count_bound(obs);
    if k > 0 {
        assert(obs.len() >= 2);
        let t = obs.drop_last();
        lemma_stable_count_needs_run(t, k - 1);
        assert forall|i: int| obs.len() - 1 - k <= i < obs.len() implies #[trigger] obs[i]
            == obs[obs.len() - 1] by {
            if i < obs.len() - 2 {
                assert(t[i] == t[t.len() - 1]);
                assert(t[i] == obs[i]);
                assert(t[t.len() - 1] == obs[obs.len() - 2]);
            } else if i == obs.len() - 2 {
                assert(obs.last() == obs[obs.len() - 2]);
            }
        }
    }
}

/// Wait for the page URL to stabilize (no more redirects).
///
/// Samples the URL at `options.check_interval` and succeeds once
/// `options.stable_checks` consecutive samples equal their predecessor;
/// gives up with `Ok(false)` once `options.timeout` elapses.  The loop
/// is additionally bounded by an attempt budget so that it terminates
/// even under a stalled host clock.  Sampling errors propagate
/// untouched; the poller itself does not classify, the caller decides
/// whether to absorb them.
///
/// Beside the result it returns the URL samples it observed, as a
/// ghost sequence: success means their stable-count reached the
/// required number — so, by the run property, the last
/// `stable_checks + 1` samples were all the same value — and giving up
/// means it never did.
pub fn wait_for_url_stabilization<A: EngineAdapter, C: Clock>(
    adapter: &A,
    clock: &C,
    options: &NavigationOptions,
    _reason: &str,
) -> (r: (Result<bool, EngineError>, Ghost<Seq<Seq<char>>>))
    ensures
        r.0 matches Ok(true) ==> {
            &&& r.1@.len() > options.stable_checks
            &&& stable_count_of(r.1@) >= options.stable_checks as int
            &&& forall|i: int|
                r.1@.len() - 1 - options.stable_checks <= i < r.1@.len()
                    ==> #[trigger] r.1@[i] == r.1@[r.1@.len() - 1]
        },
        r.0 matches Ok(false) ==> r.1@.len() >= 1 && stable_count_of(r.1@)
            < options.stable_checks as int,
{
    let start: u64 = clock.now_ms();
    let interval: u64 = if options.check_interval == 0 {
        1
    } else {
        options.check_interval
    };
    let budget: u64 = (options.timeout / interval).saturating_add(2);
    let mut last_url = match adapter.url() {
        Ok(u) => u,
        Err(e) => { return (Err(e), Ghost(Seq::empty())) },
    };
    let ghost mut obs: Seq<Seq<char>> = seq![last_url@];
    let mut stable_count: u32 = 0;
    let mut iters: u64 = 0;
    while stable_count < options.stable_checks
        invariant
            obs.len() >= 1,
            last_url@ == obs.last(),
            stable_count as int == stable_count_of(obs),
            iters <= budget,
        decreases budget - iters,
    {
        if iters >= budget {
            return (Ok(false), Ghost(obs));
        }
        let now: u64 = clock.now_ms();
        let elapsed: u64 = if now >= start {
            now - start
        } else {
            0
        };
        if elapsed > options.timeout {
            return (Ok(false), Ghost(obs));
        }
        clock.sleep_ms(options.check_interval);
        let current = match adapter.url() {
            Ok(u) => u,
            Err(e) => { return (Err(e), Ghost(obs)) },
        };
        let same = str_eq(current.as_str(), last_url.as_str());
        proof {
            assert(obs.push(current@).drop_last() =~= obs);
            obs = obs.push(current@);
        }
        stable_count = stable_count_step(stable_count, same);
        if !same {
            last_url = current;
        }
        iters = iters + 1;
    }
    proof {
        lemma_stable_count_needs_run(obs, options.stable_checks as int);
    }
    (Ok(true), Ghost(obs))
}

} // verus!
