//! What the image cache guarantees over whole runs: at most one fetch and at
//! most one decode per URL, waiters notified exactly at the terminal
//! transition and in insertion order, and a graceful exit that is
//! acknowledged exactly when no helper is in flight.

use super::{
    dispatch_model, exit_check_model, init_model, quiescent, response_for, responses_to, run_model,
    state_of, step_model, tap_actions, waiters_of, ActionView, AfterPrefetch, CacheModel,
    CacheStep, ImageResponseMsgView, ImageStateView, MsgView,
};
use crate::url::UrlView;
use vstd::prelude::*;

verus! {

/// How many of the actions satisfy the predicate.
pub open spec fn count_where(actions: Seq<ActionView>, p: spec_fn(ActionView) -> bool) -> nat
    decreases actions.len(),
{
    if actions.len() == 0 {
        0
    } else {
        count_where(actions.drop_last(), p) + (if p(actions.last()) {
            1nat
        } else {
            0nat
        })
    }
}

/// The action starts a fetch of this URL through the resource stage.
pub open spec fn is_load_for(url: UrlView) -> spec_fn(ActionView) -> bool {
    |a: ActionView| a == ActionView::LoadFromResource(url)
}

/// The action starts a decoder on this URL's bytes.
pub open spec fn is_spawn_for(url: UrlView) -> spec_fn(ActionView) -> bool {
    |a: ActionView| a matches ActionView::SpawnDecode(u, _) && u == url
}

pub proof fn lemma_count_concat(a: Seq<ActionView>, b: Seq<ActionView>, p: spec_fn(ActionView) -> bool)
    ensures
        count_where(a + b, p) == count_where(a, p) + count_where(b, p),
    decreases b.len(),
{
    if b.len() == 0 {
        assert(a + b =~= a);
    } else {
        assert((a + b).drop_last() =~= a + b.drop_last());
        assert((a + b).last() == b.last());
        lemma_count_concat(a, b.drop_last(), p);
    }
}

pub proof fn lemma_count_push(a: Seq<ActionView>, x: ActionView, p: spec_fn(ActionView) -> bool)
    ensures
        count_where(a.push(x), p) == count_where(a, p) + (if p(x) {
            1nat
        } else {
            0nat
        }),
{
    assert(a.push(x).drop_last() =~= a);
}

pub proof fn lemma_count_zero(a: Seq<ActionView>, p: spec_fn(ActionView) -> bool)
    requires
        forall|k: int| 0 <= k < a.len() ==> !p(#[trigger] a[k]),
    ensures
        count_where(a, p) == 0,
    decreases a.len(),
{
    if a.len() > 0 {
        lemma_count_zero(a.drop_last(), p);
    }
}

pub proof fn lemma_count_singleton(x: ActionView, p: spec_fn(ActionView) -> bool)
    ensures
        count_where(seq![x], p) == (if p(x) {
            1nat
        } else {
            0nat
        }),
{
    assert(seq![x].drop_last() =~= Seq::<ActionView>::empty());
    assert(seq![x].last() == x);
    assert(count_where(Seq::<ActionView>::empty(), p) == 0);
}

/// Whether the URL has ever been touched: zero before the first `Prefetch`,
/// one from then on — nothing ever returns a URL to `Init`.
pub open spec fn load_flag(c: CacheModel, url: UrlView) -> nat {
    if state_of(c, url) is Init {
        0
    } else {
        1
    }
}

/// One accepted step sends exactly the loads that take the URL out of
/// `Init`: the count of `Load(url)` actions equals the change of
/// [`load_flag`].
pub proof fn lemma_step_loads(c: CacheModel, m: MsgView, url: UrlView)
    requires
        step_model(c, m) is Ok,
    ensures
        load_flag(c, url) + count_where(step_model(c, m)->Ok_0.actions, is_load_for(url))
            == load_flag(step_model(c, m)->Ok_0.cache, url),
{
    let p = is_load_for(url);
    let step = step_model(c, m)->Ok_0;
    let taps = tap_actions(c.hooks, m);
    let dispatched = dispatch_model(c, m)->Ok_0;
    lemma_count_zero(taps, p);
    lemma_count_concat(taps, dispatched.actions, p);
    if exit_check_model(
        CacheStep { cache: dispatched.cache, actions: taps + dispatched.actions },
    ).actions != taps + dispatched.actions {
        lemma_count_push(
            taps + dispatched.actions,
            step.actions.last(),
            p,
        );
    }
    assert(count_where(step.actions, p) == count_where(dispatched.actions, p));
    assert(step.cache.states == dispatched.cache.states);
    match m {
        MsgView::Prefetch(u) => {
            if state_of(c, u) is Init {
                lemma_count_singleton(ActionView::LoadFromResource(u), p);
            } else {
                lemma_count_zero(dispatched.actions, p);
            }
        },
        MsgView::StorePrefetchedImageData(u, data) => {
            match data {
                Ok(bytes) => {
                    if state_of(c, u) == ImageStateView::Prefetching(AfterPrefetch::DoDecode) {
                        lemma_count_singleton(ActionView::SpawnDecode(u, bytes), p);
                    } else {
                        lemma_count_zero(dispatched.actions, p);
                    }
                },
                Err(_) => {
                    lemma_count_zero(dispatched.actions, p);
                },
            }
        },
        MsgView::Decode(u) => match state_of(c, u) {
            ImageStateView::Prefetched(bytes) => {
                lemma_count_singleton(ActionView::SpawnDecode(u, bytes), p);
            },
            _ => {
                lemma_count_zero(dispatched.actions, p);
            },
        },
        MsgView::StoreImage(u, _) => {
            lemma_count_zero(dispatched.actions, p);
        },
        MsgView::GetImage(_, _) => {
            lemma_count_zero(dispatched.actions, p);
        },
        MsgView::WaitForImage(_, _) => {
            lemma_count_zero(dispatched.actions, p);
        },
        MsgView::OnMsg(_) => {
            lemma_count_zero(dispatched.actions, p);
        },
        MsgView::Exit(_) => {
            lemma_count_zero(dispatched.actions, p);
        },
    }
}

/// Over a whole run, the loads sent for a URL equal the change of its
/// [`load_flag`] — so they never exceed one.
pub proof fn lemma_run_loads(c: CacheModel, msgs: Seq<MsgView>, url: UrlView)
    ensures
        load_flag(c, url) + count_where(run_model(c, msgs).actions, is_load_for(url)) == load_flag(
            run_model(c, msgs).cache,
            url,
        ),
    decreases msgs.len(),
{
    let p = is_load_for(url);
    if msgs.len() == 0 || c.done {
        lemma_count_zero(run_model(c, msgs).actions, p);
    } else {
        match step_model(c, msgs[0]) {
            Ok(step) => {
                lemma_step_loads(c, msgs[0], url);
                lemma_run_loads(step.cache, msgs.drop_first(), url);
                lemma_count_concat(step.actions, run_model(step.cache, msgs.drop_first()).actions, p);
            },
            Err(_) => {
                lemma_count_zero(run_model(c, msgs).actions, p);
            },
        }
    }
}

/// For every URL ever prefetched, the resource stage receives exactly one
/// `Load`, no matter how many `Prefetch` messages arrive: a run from a fresh
/// cache sends one `Load` for the URL exactly when the URL left `Init`, and
/// never more.
pub proof fn lemma_one_load_per_url(msgs: Seq<MsgView>, url: UrlView)
    ensures
        count_where(run_model(init_model(), msgs).actions, is_load_for(url)) <= 1,
        count_where(run_model(init_model(), msgs).actions, is_load_for(url)) == load_flag(
            run_model(init_model(), msgs).cache,
            url,
        ),
{
    lemma_run_loads(init_model(), msgs, url);
}

/// A URL once touched never returns to `Init`.
proof fn lemma_step_keeps_touched(c: CacheModel, m: MsgView, url: UrlView)
    requires
        step_model(c, m) is Ok,
        !(state_of(c, url) is Init),
    ensures
        !(state_of(step_model(c, m)->Ok_0.cache, url) is Init),
{
}

/// Over a whole run a URL once touched stays touched.
proof fn lemma_run_keeps_touched(c: CacheModel, msgs: Seq<MsgView>, url: UrlView)
    requires
        !(state_of(c, url) is Init),
    ensures
        !(state_of(run_model(c, msgs).cache, url) is Init),
    decreases msgs.len(),
{
    if msgs.len() == 0 || c.done {
    } else {
        match step_model(c, msgs[0]) {
            Ok(step) => {
                lemma_step_keeps_touched(c, msgs[0], url);
                lemma_run_keeps_touched(step.cache, msgs.drop_first(), url);
            },
            Err(_) => {},
        }
    }
}

/// A run that carries a `Prefetch` for the URL and no `Exit` — and meets no
/// protocol misuse — dispatches that prefetch, so the URL ends up touched.
proof fn lemma_run_touches_prefetched(c: CacheModel, msgs: Seq<MsgView>, url: UrlView, j: int)
    requires
        0 <= j < msgs.len(),
        msgs[j] == MsgView::Prefetch(url),
        c.need_exit is None,
        !c.done,
        forall|k: int| 0 <= k < msgs.len() ==> !(#[trigger] msgs[k] is Exit),
        run_model(c, msgs).error is None,
    ensures
        !(state_of(run_model(c, msgs).cache, url) is Init),
    decreases msgs.len(),
{
    match step_model(c, msgs[0]) {
        Ok(step) => {
            assert(step.cache.need_exit is None);
            assert(!step.cache.done);
            if j == 0 {
                assert(!(state_of(step.cache, url) is Init));
                lemma_run_keeps_touched(step.cache, msgs.drop_first(), url);
            } else {
                assert(msgs.drop_first()[j - 1] == msgs[j]);
                assert(forall|k: int|
                    0 <= k < msgs.drop_first().len() ==> !(#[trigger] msgs.drop_first()[k]
                        is Exit));
                lemma_run_touches_prefetched(step.cache, msgs.drop_first(), url, j - 1);
            }
        },
        Err(_) => {
            assert(run_model(c, msgs).error is Some);
        },
    }
}

/// For every URL that a `Prefetch` message ever names, a run from a fresh
/// cache — one that meets no protocol misuse and is not cut short by an
/// exit — sends exactly one `Load` to the resource stage.
pub proof fn lemma_prefetched_url_is_loaded_once(msgs: Seq<MsgView>, url: UrlView, j: int)
    requires
        0 <= j < msgs.len(),
        msgs[j] == MsgView::Prefetch(url),
        forall|k: int| 0 <= k < msgs.len() ==> !(#[trigger] msgs[k] is Exit),
        run_model(init_model(), msgs).error is None,
    ensures
        count_where(run_model(init_model(), msgs).actions, is_load_for(url)) == 1,
{
    lemma_run_touches_prefetched(init_model(), msgs, url, j);
    lemma_run_loads(init_model(), msgs, url);
}

/// The decode bookkeeping one step preserves: `n` decoders were ever
/// spawned for the URL — none while its bytes are still unconsumed, exactly
/// one while a decode is in flight or has succeeded, never more than one.
pub open spec fn spawn_inv(c: CacheModel, url: UrlView, n: nat) -> bool {
    &&& n <= 1
    &&& (match state_of(c, url) {
        ImageStateView::Init => n == 0,
        ImageStateView::Prefetching(_) => n == 0,
        ImageStateView::Prefetched(_) => n == 0,
        ImageStateView::Decoding => n == 1,
        ImageStateView::Decoded(_) => n == 1,
        ImageStateView::Failed => true,
    })
}

/// One accepted step keeps the decode bookkeeping.
pub proof fn lemma_step_spawns(c: CacheModel, m: MsgView, url: UrlView, n: nat)
    requires
        step_model(c, m) is Ok,
        spawn_inv(c, url, n),
    ensures
        spawn_inv(
            step_model(c, m)->Ok_0.cache,
            url,
            n + count_where(step_model(c, m)->Ok_0.actions, is_spawn_for(url)),
        ),
{
    let p = is_spawn_for(url);
    let step = step_model(c, m)->Ok_0;
    let taps = tap_actions(c.hooks, m);
    let dispatched = dispatch_model(c, m)->Ok_0;
    lemma_count_zero(taps, p);
    lemma_count_concat(taps, dispatched.actions, p);
    if exit_check_model(
        CacheStep { cache: dispatched.cache, actions: taps + dispatched.actions },
    ).actions != taps + dispatched.actions {
        lemma_count_push(taps + dispatched.actions, step.actions.last(), p);
    }
    assert(count_where(step.actions, p) == count_where(dispatched.actions, p));
    assert(step.cache.states == dispatched.cache.states);
    match m {
        MsgView::Prefetch(u) => {
            if state_of(c, u) is Init {
                lemma_count_singleton(ActionView::LoadFromResource(u), p);
            } else {
                lemma_count_zero(dispatched.actions, p);
            }
        },
        MsgView::StorePrefetchedImageData(u, data) => {
            match data {
                Ok(bytes) => {
                    if state_of(c, u) == ImageStateView::Prefetching(AfterPrefetch::DoDecode) {
                        lemma_count_singleton(ActionView::SpawnDecode(u, bytes), p);
                    } else {
                        lemma_count_zero(dispatched.actions, p);
                    }
                },
                Err(_) => {
                    lemma_count_zero(dispatched.actions, p);
                },
            }
        },
        MsgView::Decode(u) => match state_of(c, u) {
            ImageStateView::Prefetched(bytes) => {
                lemma_count_singleton(ActionView::SpawnDecode(u, bytes), p);
            },
            _ => {
                lemma_count_zero(dispatched.actions, p);
            },
        },
        MsgView::StoreImage(_, _) => {
            lemma_count_zero(dispatched.actions, p);
        },
        MsgView::GetImage(_, _) => {
            lemma_count_zero(dispatched.actions, p);
        },
        MsgView::WaitForImage(_, _) => {
            lemma_count_zero(dispatched.actions, p);
        },
        MsgView::OnMsg(_) => {
            lemma_count_zero(dispatched.actions, p);
        },
        MsgView::Exit(_) => {
            lemma_count_zero(dispatched.actions, p);
        },
    }
}

/// A whole run keeps the decode bookkeeping.
pub proof fn lemma_run_spawns(c: CacheModel, msgs: Seq<MsgView>, url: UrlView, n: nat)
    requires
        spawn_inv(c, url, n),
    ensures
        spawn_inv(
            run_model(c, msgs).cache,
            url,
            n + count_where(run_model(c, msgs).actions, is_spawn_for(url)),
        ),
    decreases msgs.len(),
{
    let p = is_spawn_for(url);
    if msgs.len() == 0 || c.done {
        lemma_count_zero(run_model(c, msgs).actions, p);
    } else {
        match step_model(c, msgs[0]) {
            Ok(step) => {
                lemma_step_spawns(c, msgs[0], url, n);
                lemma_run_spawns(
                    step.cache,
                    msgs.drop_first(),
                    url,
                    n + count_where(step.actions, p),
                );
                lemma_count_concat(step.actions, run_model(step.cache, msgs.drop_first()).actions, p);
            },
            Err(_) => {
                lemma_count_zero(run_model(c, msgs).actions, p);
            },
        }
    }
}

/// For every URL ever decoded, the decoder is started exactly once: a run
/// from a fresh cache never spawns two decoders for one URL, and whenever a
/// decode is in flight or has succeeded, exactly one was spawned.
pub proof fn lemma_one_decode_per_url(msgs: Seq<MsgView>, url: UrlView)
    ensures
        count_where(run_model(init_model(), msgs).actions, is_spawn_for(url)) <= 1,
        (state_of(run_model(init_model(), msgs).cache, url) is Decoding || state_of(
            run_model(init_model(), msgs).cache,
            url,
        ) is Decoded) ==> count_where(run_model(init_model(), msgs).actions, is_spawn_for(url))
            == 1,
{
    lemma_run_spawns(init_model(), msgs, url, 0);
}

/// A message other than `Prefetch` never starts a load.
pub proof fn lemma_step_load_needs_prefetch(c: CacheModel, m: MsgView, url: UrlView)
    requires
        step_model(c, m) is Ok,
        !(m is Prefetch),
    ensures
        count_where(step_model(c, m)->Ok_0.actions, is_load_for(url)) == 0,
{
    lemma_step_loads(c, m, url);
    lemma_step_no_uninit(c, m, url);
}

/// No message moves a URL back to `Init`, and only `Prefetch` moves one out.
proof fn lemma_step_no_uninit(c: CacheModel, m: MsgView, url: UrlView)
    requires
        step_model(c, m) is Ok,
        !(m is Prefetch),
    ensures
        state_of(c, url) is Init <==> state_of(step_model(c, m)->Ok_0.cache, url) is Init,
{
}

/// After `Exit(reply)` has been accepted, clients send no further
/// `Prefetch` while they await the acknowledgement; then no further `Load`
/// reaches the resource stage. (Only a `Prefetch` ever starts a load, so
/// the exit itself never races a fetch it did not know about.)
pub proof fn lemma_no_load_after_exit(c: CacheModel, msgs: Seq<MsgView>, url: UrlView)
    requires
        c.need_exit is Some,
        forall|j: int| 0 <= j < msgs.len() ==> !(#[trigger] msgs[j] is Prefetch),
    ensures
        count_where(run_model(c, msgs).actions, is_load_for(url)) == 0,
    decreases msgs.len(),
{
    let p = is_load_for(url);
    if msgs.len() == 0 || c.done {
        lemma_count_zero(run_model(c, msgs).actions, p);
    } else {
        match step_model(c, msgs[0]) {
            Ok(step) => {
                lemma_step_load_needs_prefetch(c, msgs[0], url);
                assert(step.cache.need_exit is Some);
                assert(forall|j: int|
                    0 <= j < msgs.drop_first().len() ==> !(#[trigger] msgs.drop_first()[j]
                        is Prefetch));
                lemma_no_load_after_exit(step.cache, msgs.drop_first(), url);
                lemma_count_concat(step.actions, run_model(step.cache, msgs.drop_first()).actions, p);
            },
            Err(_) => {
                lemma_count_zero(run_model(c, msgs).actions, p);
            },
        }
    }
}

/// The latched exit reply is signalled exactly when no fetch and no decode
/// remains in flight after the message, and the reactor stops with the
/// acknowledgement; until then no acknowledgement is ever sent.
pub proof fn lemma_exit_ack_iff_quiescent(c: CacheModel, m: MsgView)
    requires
        !c.done,
        step_model(c, m) is Ok,
    ensures
        ({
            let step = step_model(c, m)->Ok_0;
            &&& (step.cache.done <==> (step.cache.need_exit is Some && quiescent(step.cache)))
            &&& (step.cache.done ==> step.actions.len() > 0 && step.actions.last()
                == ActionView::AckExit(step.cache.need_exit->Some_0))
            &&& (!step.cache.done ==> forall|k: int|
                0 <= k < step.actions.len() ==> !(#[trigger] step.actions[k] is AckExit))
        }),
{
    let step = step_model(c, m)->Ok_0;
    let taps = tap_actions(c.hooks, m);
    let dispatched = dispatch_model(c, m)->Ok_0;
    assert(step.cache.states == dispatched.cache.states);
    assert(quiescent(step.cache) == quiescent(dispatched.cache));
    if !step.cache.done {
        assert(step.actions == taps + dispatched.actions);
        assert forall|k: int| 0 <= k < step.actions.len() implies !(#[trigger] step.actions[k]
            is AckExit) by {
            if k < taps.len() {
                assert(step.actions[k] == taps[k]);
            } else {
                assert(step.actions[k] == dispatched.actions[k - taps.len()]);
                lemma_dispatch_no_ack(c, m, k - taps.len());
            }
        }
    }
}

/// No dispatch action is an exit acknowledgement: only the exit check after
/// the dispatch ever sends one.
proof fn lemma_dispatch_no_ack(c: CacheModel, m: MsgView, k: int)
    requires
        dispatch_model(c, m) is Ok,
        0 <= k < dispatch_model(c, m)->Ok_0.actions.len(),
    ensures
        !(dispatch_model(c, m)->Ok_0.actions[k] is AckExit),
{
}

/// The reply sent on the terminal transition a message causes.
pub open spec fn terminal_reply(m: MsgView) -> ImageResponseMsgView {
    match m {
        MsgView::StoreImage(_, Some(img)) => ImageResponseMsgView::ImageReady(img),
        _ => ImageResponseMsgView::ImageFailed,
    }
}

/// On the transition to a terminal state — the decoder posted its result,
/// or the fetch failed — every waiter enqueued for the URL receives exactly
/// one reply, in insertion order, with the image handle cloned per waiter,
/// and the waiter entry is erased.
pub proof fn lemma_terminal_notifies_waiters_in_order(c: CacheModel, url: UrlView, m: MsgView)
    requires
        step_model(c, m) is Ok,
        (m matches MsgView::StoreImage(u, _) && u == url) || (m
            matches MsgView::StorePrefetchedImageData(u, data) && u == url && data is Err),
    ensures
        ({
            let step = step_model(c, m)->Ok_0;
            let waiters = waiters_of(c, url);
            let hooks = c.hooks.len() as int;
            &&& !step.cache.waiters.contains_key(url)
            &&& step.actions.len() >= hooks + waiters.len()
            &&& forall|k: int|
                0 <= k < waiters.len() ==> step.actions[hooks + k] == ActionView::Respond(
                    waiters[k],
                    terminal_reply(m),
                )
        }),
{
    let step = step_model(c, m)->Ok_0;
    let taps = tap_actions(c.hooks, m);
    let dispatched = dispatch_model(c, m)->Ok_0;
    let waiters = waiters_of(c, url);
    assert(dispatched.actions == responses_to(waiters, terminal_reply(m)));
    assert forall|k: int| 0 <= k < waiters.len() implies step.actions[taps.len() + k]
        == ActionView::Respond(waiters[k], terminal_reply(m)) by {
        assert((taps + dispatched.actions)[taps.len() + k] == dispatched.actions[k]);
    }
}

/// Waiters are enqueued only while a decode is queued or in flight:
/// whenever the wait map holds an entry for a URL, the entry is non-empty
/// and the URL's state is `Prefetching(DoDecode)` or `Decoding`. The entry
/// disappears with the terminal transition that answers it.
pub open spec fn waiters_pending_inv(c: CacheModel) -> bool {
    forall|url: UrlView| #[trigger]
        c.waiters.contains_key(url) ==> c.waiters[url].len() > 0 && (state_of(c, url)
            == ImageStateView::Prefetching(AfterPrefetch::DoDecode) || state_of(c, url)
            is Decoding)
}

pub proof fn lemma_init_waiters_pending()
    ensures
        waiters_pending_inv(init_model()),
{
}

/// One accepted step keeps the waiter invariant.
pub proof fn lemma_step_preserves_waiters_pending(c: CacheModel, m: MsgView)
    requires
        waiters_pending_inv(c),
        step_model(c, m) is Ok,
    ensures
        waiters_pending_inv(step_model(c, m)->Ok_0.cache),
{
}

/// How often the waiter id occurs in one waiter list.
pub open spec fn count_in(waiters: Seq<u64>, w: u64) -> nat
    decreases waiters.len(),
{
    if waiters.len() == 0 {
        0
    } else {
        count_in(waiters.drop_last(), w) + (if waiters.last() == w {
            1nat
        } else {
            0nat
        })
    }
}

/// The action answers this waiter's reply channel.
pub open spec fn is_respond_to(w: u64) -> spec_fn(ActionView) -> bool {
    |a: ActionView| a matches ActionView::Respond(x, _) && x == w
}

/// The message carries this waiter's reply channel.
pub open spec fn uses_waiter(m: MsgView, w: u64) -> bool {
    ||| m matches MsgView::GetImage(_, x) && x == w
    ||| m matches MsgView::WaitForImage(_, x) && x == w
}

/// How many of the messages carry this waiter's reply channel.
pub open spec fn count_uses(msgs: Seq<MsgView>, w: u64) -> nat
    decreases msgs.len(),
{
    if msgs.len() == 0 {
        0
    } else {
        count_uses(msgs.drop_last(), w) + (if uses_waiter(msgs.last(), w) {
            1nat
        } else {
            0nat
        })
    }
}

proof fn lemma_count_uses_drop_first(msgs: Seq<MsgView>, w: u64)
    requires
        msgs.len() > 0,
    ensures
        count_uses(msgs, w) == count_uses(msgs.drop_first(), w) + (if uses_waiter(msgs[0], w) {
            1nat
        } else {
            0nat
        }),
    decreases msgs.len(),
{
    if msgs.len() == 1 {
        assert(msgs.drop_first() =~= Seq::<MsgView>::empty());
        assert(msgs.last() == msgs[0]);
    } else {
        assert(msgs.drop_last().len() > 0);
        assert(msgs.drop_last()[0] == msgs[0]);
        lemma_count_uses_drop_first(msgs.drop_last(), w);
        assert(msgs.drop_first().drop_last() =~= msgs.drop_last().drop_first());
        assert(msgs.drop_first().last() == msgs.last());
    }
}

proof fn lemma_count_in_push(waiters: Seq<u64>, x: u64, w: u64)
    ensures
        count_in(waiters.push(x), w) == count_in(waiters, w) + (if x == w {
            1nat
        } else {
            0nat
        }),
{
    assert(waiters.push(x).drop_last() =~= waiters);
}

/// Draining a waiter list answers this waiter once per occurrence.
proof fn lemma_responses_count(waiters: Seq<u64>, reply: ImageResponseMsgView, w: u64)
    ensures
        count_where(responses_to(waiters, reply), is_respond_to(w)) == count_in(waiters, w),
    decreases waiters.len(),
{
    if waiters.len() > 0 {
        assert(responses_to(waiters, reply).drop_last() =~= responses_to(
            waiters.drop_last(),
            reply,
        ));
        lemma_responses_count(waiters.drop_last(), reply, w);
    }
}

/// The waiter id appears in no waiter list but possibly this URL's.
pub open spec fn waits_only_for(c: CacheModel, url: UrlView, w: u64) -> bool {
    forall|other: UrlView|
        other != url && #[trigger] c.waiters.contains_key(other) ==> count_in(c.waiters[other], w)
            == 0
}

/// One accepted step answers this waiter's channel exactly as often as its
/// enqueue count drops or the message itself asks on it, provided the
/// channel only ever waits for this URL.
proof fn lemma_step_responds(c: CacheModel, m: MsgView, url: UrlView, w: u64)
    requires
        step_model(c, m) is Ok,
        waits_only_for(c, url, w),
        uses_waiter(m, w) ==> m == MsgView::WaitForImage(url, w),
    ensures
        ({
            let step = step_model(c, m)->Ok_0;
            &&& waits_only_for(step.cache, url, w)
            &&& count_where(step.actions, is_respond_to(w)) + count_in(
                waiters_of(step.cache, url),
                w,
            ) == count_in(waiters_of(c, url), w) + (if uses_waiter(m, w) {
                1nat
            } else {
                0nat
            })
        }),
{
    let p = is_respond_to(w);
    let step = step_model(c, m)->Ok_0;
    let taps = tap_actions(c.hooks, m);
    let dispatched = dispatch_model(c, m)->Ok_0;
    lemma_count_zero(taps, p);
    lemma_count_concat(taps, dispatched.actions, p);
    if exit_check_model(
        CacheStep { cache: dispatched.cache, actions: taps + dispatched.actions },
    ).actions != taps + dispatched.actions {
        lemma_count_push(taps + dispatched.actions, step.actions.last(), p);
    }
    assert(count_where(step.actions, p) == count_where(dispatched.actions, p));
    assert(step.cache.waiters == dispatched.cache.waiters);
    match m {
        MsgView::Prefetch(u) => {
            if state_of(c, u) is Init {
                lemma_count_singleton(ActionView::LoadFromResource(u), p);
            } else {
                lemma_count_zero(dispatched.actions, p);
            }
        },
        MsgView::StorePrefetchedImageData(u, data) => {
            match data {
                Ok(bytes) => {
                    if state_of(c, u) == ImageStateView::Prefetching(AfterPrefetch::DoDecode) {
                        lemma_count_singleton(ActionView::SpawnDecode(u, bytes), p);
                    } else {
                        lemma_count_zero(dispatched.actions, p);
                    }
                },
                Err(_) => {
                    lemma_responses_count(waiters_of(c, u), ImageResponseMsgView::ImageFailed, w);
                    if u != url {
                        if c.waiters.contains_key(u) {
                            assert(count_in(c.waiters[u], w) == 0);
                        } else {
                            assert(count_in(waiters_of(c, u), w) == 0);
                        }
                    }
                },
            }
        },
        MsgView::Decode(u) => match state_of(c, u) {
            ImageStateView::Prefetched(bytes) => {
                lemma_count_singleton(ActionView::SpawnDecode(u, bytes), p);
            },
            _ => {
                lemma_count_zero(dispatched.actions, p);
            },
        },
        MsgView::StoreImage(u, image) => {
            let reply = match image {
                Some(img) => ImageResponseMsgView::ImageReady(img),
                None => ImageResponseMsgView::ImageFailed,
            };
            lemma_responses_count(waiters_of(c, u), reply, w);
            if u != url {
                if c.waiters.contains_key(u) {
                    assert(count_in(c.waiters[u], w) == 0);
                } else {
                    assert(count_in(waiters_of(c, u), w) == 0);
                }
            }
        },
        MsgView::GetImage(u, x) => {
            let reply = response_for(c, u)->Ok_0;
            lemma_count_singleton(ActionView::Respond(x, reply), p);
        },
        MsgView::WaitForImage(u, x) => {
            let pending_decode = state_of(c, u) == ImageStateView::Prefetching(
                AfterPrefetch::DoDecode,
            ) || state_of(c, u) is Decoding;
            if pending_decode {
                lemma_count_zero(dispatched.actions, p);
                lemma_count_in_push(waiters_of(c, u), x, w);
                if u != url {
                    assert(!uses_waiter(m, w));
                    if c.waiters.contains_key(u) {
                        assert(count_in(c.waiters[u], w) == 0);
                    }
                    assert(count_in(waiters_of(c, u).push(x), w) == 0);
                }
            } else {
                let reply = response_for(c, u)->Ok_0;
                lemma_count_singleton(ActionView::Respond(x, reply), p);
            }
        },
        MsgView::OnMsg(_) => {
            lemma_count_zero(dispatched.actions, p);
        },
        MsgView::Exit(_) => {
            lemma_count_zero(dispatched.actions, p);
        },
    }
}

/// Over a whole run, a reply channel that only ever waits for this URL is
/// answered at most once per message that carries it, less what is still
/// enqueued.
proof fn lemma_run_responds(c: CacheModel, msgs: Seq<MsgView>, url: UrlView, w: u64)
    requires
        waits_only_for(c, url, w),
        forall|j: int|
            0 <= j < msgs.len() && uses_waiter(#[trigger] msgs[j], w) ==> msgs[j]
                == MsgView::WaitForImage(url, w),
    ensures
        ({
            let run = run_model(c, msgs);
            &&& waits_only_for(run.cache, url, w)
            &&& count_where(run.actions, is_respond_to(w)) + count_in(
                waiters_of(run.cache, url),
                w,
            ) <= count_in(waiters_of(c, url), w) + count_uses(msgs, w)
        }),
    decreases msgs.len(),
{
    let p = is_respond_to(w);
    if msgs.len() == 0 || c.done {
        lemma_count_zero(run_model(c, msgs).actions, p);
    } else {
        lemma_count_uses_drop_first(msgs, w);
        match step_model(c, msgs[0]) {
            Ok(step) => {
                lemma_step_responds(c, msgs[0], url, w);
                assert(forall|j: int|
                    0 <= j < msgs.drop_first().len() && uses_waiter(
                        #[trigger] msgs.drop_first()[j],
                        w,
                    ) ==> msgs.drop_first()[j] == MsgView::WaitForImage(url, w));
                lemma_run_responds(step.cache, msgs.drop_first(), url, w);
                lemma_count_concat(step.actions, run_model(step.cache, msgs.drop_first()).actions, p);
            },
            Err(_) => {
                lemma_count_zero(run_model(c, msgs).actions, p);
            },
        }
    }
}

/// A waiter is answered at most once, ever: when its reply channel is used
/// by a single `WaitForImage`, a run from a fresh cache sends at most one
/// reply on it — exactly one once the URL reaches a terminal state, since
/// the terminal transition drains the whole waiter list and erases it.
pub proof fn lemma_waiter_replied_at_most_once(msgs: Seq<MsgView>, url: UrlView, w: u64)
    requires
        forall|j: int|
            0 <= j < msgs.len() && uses_waiter(#[trigger] msgs[j], w) ==> msgs[j]
                == MsgView::WaitForImage(url, w),
        count_uses(msgs, w) <= 1,
    ensures
        count_where(run_model(init_model(), msgs).actions, is_respond_to(w)) <= 1,
        count_where(run_model(init_model(), msgs).actions, is_respond_to(w)) + count_in(
            waiters_of(run_model(init_model(), msgs).cache, url),
            w,
        ) <= 1,
{
    lemma_run_responds(init_model(), msgs, url, w);
}

/// A whole run keeps the waiter invariant.
pub proof fn lemma_run_preserves_waiters_pending(c: CacheModel, msgs: Seq<MsgView>)
    requires
        waiters_pending_inv(c),
    ensures
        waiters_pending_inv(run_model(c, msgs).cache),
    decreases msgs.len(),
{
    if msgs.len() == 0 || c.done {
    } else {
        match step_model(c, msgs[0]) {
            Ok(step) => {
                lemma_step_preserves_waiters_pending(c, msgs[0]);
                lemma_run_preserves_waiters_pending(step.cache, msgs.drop_first());
            },
            Err(_) => {},
        }
    }
}

} // verus!
