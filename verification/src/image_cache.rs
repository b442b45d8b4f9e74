//! The image cache stage: a single-threaded reactor that owns all per-URL
//! image state and orchestrates prefetch and decode helpers.
//!
//! The stage receives one message at a time and reacts with a set of
//! actions: start a fetch through the resource stage, start a decoder on
//! prefetched bytes, answer a client on its reply channel, call a registered
//! test hook, or acknowledge a pending exit. Channels, hooks and helpers run
//! outside the reactor, so an action carries opaque handles; what the
//! reactor decides for every state and message is captured by `step_model`
//! and proved of [`ImageCache::handle_msg`].

pub mod laws;

use crate::image::{clone_image_handle, Image, ImageView};
use crate::state_map::{lemma_to_map_contains, lemma_to_map_index, UrlMap};
use crate::url::{Url, UrlView};
use std::sync::Arc;
use vstd::prelude::*;

verus! {

/// The variant a URL's state is in, without its payload.
#[derive(Clone, Copy, PartialEq, Eq, Structural)]
enum StateKind {
    Init,
    PrefetchingNoDecode,
    PrefetchingDecode,
    Prefetched,
    Decoding,
    Decoded,
    Failed,
}

spec fn kind_model(s: ImageStateView) -> StateKind {
    match s {
        ImageStateView::Init => StateKind::Init,
        ImageStateView::Prefetching(next) => if next is DoNotDecode {
            StateKind::PrefetchingNoDecode
        } else {
            StateKind::PrefetchingDecode
        },
        ImageStateView::Prefetched(_) => StateKind::Prefetched,
        ImageStateView::Decoding => StateKind::Decoding,
        ImageStateView::Decoded(_) => StateKind::Decoded,
        ImageStateView::Failed => StateKind::Failed,
    }
}

/// Whether a decode was requested while the fetch was still in flight.
#[derive(Clone, Copy, PartialEq, Eq, Structural)]
pub enum AfterPrefetch {
    DoDecode,
    DoNotDecode,
}

/// The mathematical value of an [`ImageState`].
pub ghost enum ImageStateView {
    Init,
    Prefetching(AfterPrefetch),
    Prefetched(Seq<u8>),
    Decoding,
    Decoded(ImageView),
    Failed,
}

/// The state of processing an image for one URL.
pub enum ImageState {
    /// Never requested.
    Init,
    /// Fetch in flight; records whether a decode was requested meanwhile.
    Prefetching(AfterPrefetch),
    /// Bytes available, decode not started; the bytes are taken exactly once
    /// by the decoder.
    Prefetched(Vec<u8>),
    /// Decode in flight.
    Decoding,
    /// Shared image handle available.
    Decoded(Arc<Image>),
    /// Terminal error; bytes unavailable or the decoder returned nothing.
    Failed,
}

impl View for ImageState {
    type V = ImageStateView;

    open spec fn view(&self) -> ImageStateView {
        match self {
            ImageState::Init => ImageStateView::Init,
            ImageState::Prefetching(next) => ImageStateView::Prefetching(*next),
            ImageState::Prefetched(bytes) => ImageStateView::Prefetched(bytes@),
            ImageState::Decoding => ImageStateView::Decoding,
            ImageState::Decoded(image) => ImageStateView::Decoded(image@),
            ImageState::Failed => ImageStateView::Failed,
        }
    }
}

/// The mathematical value of an [`ImageResponseMsg`].
pub ghost enum ImageResponseMsgView {
    ImageReady(ImageView),
    ImageNotReady,
    ImageFailed,
}

/// A reply the cache sends to a `GetImage` or `WaitForImage` request.
pub enum ImageResponseMsg {
    ImageReady(Arc<Image>),
    ImageNotReady,
    ImageFailed,
}

impl View for ImageResponseMsg {
    type V = ImageResponseMsgView;

    open spec fn view(&self) -> ImageResponseMsgView {
        match self {
            ImageResponseMsg::ImageReady(image) => ImageResponseMsgView::ImageReady(image@),
            ImageResponseMsg::ImageNotReady => ImageResponseMsgView::ImageNotReady,
            ImageResponseMsg::ImageFailed => ImageResponseMsgView::ImageFailed,
        }
    }
}

impl Clone for ImageResponseMsg {
    fn clone(&self) -> (r: ImageResponseMsg)
        ensures
            r@ == self@,
    {
        match self {
            ImageResponseMsg::ImageReady(image) => ImageResponseMsg::ImageReady(
                clone_image_handle(image),
            ),
            ImageResponseMsg::ImageNotReady => ImageResponseMsg::ImageNotReady,
            ImageResponseMsg::ImageFailed => ImageResponseMsg::ImageFailed,
        }
    }
}

impl ImageResponseMsg {
    /// Whether two replies are the same variant. Replies that both carry an
    /// image are never compared by value.
    pub fn same_variant(&self, other: &ImageResponseMsg) -> (r: bool)
        ensures
            r == ((self@ is ImageReady && other@ is ImageReady) || (self@ is ImageNotReady
                && other@ is ImageNotReady) || (self@ is ImageFailed && other@ is ImageFailed)),
    {
        match (self, other) {
            (ImageResponseMsg::ImageReady(_), ImageResponseMsg::ImageReady(_)) => true,
            (ImageResponseMsg::ImageNotReady, ImageResponseMsg::ImageNotReady) => true,
            (ImageResponseMsg::ImageFailed, ImageResponseMsg::ImageFailed) => true,
            _ => false,
        }
    }
}

/// The mathematical value of the payload a prefetch helper posts back.
pub open spec fn data_view(data: Result<Vec<u8>, ()>) -> Result<Seq<u8>, ()> {
    match data {
        Ok(bytes) => Ok(bytes@),
        Err(e) => Err(e),
    }
}

/// The mathematical value of the image a decode helper posts back.
pub open spec fn image_view(image: Option<Arc<Image>>) -> Option<ImageView> {
    match image {
        Some(img) => Some(img@),
        None => None,
    }
}

/// The mathematical value of a [`Msg`].
pub ghost enum MsgView {
    Prefetch(UrlView),
    StorePrefetchedImageData(UrlView, Result<Seq<u8>, ()>),
    Decode(UrlView),
    StoreImage(UrlView, Option<ImageView>),
    GetImage(UrlView, u64),
    WaitForImage(UrlView, u64),
    OnMsg(u64),
    Exit(u64),
}

/// Messages the image cache stage receives, from clients or from its own
/// helpers.
pub enum Msg {
    /// Tell the cache that we may need a particular image soon. Must be
    /// posted before `Decode`.
    Prefetch(Url),
    /// Used by the prefetch helpers to post back image binaries.
    StorePrefetchedImageData(Url, Result<Vec<u8>, ()>),
    /// Tell the cache to decode an image. Must be posted before
    /// `GetImage`/`WaitForImage`.
    Decode(Url),
    /// Used by the decoder helpers to post decoded images back to the cache.
    StoreImage(Url, Option<Arc<Image>>),
    /// Request an image for a URL, answered without blocking on the given
    /// reply channel.
    GetImage(Url, u64),
    /// Wait for an image to become available (or fail to load).
    WaitForImage(Url, u64),
    /// For testing: register a hook that sees every later message.
    OnMsg(u64),
    /// Begin a graceful shutdown, acknowledged on the given reply channel.
    Exit(u64),
}

impl View for Msg {
    type V = MsgView;

    open spec fn view(&self) -> MsgView {
        match self {
            Msg::Prefetch(url) => MsgView::Prefetch(url@),
            Msg::StorePrefetchedImageData(url, data) => MsgView::StorePrefetchedImageData(
                url@,
                data_view(*data),
            ),
            Msg::Decode(url) => MsgView::Decode(url@),
            Msg::StoreImage(url, image) => MsgView::StoreImage(url@, image_view(*image)),
            Msg::GetImage(url, response) => MsgView::GetImage(url@, *response),
            Msg::WaitForImage(url, response) => MsgView::WaitForImage(url@, *response),
            Msg::OnMsg(hook) => MsgView::OnMsg(*hook),
            Msg::Exit(reply) => MsgView::Exit(*reply),
        }
    }
}

impl DeepView for Msg {
    type V = MsgView;

    open spec fn deep_view(&self) -> MsgView {
        self.view()
    }
}

impl Clone for Msg {
    fn clone(&self) -> (r: Msg)
        ensures
            r@ == self@,
    {
        match self {
            Msg::Prefetch(url) => Msg::Prefetch(url.clone()),
            Msg::StorePrefetchedImageData(url, data) => Msg::StorePrefetchedImageData(
                url.clone(),
                match data {
                    Ok(bytes) => {
                        let copied = bytes.clone();
                        proof {
                            assert(copied@ =~= bytes@);
                        }
                        Ok(copied)
                    },
                    Err(e) => Err(*e),
                },
            ),
            Msg::Decode(url) => Msg::Decode(url.clone()),
            Msg::StoreImage(url, image) => Msg::StoreImage(
                url.clone(),
                match image {
                    Some(img) => Some(clone_image_handle(img)),
                    None => None,
                },
            ),
            Msg::GetImage(url, response) => Msg::GetImage(url.clone(), *response),
            Msg::WaitForImage(url, response) => Msg::WaitForImage(url.clone(), *response),
            Msg::OnMsg(hook) => Msg::OnMsg(*hook),
            Msg::Exit(reply) => Msg::Exit(*reply),
        }
    }
}

/// The mathematical value of an [`Action`].
pub ghost enum ActionView {
    LoadFromResource(UrlView),
    SpawnDecode(UrlView, Seq<u8>),
    Respond(u64, ImageResponseMsgView),
    Tap(u64, MsgView),
    AckExit(u64),
}

/// What the cache does in reaction to one message. The surrounding task
/// carries each action out: it sends `Load(url, ..)` to the resource stage
/// with replies routed back as `StorePrefetchedImageData`, spawns a decoder
/// on the bytes with the result routed back as `StoreImage`, sends a reply
/// on a client's channel, calls a registered hook, or signals the exit
/// reply channel.
pub enum Action {
    /// Start a prefetch helper: load the URL through the resource stage.
    LoadFromResource(Url),
    /// Start a decode helper on the bytes taken from the `Prefetched` state.
    SpawnDecode(Url, Vec<u8>),
    /// Send the reply on a client's response channel.
    Respond(u64, ImageResponseMsg),
    /// Pass the message to a registered test hook.
    Tap(u64, Msg),
    /// Acknowledge the pending exit: all helpers have landed.
    AckExit(u64),
}

impl View for Action {
    type V = ActionView;

    open spec fn view(&self) -> ActionView {
        match self {
            Action::LoadFromResource(url) => ActionView::LoadFromResource(url@),
            Action::SpawnDecode(url, bytes) => ActionView::SpawnDecode(url@, bytes@),
            Action::Respond(response, msg) => ActionView::Respond(*response, msg@),
            Action::Tap(hook, msg) => ActionView::Tap(*hook, msg@),
            Action::AckExit(reply) => ActionView::AckExit(*reply),
        }
    }
}

impl DeepView for Action {
    type V = ActionView;

    open spec fn deep_view(&self) -> ActionView {
        self.view()
    }
}

/// Protocol misuse: messages the cache receives only when a client or a
/// helper has broken the protocol. The reactor's surrounding task treats
/// every one of these as a programmer error and aborts.
#[derive(Clone, Copy, PartialEq, Eq, Structural, Debug)]
pub enum CacheError {
    /// A helper posted bytes for a URL that is not being prefetched.
    StorePrefetchWrongState,
    /// `Decode` arrived before any `Prefetch` for the URL.
    DecodeBeforePrefetch,
    /// A helper posted a decoded image for a URL that is not being decoded.
    StoreImageWrongState,
    /// `GetImage` or `WaitForImage` arrived before any `Prefetch`.
    RequestBeforePrefetch,
    /// `GetImage` or `WaitForImage` arrived before any `Decode`.
    RequestBeforeDecode,
    /// A second `Exit` arrived while one was already pending.
    ExitAlreadyPending,
}

/// The mathematical value of the whole cache stage.
#[verifier::ext_equal]
pub ghost struct CacheModel {
    /// The state of processing an image for each URL ever touched.
    pub states: Map<UrlView, ImageStateView>,
    /// Reply channels waiting for each URL to reach a terminal state, in
    /// insertion order.
    pub waiters: Map<UrlView, Seq<u64>>,
    /// Registered test hooks, in registration order.
    pub hooks: Seq<u64>,
    /// The latched exit reply channel, if an `Exit` has been accepted.
    pub need_exit: Option<u64>,
    /// Whether the exit has been acknowledged and the reactor has stopped.
    pub done: bool,
}

/// One accepted step: the cache afterwards, and what it does.
#[verifier::ext_equal]
pub ghost struct CacheStep {
    pub cache: CacheModel,
    pub actions: Seq<ActionView>,
}

/// The state recorded for a URL; a URL never touched is in `Init`.
pub open spec fn state_of(c: CacheModel, url: UrlView) -> ImageStateView {
    if c.states.contains_key(url) {
        c.states[url]
    } else {
        ImageStateView::Init
    }
}

/// The waiters recorded for a URL, oldest first.
pub open spec fn waiters_of(c: CacheModel, url: UrlView) -> Seq<u64> {
    if c.waiters.contains_key(url) {
        c.waiters[url]
    } else {
        Seq::empty()
    }
}

/// A helper is in flight for the URL.
pub open spec fn is_pending(s: ImageStateView) -> bool {
    s is Prefetching || s is Decoding
}

/// No helper is in flight for any URL: the cache may acknowledge an exit.
pub open spec fn quiescent(c: CacheModel) -> bool {
    forall|url: UrlView| c.states.contains_key(url) ==> !is_pending(#[trigger] c.states[url])
}

/// One reply to every waiter, in insertion order.
pub open spec fn responses_to(waiters: Seq<u64>, reply: ImageResponseMsgView) -> Seq<ActionView> {
    Seq::new(waiters.len(), |i: int| ActionView::Respond(waiters[i], reply))
}

/// One call of every registered hook, in registration order.
pub open spec fn tap_actions(hooks: Seq<u64>, msg: MsgView) -> Seq<ActionView> {
    Seq::new(hooks.len(), |i: int| ActionView::Tap(hooks[i], msg))
}

/// `Prefetch(url)`: start a fetch if the URL was never touched; a no-op on
/// every other state, which is what makes prefetching idempotent.
pub open spec fn prefetch_model(c: CacheModel, url: UrlView) -> CacheStep {
    if state_of(c, url) is Init {
        CacheStep {
            cache: CacheModel {
                states: c.states.insert(url, ImageStateView::Prefetching(AfterPrefetch::DoNotDecode)),
                ..c
            },
            actions: seq![ActionView::LoadFromResource(url)],
        }
    } else {
        CacheStep { cache: c, actions: Seq::empty() }
    }
}

/// Terminal transition: every waiter is notified in insertion order and the
/// waiter entry is erased.
pub open spec fn purge_model(c: CacheModel, url: UrlView, reply: ImageResponseMsgView) -> CacheStep {
    CacheStep {
        cache: CacheModel { waiters: c.waiters.remove(url), ..c },
        actions: responses_to(waiters_of(c, url), reply),
    }
}

/// `StorePrefetchedImageData(url, data)`: leave `Prefetching`. Good bytes
/// settle in `Prefetched`, or start the decoder at once when a decode was
/// queued; an error is terminal and notifies all waiters.
pub open spec fn store_prefetched_model(
    c: CacheModel,
    url: UrlView,
    data: Result<Seq<u8>, ()>,
) -> Result<CacheStep, CacheError> {
    match state_of(c, url) {
        ImageStateView::Prefetching(next) => match data {
            Ok(bytes) => {
                if next is DoDecode {
                    Ok(CacheStep {
                        cache: CacheModel { states: c.states.insert(url, ImageStateView::Decoding), ..c },
                        actions: seq![ActionView::SpawnDecode(url, bytes)],
                    })
                } else {
                    Ok(CacheStep {
                        cache: CacheModel {
                            states: c.states.insert(url, ImageStateView::Prefetched(bytes)),
                            ..c
                        },
                        actions: Seq::empty(),
                    })
                }
            },
            Err(_) => {
                let failed = CacheModel { states: c.states.insert(url, ImageStateView::Failed), ..c };
                Ok(purge_model(failed, url, ImageResponseMsgView::ImageFailed))
            },
        },
        _ => Err(CacheError::StorePrefetchWrongState),
    }
}

/// `Decode(url)`: start the decoder if the bytes are ready, consuming them;
/// record the intent if the fetch is still in flight; a no-op once decoding
/// has begun or finished; refused before any prefetch.
pub open spec fn decode_model(c: CacheModel, url: UrlView) -> Result<CacheStep, CacheError> {
    match state_of(c, url) {
        ImageStateView::Init => Err(CacheError::DecodeBeforePrefetch),
        ImageStateView::Prefetching(next) => {
            if next is DoNotDecode {
                Ok(CacheStep {
                    cache: CacheModel {
                        states: c.states.insert(url, ImageStateView::Prefetching(AfterPrefetch::DoDecode)),
                        ..c
                    },
                    actions: Seq::empty(),
                })
            } else {
                Ok(CacheStep { cache: c, actions: Seq::empty() })
            }
        },
        ImageStateView::Prefetched(bytes) => Ok(CacheStep {
            cache: CacheModel { states: c.states.insert(url, ImageStateView::Decoding), ..c },
            actions: seq![ActionView::SpawnDecode(url, bytes)],
        }),
        _ => Ok(CacheStep { cache: c, actions: Seq::empty() }),
    }
}

/// `StoreImage(url, image)`: leave `Decoding` for a terminal state and
/// notify all waiters.
pub open spec fn store_image_model(
    c: CacheModel,
    url: UrlView,
    image: Option<ImageView>,
) -> Result<CacheStep, CacheError> {
    match state_of(c, url) {
        ImageStateView::Decoding => match image {
            Some(img) => {
                let decoded = CacheModel { states: c.states.insert(url, ImageStateView::Decoded(img)), ..c };
                Ok(purge_model(decoded, url, ImageResponseMsgView::ImageReady(img)))
            },
            None => {
                let failed = CacheModel { states: c.states.insert(url, ImageStateView::Failed), ..c };
                Ok(purge_model(failed, url, ImageResponseMsgView::ImageFailed))
            },
        },
        _ => Err(CacheError::StoreImageWrongState),
    }
}

/// The immediate answer for the URL's state, shared by `GetImage` and the
/// terminal cases of `WaitForImage`: asking before a prefetch, or before a
/// decode was requested, is protocol misuse.
pub open spec fn response_for(c: CacheModel, url: UrlView) -> Result<ImageResponseMsgView, CacheError> {
    match state_of(c, url) {
        ImageStateView::Init => Err(CacheError::RequestBeforePrefetch),
        ImageStateView::Prefetching(next) => {
            if next is DoDecode {
                Ok(ImageResponseMsgView::ImageNotReady)
            } else {
                Err(CacheError::RequestBeforeDecode)
            }
        },
        ImageStateView::Prefetched(_) => Err(CacheError::RequestBeforeDecode),
        ImageStateView::Decoding => Ok(ImageResponseMsgView::ImageNotReady),
        ImageStateView::Decoded(img) => Ok(ImageResponseMsgView::ImageReady(img)),
        ImageStateView::Failed => Ok(ImageResponseMsgView::ImageFailed),
    }
}

/// `GetImage(url, response)`: answer at once, without blocking.
pub open spec fn get_image_model(c: CacheModel, url: UrlView, response: u64) -> Result<
    CacheStep,
    CacheError,
> {
    match response_for(c, url) {
        Ok(reply) => Ok(CacheStep { cache: c, actions: seq![ActionView::Respond(response, reply)] }),
        Err(e) => Err(e),
    }
}

/// `WaitForImage(url, response)`: answer at once if the state is terminal,
/// else enqueue the reply channel in insertion order.
pub open spec fn wait_for_image_model(c: CacheModel, url: UrlView, response: u64) -> Result<
    CacheStep,
    CacheError,
> {
    match state_of(c, url) {
        ImageStateView::Prefetching(next) => {
            if next is DoDecode {
                Ok(CacheStep {
                    cache: CacheModel {
                        waiters: c.waiters.insert(url, waiters_of(c, url).push(response)),
                        ..c
                    },
                    actions: Seq::empty(),
                })
            } else {
                Err(CacheError::RequestBeforeDecode)
            }
        },
        ImageStateView::Decoding => Ok(CacheStep {
            cache: CacheModel { waiters: c.waiters.insert(url, waiters_of(c, url).push(response)), ..c },
            actions: Seq::empty(),
        }),
        _ => get_image_model(c, url, response),
    }
}

/// Dispatch one message, before the exit check.
pub open spec fn dispatch_model(c: CacheModel, msg: MsgView) -> Result<CacheStep, CacheError> {
    match msg {
        MsgView::Prefetch(url) => Ok(prefetch_model(c, url)),
        MsgView::StorePrefetchedImageData(url, data) => store_prefetched_model(c, url, data),
        MsgView::Decode(url) => decode_model(c, url),
        MsgView::StoreImage(url, image) => store_image_model(c, url, image),
        MsgView::GetImage(url, response) => get_image_model(c, url, response),
        MsgView::WaitForImage(url, response) => wait_for_image_model(c, url, response),
        MsgView::OnMsg(hook) => Ok(CacheStep {
            cache: CacheModel { hooks: c.hooks.push(hook), ..c },
            actions: Seq::empty(),
        }),
        MsgView::Exit(reply) => {
            if c.need_exit is Some {
                Err(CacheError::ExitAlreadyPending)
            } else {
                Ok(CacheStep { cache: CacheModel { need_exit: Some(reply), ..c }, actions: Seq::empty() })
            }
        },
    }
}

/// After every message: once an exit is pending and no helper is in flight,
/// the exit is acknowledged and the reactor stops.
pub open spec fn exit_check_model(step: CacheStep) -> CacheStep {
    match step.cache.need_exit {
        Some(reply) => {
            if quiescent(step.cache) {
                CacheStep {
                    cache: CacheModel { done: true, ..step.cache },
                    actions: step.actions.push(ActionView::AckExit(reply)),
                }
            } else {
                step
            }
        },
        None => step,
    }
}

/// One full turn of the reactor on one message: every registered hook sees
/// the message first, then it is dispatched, then a pending exit is
/// acknowledged if the cache has gone quiet. Protocol misuse changes
/// nothing and is reported.
pub open spec fn step_model(c: CacheModel, msg: MsgView) -> Result<CacheStep, CacheError> {
    match dispatch_model(c, msg) {
        Ok(step) => Ok(exit_check_model(
            CacheStep { cache: step.cache, actions: tap_actions(c.hooks, msg) + step.actions },
        )),
        Err(e) => Err(e),
    }
}

/// The cache a fresh reactor starts from: nothing touched, nobody waiting.
pub open spec fn init_model() -> CacheModel {
    CacheModel {
        states: Map::empty(),
        waiters: Map::empty(),
        hooks: Seq::empty(),
        need_exit: None,
        done: false,
    }
}

/// The image cache stage's state.
pub struct ImageCache {
    /// The state of processing an image for each URL.
    pub states: UrlMap<ImageState>,
    /// Clients waiting on a `WaitForImage` response, per URL.
    pub wait_map: UrlMap<Vec<u64>>,
    /// Registered test hooks.
    pub hooks: Vec<u64>,
    /// The latched exit reply channel.
    pub need_exit: Option<u64>,
    /// Whether the exit has been acknowledged.
    pub done: bool,
}

impl View for ImageCache {
    type V = CacheModel;

    open spec fn view(&self) -> CacheModel {
        CacheModel {
            states: self.states@,
            waiters: self.wait_map@,
            hooks: self.hooks@,
            need_exit: self.need_exit,
            done: self.done,
        }
    }
}

impl ImageCache {
    /// Both backing maps keep their keys unique.
    pub open spec fn wf(&self) -> bool {
        self.states.wf() && self.wait_map.wf()
    }

    /// A fresh cache stage.
    pub fn new() -> (cache: ImageCache)
        ensures
            cache.wf(),
            cache@ == init_model(),
    {
        let cache = ImageCache {
            states: UrlMap::new(),
            wait_map: UrlMap::new(),
            hooks: Vec::new(),
            need_exit: None,
            done: false,
        };
        proof {
            assert(cache@ =~= init_model());
        }
        cache
    }

    /// The variant of the URL's state.
    fn kind_of(&self, url: &Url) -> (k: StateKind)
        requires
            self.wf(),
        ensures
            k == kind_model(state_of(self@, url@)),
    {
        match self.states.get(url) {
            None => StateKind::Init,
            Some(state) => match state {
                ImageState::Init => StateKind::Init,
                ImageState::Prefetching(AfterPrefetch::DoNotDecode) => StateKind::PrefetchingNoDecode,
                ImageState::Prefetching(AfterPrefetch::DoDecode) => StateKind::PrefetchingDecode,
                ImageState::Prefetched(_) => StateKind::Prefetched,
                ImageState::Decoding => StateKind::Decoding,
                ImageState::Decoded(_) => StateKind::Decoded,
                ImageState::Failed => StateKind::Failed,
            },
        }
    }

    /// Notify every waiter for the URL, oldest first, and erase the entry.
    fn purge_waiters(&mut self, url: &Url, response: ImageResponseMsg) -> (actions: Vec<Action>)
        requires
            old(self).wf(),
        ensures
            final(self).wf(),
            final(self)@ == purge_model(old(self)@, url@, response@).cache,
            actions.deep_view() == purge_model(old(self)@, url@, response@).actions,
    {
        match self.wait_map.remove(url) {
            Some(waiters) => {
                let ghost expected = responses_to(waiters@, response@);
                let mut actions: Vec<Action> = Vec::new();
                let n = waiters.len();
                let mut i: usize = 0;
                while i < n
                    invariant
                        n == waiters@.len(),
                        i <= n,
                        expected == responses_to(waiters@, response@),
                        actions.deep_view().len() == i,
                        forall|j: int| 0 <= j < i ==> actions.deep_view()[j] == expected[j],
                    decreases n - i,
                {
                    actions.push(Action::Respond(waiters[i], response.clone()));
                    i = i + 1;
                }
                proof {
                    assert(actions.deep_view() =~= expected);
                }
                actions
            },
            None => {
                let empty_actions: Vec<Action> = Vec::new();
                proof {
                    assert(old(self)@.waiters.remove(url@) =~= old(self)@.waiters);
                    assert(self@ =~= purge_model(old(self)@, url@, response@).cache);
                    assert(empty_actions.deep_view() =~= responses_to(
                        waiters_of(old(self)@, url@),
                        response@,
                    ));
                }
                empty_actions
            },
        }
    }

    /// `Prefetch`: start a fetch for a URL never seen; otherwise a no-op.
    fn prefetch(&mut self, url: Url) -> (actions: Vec<Action>)
        requires
            old(self).wf(),
        ensures
            final(self).wf(),
            final(self)@ == prefetch_model(old(self)@, url@).cache,
            actions.deep_view() == prefetch_model(old(self)@, url@).actions,
    {
        let kind = self.kind_of(&url);
        if kind == StateKind::Init {
            let mut actions: Vec<Action> = Vec::new();
            actions.push(Action::LoadFromResource(url.clone()));
            self.states.set(&url, ImageState::Prefetching(AfterPrefetch::DoNotDecode));
            proof {
                assert(self@ =~= prefetch_model(old(self)@, url@).cache);
                assert(actions.deep_view() =~= prefetch_model(old(self)@, url@).actions);
            }
            actions
        } else {
            let empty_actions: Vec<Action> = Vec::new();
            proof {
                assert(empty_actions.deep_view() =~= Seq::<ActionView>::empty());
            }
            empty_actions
        }
    }

    /// `StorePrefetchedImageData`: a prefetch helper has landed.
    fn store_prefetched_image_data(&mut self, url: Url, data: Result<Vec<u8>, ()>) -> (r: Result<
        Vec<Action>,
        CacheError,
    >)
        requires
            old(self).wf(),
        ensures
            final(self).wf(),
            match r {
                Ok(actions) => store_prefetched_model(old(self)@, url@, data_view(data)) matches Ok(step)
                    && final(self)@ == step.cache && actions.deep_view() == step.actions,
                Err(e) => store_prefetched_model(old(self)@, url@, data_view(data)) == Err::<
                    CacheStep,
                    CacheError,
                >(e) && final(self)@ == old(self)@,
            },
    {
        let kind = self.kind_of(&url);
        if kind != StateKind::PrefetchingNoDecode && kind != StateKind::PrefetchingDecode {
            return Err(CacheError::StorePrefetchWrongState);
        }
        match data {
            Ok(bytes) => {
                if kind == StateKind::PrefetchingDecode {
                    let ghost spawned = bytes@;
                    self.states.set(&url, ImageState::Decoding);
                    let mut actions: Vec<Action> = Vec::new();
                    actions.push(Action::SpawnDecode(url, bytes));
                    proof {
                        assert(actions.deep_view() =~= seq![ActionView::SpawnDecode(url@, spawned)]);
                    }
                    Ok(actions)
                } else {
                    self.states.set(&url, ImageState::Prefetched(bytes));
                    let empty_actions: Vec<Action> = Vec::new();
                    proof {
                        assert(empty_actions.deep_view() =~= Seq::<ActionView>::empty());
                    }
                    Ok(empty_actions)
                }
            },
            Err(_) => {
                self.states.set(&url, ImageState::Failed);
                let ghost failed = self@;
                let actions = self.purge_waiters(&url, ImageResponseMsg::ImageFailed);
                proof {
                    assert(waiters_of(failed, url@) == waiters_of(old(self)@, url@));
                }
                Ok(actions)
            },
        }
    }

    /// `Decode`: start the decoder on ready bytes, consuming them; queue the
    /// intent while the fetch is in flight; a no-op once decoding has begun.
    fn decode(&mut self, url: Url) -> (r: Result<Vec<Action>, CacheError>)
        requires
            old(self).wf(),
        ensures
            final(self).wf(),
            match r {
                Ok(actions) => decode_model(old(self)@, url@) matches Ok(step) && final(self)@
                    == step.cache && actions.deep_view() == step.actions,
                Err(e) => decode_model(old(self)@, url@) == Err::<CacheStep, CacheError>(e) && final(self)@ == old(self)@,
            },
    {
        let kind = self.kind_of(&url);
        match kind {
            StateKind::Init => Err(CacheError::DecodeBeforePrefetch),
            StateKind::PrefetchingNoDecode => {
                self.states.set(&url, ImageState::Prefetching(AfterPrefetch::DoDecode));
                let empty_actions: Vec<Action> = Vec::new();
                proof {
                    assert(empty_actions.deep_view() =~= Seq::<ActionView>::empty());
                }
                Ok(empty_actions)
            },
            StateKind::Prefetched => {
                let taken = self.states.replace(&url, ImageState::Decoding);
                match taken {
                    Some(state) => match state {
                        ImageState::Prefetched(bytes) => {
                            let ghost spawned = bytes@;
                            let mut actions: Vec<Action> = Vec::new();
                            actions.push(Action::SpawnDecode(url, bytes));
                            proof {
                                assert(actions.deep_view() =~= seq![
                                    ActionView::SpawnDecode(url@, spawned),
                                ]);
                            }
                            Ok(actions)
                        },
                        _ => {
                            proof {
                                assert(false);
                            }
                            vstd::pervasive::unreached()
                        },
                    },
                    None => {
                        proof {
                            assert(false);
                        }
                        vstd::pervasive::unreached()
                    },
                }
            },
            _ => {
                let empty_actions: Vec<Action> = Vec::new();
                proof {
                    assert(empty_actions.deep_view() =~= Seq::<ActionView>::empty());
                }
                Ok(empty_actions)
            },
        }
    }

    /// `StoreImage`: a decode helper has landed; the state is terminal and
    /// every waiter is notified.
    fn store_image(&mut self, url: Url, image: Option<Arc<Image>>) -> (r: Result<
        Vec<Action>,
        CacheError,
    >)
        requires
            old(self).wf(),
        ensures
            final(self).wf(),
            match r {
                Ok(actions) => store_image_model(old(self)@, url@, image_view(image)) matches Ok(step)
                    && final(self)@ == step.cache && actions.deep_view() == step.actions,
                Err(e) => store_image_model(old(self)@, url@, image_view(image)) == Err::<
                    CacheStep,
                    CacheError,
                >(e) && final(self)@ == old(self)@,
            },
    {
        let kind = self.kind_of(&url);
        if kind != StateKind::Decoding {
            return Err(CacheError::StoreImageWrongState);
        }
        match image {
            Some(img) => {
                self.states.set(&url, ImageState::Decoded(clone_image_handle(&img)));
                let ghost decoded = self@;
                let actions = self.purge_waiters(&url, ImageResponseMsg::ImageReady(img));
                proof {
                    assert(waiters_of(decoded, url@) == waiters_of(old(self)@, url@));
                }
                Ok(actions)
            },
            None => {
                self.states.set(&url, ImageState::Failed);
                let ghost failed = self@;
                let actions = self.purge_waiters(&url, ImageResponseMsg::ImageFailed);
                proof {
                    assert(waiters_of(failed, url@) == waiters_of(old(self)@, url@));
                }
                Ok(actions)
            },
        }
    }

    /// `GetImage`: answer at once with what the state allows.
    fn get_image(&self, url: Url, response: u64) -> (r: Result<Vec<Action>, CacheError>)
        requires
            self.wf(),
        ensures
            match r {
                Ok(actions) => get_image_model(self@, url@, response) matches Ok(step)
                    && actions.deep_view() == step.actions,
                Err(e) => get_image_model(self@, url@, response) == Err::<CacheStep, CacheError>(e),
            },
    {
        let reply = match self.states.get(&url) {
            None => {
                return Err(CacheError::RequestBeforePrefetch);
            },
            Some(state) => match state {
                ImageState::Init => {
                    return Err(CacheError::RequestBeforePrefetch);
                },
                ImageState::Prefetching(AfterPrefetch::DoNotDecode) | ImageState::Prefetched(_) => {
                    return Err(CacheError::RequestBeforeDecode);
                },
                ImageState::Prefetching(AfterPrefetch::DoDecode) | ImageState::Decoding => {
                    ImageResponseMsg::ImageNotReady
                },
                ImageState::Decoded(image) => ImageResponseMsg::ImageReady(clone_image_handle(image)),
                ImageState::Failed => ImageResponseMsg::ImageFailed,
            },
        };
        let ghost sent = reply@;
        let mut actions: Vec<Action> = Vec::new();
        actions.push(Action::Respond(response, reply));
        proof {
            assert(actions.deep_view() =~= seq![ActionView::Respond(response, sent)]);
        }
        Ok(actions)
    }

    /// `WaitForImage`: answer at once if terminal, else enqueue the reply
    /// channel behind every earlier waiter.
    fn wait_for_image(&mut self, url: Url, response: u64) -> (r: Result<Vec<Action>, CacheError>)
        requires
            old(self).wf(),
        ensures
            final(self).wf(),
            match r {
                Ok(actions) => wait_for_image_model(old(self)@, url@, response) matches Ok(step)
                    && final(self)@ == step.cache && actions.deep_view() == step.actions,
                Err(e) => wait_for_image_model(old(self)@, url@, response) == Err::<
                    CacheStep,
                    CacheError,
                >(e) && final(self)@ == old(self)@,
            },
    {
        let kind = self.kind_of(&url);
        match kind {
            StateKind::PrefetchingDecode | StateKind::Decoding => {
                let mut waiters = match self.wait_map.remove(&url) {
                    Some(waiters) => waiters,
                    None => Vec::new(),
                };
                waiters.push(response);
                self.wait_map.set(&url, waiters);
                proof {
                    assert(self@.waiters =~= old(self)@.waiters.insert(
                        url@,
                        waiters_of(old(self)@, url@).push(response),
                    ));
                    assert(self@ =~= CacheModel {
                        waiters: old(self)@.waiters.insert(
                            url@,
                            waiters_of(old(self)@, url@).push(response),
                        ),
                        ..old(self)@
                    });
                }
                let empty_actions: Vec<Action> = Vec::new();
                proof {
                    assert(empty_actions.deep_view() =~= Seq::<ActionView>::empty());
                }
                Ok(empty_actions)
            },
            _ => self.get_image(url, response),
        }
    }

    /// Whether no helper is in flight for any URL.
    fn all_quiescent(&self) -> (r: bool)
        requires
            self.wf(),
        ensures
            r == quiescent(self@),
    {
        let n = self.states.entries.len();
        let mut i: usize = 0;
        while i < n
            invariant
                self.wf(),
                n == self.states.entries@.len(),
                i <= n,
                forall|j: int| 0 <= j < i ==> !is_pending(#[trigger] self.states.entries@[j].1@),
            decreases n - i,
        {
            let entry = &self.states.entries[i];
            let pending = match &entry.1 {
                ImageState::Prefetching(_) => true,
                ImageState::Decoding => true,
                _ => false,
            };
            proof {
                assert(pending == is_pending(self.states.entries@[i as int].1@));
            }
            if pending {
                proof {
                    lemma_to_map_index(self.states.entries@, i as int);
                    assert(self@.states.contains_key(self.states.entries@[i as int].0@));
                    assert(is_pending(self@.states[self.states.entries@[i as int].0@]));
                }
                return false;
            }
            i = i + 1;
        }
        proof {
            assert forall|url: UrlView| self@.states.contains_key(url) implies !is_pending(
                #[trigger] self@.states[url],
            ) by {
                lemma_to_map_contains(self.states.entries@, url);
                let j = choose|j: int|
                    0 <= j < self.states.entries@.len() && self.states.entries@[j].0@ == url;
                lemma_to_map_index(self.states.entries@, j);
            }
        }
        true
    }

    /// One full turn of the reactor on one message: hooks see the message,
    /// it is dispatched, and a pending exit is acknowledged once no helper
    /// is in flight. Protocol misuse leaves the cache unchanged and is
    /// reported; the surrounding task aborts on it, as a misused cache
    /// cannot answer for its state.
    pub fn handle_msg(&mut self, msg: Msg) -> (r: Result<Vec<Action>, CacheError>)
        requires
            old(self).wf(),
            !old(self)@.done,
        ensures
            final(self).wf(),
            match r {
                Ok(actions) => step_model(old(self)@, msg@) matches Ok(step) && final(self)@
                    == step.cache && actions.deep_view() == step.actions,
                Err(e) => step_model(old(self)@, msg@) == Err::<CacheStep, CacheError>(e) && final(self)@ == old(self)@,
            },
    {
        let ghost taps = tap_actions(old(self)@.hooks, msg@);
        let mut actions: Vec<Action> = Vec::new();
        let n = self.hooks.len();
        let mut i: usize = 0;
        while i < n
            invariant
                n == self.hooks@.len(),
                i <= n,
                taps == tap_actions(self@.hooks, msg@),
                *self == *old(self),
                actions.deep_view().len() == i,
                forall|j: int| 0 <= j < i ==> actions.deep_view()[j] == taps[j],
            decreases n - i,
        {
            actions.push(Action::Tap(self.hooks[i], msg.clone()));
            i = i + 1;
        }
        proof {
            assert(actions.deep_view() =~= taps);
        }
        let dispatched = match msg {
            Msg::Prefetch(url) => Ok(self.prefetch(url)),
            Msg::StorePrefetchedImageData(url, data) => self.store_prefetched_image_data(url, data),
            Msg::Decode(url) => self.decode(url),
            Msg::StoreImage(url, image) => self.store_image(url, image),
            Msg::GetImage(url, response) => self.get_image(url, response),
            Msg::WaitForImage(url, response) => self.wait_for_image(url, response),
            Msg::OnMsg(hook) => {
                self.hooks.push(hook);
                Ok(Vec::new())
            },
            Msg::Exit(reply) => match self.need_exit {
                Some(_) => Err(CacheError::ExitAlreadyPending),
                None => {
                    self.need_exit = Some(reply);
                    Ok(Vec::new())
                },
            },
        };
        match dispatched {
            Ok(mut dispatched_actions) => {
                let ghost step = CacheStep {
                    cache: self@,
                    actions: taps + dispatched_actions.deep_view(),
                };
                actions.append(&mut dispatched_actions);
                proof {
                    assert(actions.deep_view() =~= step.actions);
                }
                let ack = match self.need_exit {
                    Some(reply) => {
                        if self.all_quiescent() {
                            Some(reply)
                        } else {
                            None
                        }
                    },
                    None => None,
                };
                match ack {
                    Some(reply) => {
                        actions.push(Action::AckExit(reply));
                        self.done = true;
                        proof {
                            assert(self@ =~= exit_check_model(step).cache);
                            assert(actions.deep_view() =~= exit_check_model(step).actions);
                        }
                    },
                    None => {
                        proof {
                            assert(self@ =~= exit_check_model(step).cache);
                            assert(actions.deep_view() =~= exit_check_model(step).actions);
                        }
                    },
                }
                Ok(actions)
            },
            Err(e) => Err(e),
        }
    }
}

/// One run of the reactor over a prefix of its inbox: the cache afterwards,
/// every action taken, and the protocol misuse that stopped it, if any.
#[verifier::ext_equal]
pub ghost struct RunResult {
    pub cache: CacheModel,
    pub actions: Seq<ActionView>,
    pub error: Option<CacheError>,
}

/// A run that has already taken `prefix` actions and goes on as `rest`.
pub open spec fn after_actions(prefix: Seq<ActionView>, rest: RunResult) -> RunResult {
    RunResult { cache: rest.cache, actions: prefix + rest.actions, error: rest.error }
}

/// The reactor applied to each message in arrival order. It stops once the
/// exit is acknowledged, and protocol misuse stops it with the error — the
/// reactor's surrounding task aborts there.
pub open spec fn run_model(c: CacheModel, msgs: Seq<MsgView>) -> RunResult
    decreases msgs.len(),
{
    if msgs.len() == 0 || c.done {
        RunResult { cache: c, actions: Seq::empty(), error: None }
    } else {
        match step_model(c, msgs[0]) {
            Ok(step) => after_actions(step.actions, run_model(step.cache, msgs.drop_first())),
            Err(e) => RunResult { cache: c, actions: Seq::empty(), error: Some(e) },
        }
    }
}

impl ImageCache {
    /// Drive the reactor over the messages in arrival order, collecting
    /// every action it takes. The run ends early once a pending exit is
    /// acknowledged, or with the error on protocol misuse.
    pub fn run(&mut self, msgs: &Vec<Msg>) -> (r: (Vec<Action>, Option<CacheError>))
        requires
            old(self).wf(),
        ensures
            final(self).wf(),
            final(self)@ == run_model(old(self)@, msgs.deep_view()).cache,
            r.0.deep_view() == run_model(old(self)@, msgs.deep_view()).actions,
            r.1 == run_model(old(self)@, msgs.deep_view()).error,
    {
        let ghost whole = run_model(old(self)@, msgs.deep_view());
        let mut actions: Vec<Action> = Vec::new();
        let n = msgs.len();
        let mut i: usize = 0;
        proof {
            assert(msgs.deep_view().skip(0) =~= msgs.deep_view());
            assert(whole =~= after_actions(
                actions.deep_view(),
                run_model(self@, msgs.deep_view().skip(0)),
            ));
        }
        while i < n && !self.done
            invariant
                self.wf(),
                n == msgs@.len(),
                i <= n,
                whole == run_model(old(self)@, msgs.deep_view()),
                whole == after_actions(
                    actions.deep_view(),
                    run_model(self@, msgs.deep_view().skip(i as int)),
                ),
            decreases n - i,
        {
            let ghost rest_msgs = msgs.deep_view().skip(i as int);
            proof {
                assert(rest_msgs[0] == msgs.deep_view()[i as int]);
                assert(rest_msgs.drop_first() =~= msgs.deep_view().skip(i as int + 1));
            }
            let ghost before = self@;
            let ghost acted = actions.deep_view();
            match self.handle_msg(msgs[i].clone()) {
                Ok(mut stepped) => {
                    let ghost step_actions = stepped.deep_view();
                    actions.append(&mut stepped);
                    proof {
                        assert(actions.deep_view() =~= acted + step_actions);
                        let rest = run_model(self@, msgs.deep_view().skip(i as int + 1));
                        assert(run_model(before, rest_msgs) =~= after_actions(step_actions, rest));
                        assert(acted + (step_actions + rest.actions) =~= (acted + step_actions)
                            + rest.actions);
                        assert(whole =~= after_actions(
                            actions.deep_view(),
                            run_model(self@, msgs.deep_view().skip(i as int + 1)),
                        ));
                    }
                },
                Err(e) => {
                    proof {
                        let rest = run_model(self@, rest_msgs);
                        assert(rest =~= RunResult {
                            cache: self@,
                            actions: Seq::empty(),
                            error: Some(e),
                        });
                        assert(acted + Seq::<ActionView>::empty() =~= acted);
                    }
                    return (actions, Some(e));
                },
            }
            i = i + 1;
        }
        proof {
            let rest = run_model(self@, msgs.deep_view().skip(i as int));
            assert(rest =~= RunResult { cache: self@, actions: Seq::empty(), error: None });
            assert(actions.deep_view() + Seq::<ActionView>::empty() =~= actions.deep_view());
        }
        (actions, None)
    }
}

/// What a prefetch helper makes of the progress stream for one URL: the
/// payload chunks concatenated in arrival order if the load ends well, or
/// an error. Chunks after the first `Done` belong to no load and are never
/// looked at.
pub open spec fn load_data_model(msgs: Seq<crate::resource::ProgressMsgView>) -> Result<Seq<u8>, ()>
    decreases msgs.len(),
{
    if msgs.len() == 0 {
        Err(())
    } else {
        match msgs[0] {
            crate::resource::ProgressMsgView::Payload(bytes) => match load_data_model(
                msgs.drop_first(),
            ) {
                Ok(rest) => Ok(bytes + rest),
                Err(e) => Err(e),
            },
            crate::resource::ProgressMsgView::Done(result) => match result {
                Ok(_) => Ok(Seq::empty()),
                Err(_) => Err(()),
            },
        }
    }
}

/// The progress stream carries its terminating `Done`.
pub open spec fn contains_done(msgs: Seq<crate::resource::ProgressMsgView>) -> bool {
    exists|i: int| 0 <= i < msgs.len() && msgs[i] is Done
}

/// Concatenate the payload chunks a load streamed for one URL, as the
/// prefetch helper does before posting the bytes back to the cache. A load
/// streams zero or more `Payload` chunks and then exactly one `Done`;
/// without the `Done` the helper would wait forever.
pub fn load_image_data(progress: &Vec<crate::resource::ProgressMsg>) -> (r: Result<Vec<u8>, ()>)
    requires
        contains_done(progress.deep_view()),
    ensures
        match r {
            Ok(bytes) => load_data_model(progress.deep_view()) == Ok::<Seq<u8>, ()>(bytes@),
            Err(_) => load_data_model(progress.deep_view()) is Err,
        },
{
    let ghost whole = load_data_model(progress.deep_view());
    let mut image_data: Vec<u8> = Vec::new();
    let n = progress.len();
    let mut i: usize = 0;
    proof {
        assert(progress.deep_view().skip(0) =~= progress.deep_view());
        if whole is Ok {
            assert(Seq::<u8>::empty() + whole->Ok_0 =~= whole->Ok_0);
            assert(whole == match load_data_model(progress.deep_view().skip(0)) {
                Ok(rest) => Ok::<Seq<u8>, ()>(Seq::<u8>::empty() + rest),
                Err(e) => Err::<Seq<u8>, ()>(e),
            });
        }
    }
    while i < n
        invariant
            n == progress@.len(),
            i <= n,
            whole == load_data_model(progress.deep_view()),
            contains_done(progress.deep_view()),
            forall|j: int| 0 <= j < i ==> !(#[trigger] progress.deep_view()[j] is Done),
            whole == (match load_data_model(progress.deep_view().skip(i as int)) {
                Ok(rest) => Ok::<Seq<u8>, ()>(image_data@ + rest),
                Err(e) => Err::<Seq<u8>, ()>(e),
            }),
        decreases n - i,
    {
        let ghost rest_msgs = progress.deep_view().skip(i as int);
        proof {
            assert(rest_msgs[0] == progress.deep_view()[i as int]);
            assert(rest_msgs.drop_first() =~= progress.deep_view().skip(i as int + 1));
        }
        let ghost sofar = image_data@;
        match &progress[i] {
            crate::resource::ProgressMsg::Payload(data) => {
                image_data.extend_from_slice(data.as_slice());
                proof {
                    assert forall|k: int| 0 <= k < image_data@.len() implies image_data@[k] == (
                    sofar + data@)[k] by {
                        if k >= sofar.len() {
                            assert(vstd::pervasive::cloned::<u8>(
                                data@[k - sofar.len()],
                                image_data@[k],
                            ));
                        }
                    }
                    assert(image_data@ =~= sofar + data@);
                    if load_data_model(rest_msgs.drop_first()) is Ok {
                        let rest = load_data_model(rest_msgs.drop_first())->Ok_0;
                        assert(sofar + (data@ + rest) =~= (sofar + data@) + rest);
                    }
                }
            },
            crate::resource::ProgressMsg::Done(result) => {
                if result.is_ok() {
                    proof {
                        assert(image_data@ + Seq::<u8>::empty() =~= image_data@);
                    }
                    return Ok(image_data);
                } else {
                    return Err(());
                }
            },
        }
        i = i + 1;
    }
    proof {
        let j = choose|j: int|
            0 <= j < progress.deep_view().len() && progress.deep_view()[j] is Done;
        assert(false);
    }
    vstd::pervasive::unreached()
}

/// The synchronous shim over the cache: it forwards `GetImage` as
/// `WaitForImage` to the inner cache, so the caller blocks until the image
/// is terminal; every other message passes through unchanged.
pub open spec fn sync_route_model(msg: MsgView) -> MsgView {
    match msg {
        MsgView::GetImage(url, response) => MsgView::WaitForImage(url, response),
        _ => msg,
    }
}

/// What the synchronous cache shim forwards for one received message.
pub fn sync_route(msg: Msg) -> (r: Msg)
    ensures
        r@ == sync_route_model(msg@),
{
    match msg {
        Msg::GetImage(url, response) => Msg::WaitForImage(url, response),
        other => other,
    }
}

} // verus!
