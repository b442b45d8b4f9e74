//! The resource stage: a demultiplexer that hands each `Load` request to a
//! per-scheme loader and otherwise reports failure.
//!
//! The stage owns a construction-time table from scheme to loader. Loaders
//! themselves run outside the stage (each conceptually in its own task) and
//! stream progress back on the channel given with the request, so here a
//! loader is an opaque handle and a channel is an opaque handle; dispatching
//! a message yields the action the stage performs.

use crate::url::{Url, UrlView};
use vstd::prelude::*;
use vstd::std_specs::cmp::PartialEqSpec;

verus! {

/// Two results that carry no data are equal as soon as they are the same
/// variant.
pub proof fn lemma_unit_result_eq(a: Result<(), ()>, b: Result<(), ()>)
    requires
        a is Ok <==> b is Ok,
    ensures
        a == b,
{
    if a is Ok {
        assert(a == Ok::<(), ()>(a->Ok_0));
        assert(b == Ok::<(), ()>(b->Ok_0));
    } else {
        assert(a == Err::<(), ()>(a->Err_0));
        assert(b == Err::<(), ()>(b->Err_0));
    }
}

/// The mathematical value of a [`ProgressMsg`].
pub ghost enum ProgressMsgView {
    Payload(Seq<u8>),
    Done(Result<(), ()>),
}

/// Messages sent in response to a `Load` message: zero or more `Payload`
/// chunks followed by exactly one `Done`.
pub enum ProgressMsg {
    /// Binary data - there may be multiple of these.
    Payload(Vec<u8>),
    /// Indicates loading is complete, either successfully or not.
    Done(Result<(), ()>),
}

impl View for ProgressMsg {
    type V = ProgressMsgView;

    open spec fn view(&self) -> ProgressMsgView {
        match self {
            ProgressMsg::Payload(data) => ProgressMsgView::Payload(data@),
            ProgressMsg::Done(result) => ProgressMsgView::Done(*result),
        }
    }
}

impl DeepView for ProgressMsg {
    type V = ProgressMsgView;

    open spec fn deep_view(&self) -> ProgressMsgView {
        self.view()
    }
}

impl Clone for ProgressMsg {
    fn clone(&self) -> (r: ProgressMsg)
        ensures
            r@ == self@,
    {
        match self {
            ProgressMsg::Payload(data) => {
                let copied = data.clone();
                proof {
                    assert(copied@ =~= data@);
                }
                ProgressMsg::Payload(copied)
            },
            ProgressMsg::Done(result) => ProgressMsg::Done(*result),
        }
    }
}

impl ProgressMsg {
    /// Two progress messages are equal when they carry the same variant with
    /// the same contents.
    pub fn eq(&self, other: &ProgressMsg) -> (r: bool)
        ensures
            r == (self@ == other@),
    {
        match (self, other) {
            (ProgressMsg::Payload(a), ProgressMsg::Payload(b)) => {
                let r = a == b;
                proof {
                    if r {
                        assert(a@ =~= b@);
                    } else {
                        if a@ == b@ {
                            assert(a.eq_spec(b));
                        }
                    }
                }
                r
            },
            (ProgressMsg::Done(a), ProgressMsg::Done(b)) => {
                let r = a.is_ok() == b.is_ok();
                proof {
                    if r {
                        lemma_unit_result_eq(*a, *b);
                    }
                }
                r
            },
            _ => false,
        }
    }

    pub fn ne(&self, other: &ProgressMsg) -> (r: bool)
        ensures
            r == (self@ != other@),
    {
        !self.eq(other)
    }
}

/// The mathematical value of a [`ControlMsg`].
pub ghost enum ControlMsgView {
    Load(UrlView, u64),
    Exit,
}

/// Messages the resource stage accepts.
pub enum ControlMsg {
    /// Request the data associated with a particular URL; progress is
    /// streamed on the given channel.
    Load(Url, u64),
    Exit,
}

impl View for ControlMsg {
    type V = ControlMsgView;

    open spec fn view(&self) -> ControlMsgView {
        match self {
            ControlMsg::Load(url, progress) => ControlMsgView::Load(url@, *progress),
            ControlMsg::Exit => ControlMsgView::Exit,
        }
    }
}

impl DeepView for ControlMsg {
    type V = ControlMsgView;

    open spec fn deep_view(&self) -> ControlMsgView {
        self.view()
    }
}

/// The mathematical value of a [`ResourceAction`].
pub ghost enum ResourceActionView {
    InvokeLoader { loader: u64, url: UrlView, progress: u64 },
    SendProgress { progress: u64, msg: ProgressMsgView },
}

/// What the resource stage does in response to one message: start a loader
/// for the URL, or report on the progress channel itself.
pub enum ResourceAction {
    InvokeLoader { loader: u64, url: Url, progress: u64 },
    SendProgress { progress: u64, msg: ProgressMsg },
}

impl View for ResourceAction {
    type V = ResourceActionView;

    open spec fn view(&self) -> ResourceActionView {
        match self {
            ResourceAction::InvokeLoader { loader, url, progress } => ResourceActionView::InvokeLoader {
                loader: *loader,
                url: url@,
                progress: *progress,
            },
            ResourceAction::SendProgress { progress, msg } => ResourceActionView::SendProgress {
                progress: *progress,
                msg: msg@,
            },
        }
    }
}

impl DeepView for ResourceAction {
    type V = ResourceActionView;

    open spec fn deep_view(&self) -> ResourceActionView {
        self.view()
    }
}

/// The loader handle registered for a scheme: the first entry whose scheme
/// matches, as the table is searched front to back.
pub open spec fn find_loader(loaders: Seq<(Seq<char>, u64)>, scheme: Seq<char>) -> Option<u64>
    decreases loaders.len(),
{
    if loaders.len() == 0 {
        None
    } else if loaders[0].0 == scheme {
        Some(loaders[0].1)
    } else {
        find_loader(loaders.drop_first(), scheme)
    }
}

/// What the resource stage does with one `Load`: a known scheme starts its
/// loader, an unknown scheme answers `Done(Err)` on the progress channel.
pub open spec fn load_model(loaders: Seq<(Seq<char>, u64)>, url: UrlView, progress: u64) -> ResourceActionView {
    match find_loader(loaders, url.scheme) {
        Some(loader) => ResourceActionView::InvokeLoader { loader, url, progress },
        None => ResourceActionView::SendProgress { progress, msg: ProgressMsgView::Done(Err(())) },
    }
}

/// What a whole run of the stage does: messages are dispatched in order
/// until the first `Exit`, which stops the stage.
pub open spec fn start_model(loaders: Seq<(Seq<char>, u64)>, msgs: Seq<ControlMsgView>) -> Seq<ResourceActionView>
    decreases msgs.len(),
{
    if msgs.len() == 0 {
        Seq::empty()
    } else {
        match msgs[0] {
            ControlMsgView::Load(url, progress) => seq![load_model(loaders, url, progress)] + start_model(
                loaders,
                msgs.drop_first(),
            ),
            ControlMsgView::Exit => Seq::empty(),
        }
    }
}

/// The resource stage's state: its per-scheme loader table.
pub struct ResourceManager {
    /// Per-scheme resource loaders.
    pub loaders: Vec<(String, u64)>,
}

impl View for ResourceManager {
    type V = Seq<(Seq<char>, u64)>;

    open spec fn view(&self) -> Seq<(Seq<char>, u64)> {
        Seq::new(self.loaders@.len(), |i: int| (self.loaders@[i].0@, self.loaders@[i].1))
    }
}

impl ResourceManager {
    pub fn new(loaders: Vec<(String, u64)>) -> (manager: ResourceManager)
        ensures
            manager@.len() == loaders@.len(),
            forall|i: int|
                0 <= i < loaders@.len() ==> manager@[i] == (loaders@[i].0@, loaders@[i].1),
    {
        ResourceManager { loaders }
    }

    /// The stage with the built-in loaders: `file` and `http`.
    pub fn with_default_loaders(file_loader: u64, http_loader: u64) -> (manager: ResourceManager)
        ensures
            manager@ =~= seq![("file"@, file_loader), ("http"@, http_loader)],
    {
        let mut loaders: Vec<(String, u64)> = Vec::new();
        loaders.push(("file".to_owned(), file_loader));
        loaders.push(("http".to_owned(), http_loader));
        ResourceManager { loaders }
    }

    /// Look the URL's scheme up in the loader table.
    pub fn get_loader_factory(&self, url: &Url) -> (r: Option<u64>)
        ensures
            r == find_loader(self@, url@.scheme),
    {
        let n = self.loaders.len();
        let mut i: usize = 0;
        proof {
            assert(self@.skip(0) =~= self@);
        }
        while i < n
            invariant
                n == self.loaders@.len(),
                i <= n,
                find_loader(self@, url@.scheme) == find_loader(self@.skip(i as int), url@.scheme),
            decreases n - i,
        {
            let ghost prev = self@.skip(i as int);
            if self.loaders[i].0 == url.scheme {
                proof {
                    assert(prev[0] == self@[i as int]);
                }
                return Some(self.loaders[i].1);
            }
            proof {
                assert(prev[0] == self@[i as int]);
                assert(prev.drop_first() =~= self@.skip(i as int + 1));
            }
            i = i + 1;
        }
        proof {
            assert(self@.skip(n as int).len() == 0);
        }
        None
    }

    /// Dispatch one `Load`.
    pub fn load(&self, url: Url, progress: u64) -> (action: ResourceAction)
        ensures
            action@ == load_model(self@, url@, progress),
    {
        match self.get_loader_factory(&url) {
            Some(loader) => ResourceAction::InvokeLoader { loader, url, progress },
            None => ResourceAction::SendProgress { progress, msg: ProgressMsg::Done(Err(())) },
        }
    }

    /// Dispatch the stage's inbox in arrival order; the first `Exit` stops
    /// the stage and later messages are never seen.
    pub fn start(&self, msgs: &Vec<ControlMsg>) -> (actions: Vec<ResourceAction>)
        ensures
            actions.deep_view() == start_model(self@, msgs.deep_view()),
    {
        let mut actions: Vec<ResourceAction> = Vec::new();
        let n = msgs.len();
        let mut i: usize = 0;
        proof {
            assert(msgs.deep_view().skip(0) =~= msgs.deep_view());
            assert(actions.deep_view() + start_model(self@, msgs.deep_view()) =~= start_model(
                self@,
                msgs.deep_view(),
            ));
        }
        while i < n
            invariant
                n == msgs@.len(),
                i <= n,
                actions.deep_view() + start_model(self@, msgs.deep_view().skip(i as int)) == start_model(
                    self@,
                    msgs.deep_view(),
                ),
            decreases n - i,
        {
            let ghost rest = msgs.deep_view().skip(i as int);
            proof {
                assert(rest[0] == msgs.deep_view()[i as int]);
                assert(rest.drop_first() =~= msgs.deep_view().skip(i as int + 1));
            }
            match &msgs[i] {
                ControlMsg::Load(url, progress) => {
                    let action = self.load(url.clone(), *progress);
                    actions.push(action);
                    proof {
                        assert(actions.deep_view() + start_model(self@, msgs.deep_view().skip(i as int + 1))
                            =~= actions.deep_view().drop_last() + (seq![actions.deep_view().last()]
                                + start_model(self@, msgs.deep_view().skip(i as int + 1))));
                    }
                },
                ControlMsg::Exit => {
                    return actions;
                },
            }
            i = i + 1;
        }
        proof {
            assert(msgs.deep_view().skip(n as int).len() == 0);
            assert(actions.deep_view() + Seq::<ResourceActionView>::empty() =~= actions.deep_view());
        }
        actions
    }
}

} // verus!
