//! The content stage: the message loop that drives parse, style, script and
//! layout, and the reader/writer handshake that lets it mutate the DOM while
//! layout reads a snapshot.
//!
//! The stage multiplexes a control channel and a compositor event channel.
//! Parsing, script evaluation, file reads and the layout task itself are
//! outside collaborators, so here the root node, the stylesheet, scripts,
//! queries and channels are opaque handles, and each received message yields
//! the actions the stage performs in order. The node scope's reader-forked
//! bit is the handshake: it is set right after a `BuildMsg` is sent and
//! cleared only by a ping/pong barrier with layout.

use crate::url::{Url, UrlView};
use vstd::prelude::*;
use vstd::string::StringExecFns;

verus! {

/// The line `alert(message)` prints to standard output.
pub fn alert_line(message: &str) -> (r: String)
    ensures
        r@ == "ALERT: "@ + message@,
{
    let mut line = String::new();
    line.append("ALERT: ");
    line.append(message);
    proof {
        assert(Seq::<char>::empty() + "ALERT: "@ + message@ =~= "ALERT: "@ + message@);
    }
    line
}

/// The DOM's ownership arena, as far as the handshake is concerned: while
/// the reader-forked bit is set, layout may still be reading a snapshot and
/// content must not mutate nodes layout can observe.
#[derive(Clone, Copy, PartialEq, Eq, Structural)]
pub struct NodeScope {
    pub reader_forked: bool,
}

impl NodeScope {
    pub fn new() -> (scope: NodeScope)
        ensures
            !scope.reader_forked,
    {
        NodeScope { reader_forked: false }
    }

    pub fn is_reader_forked(&self) -> (r: bool)
        ensures
            r == self.reader_forked,
    {
        self.reader_forked
    }

    /// Record that layout was handed a snapshot.
    pub fn reader_forked(&mut self)
        ensures
            final(self).reader_forked,
    {
        self.reader_forked = true;
    }

    /// Record that layout has drained all earlier work.
    pub fn reader_joined(&mut self)
        ensures
            !final(self).reader_forked,
    {
        self.reader_forked = false;
    }
}

/// A document as the handshake sees it: the root node and the current
/// stylesheet, both shared with layout, as opaque handles.
#[derive(Clone, Copy, PartialEq, Eq, Structural)]
pub struct Document {
    pub root: u64,
    pub css_rules: u64,
}

/// The mathematical value of a [`TimerData`].
pub ghost struct TimerDataView {
    pub funval: u64,
    pub args: Seq<u64>,
}

/// A script callback scheduled by `setTimeout`: the function value to invoke
/// and the argument values to pass, as opaque handles into the script
/// engine. The data moves into the scheduled message and the content stage
/// owns it thereafter.
pub struct TimerData {
    pub funval: u64,
    pub args: Vec<u64>,
}

impl View for TimerData {
    type V = TimerDataView;

    open spec fn view(&self) -> TimerDataView {
        TimerDataView { funval: self.funval, args: self.args@ }
    }
}

impl TimerData {
    /// What `setTimeout(function, delay, ...extra)` captures from its call
    /// arguments: the function value, and everything after the delay.
    pub fn from_call_args(args: &Vec<u64>) -> (data: TimerData)
        requires
            args@.len() >= 2,
        ensures
            data@.funval == args@[0],
            data@.args == args@.skip(2),
    {
        let mut extra: Vec<u64> = Vec::new();
        let n = args.len();
        let mut i: usize = 2;
        while i < n
            invariant
                2 <= i <= n,
                n == args@.len(),
                extra@ =~= args@.subrange(2, i as int),
            decreases n - i,
        {
            extra.push(args[i]);
            i = i + 1;
        }
        proof {
            assert(extra@ =~= args@.skip(2));
        }
        TimerData { funval: args[0], args: extra }
    }
}

/// The node kinds scripts can observe through the `Node` prototype.
#[derive(Clone, Copy, PartialEq, Eq, Structural)]
pub enum NodeKind {
    Element,
    Text,
    Comment,
    Doctype,
}

/// The `nodeType` code exposed to scripts for each kind of node.
pub fn node_type_code(kind: NodeKind) -> (code: u64)
    ensures
        code == (match kind {
            NodeKind::Element => 1u64,
            NodeKind::Text => 3u64,
            NodeKind::Comment => 8u64,
            NodeKind::Doctype => 10u64,
        }),
{
    match kind {
        NodeKind::Element => 1,
        NodeKind::Text => 3,
        NodeKind::Comment => 8,
        NodeKind::Doctype => 10,
    }
}

/// The mathematical value of a [`ControlMsg`].
pub ghost enum ControlMsgView {
    ParseMsg(UrlView),
    ExecuteMsg(UrlView),
    Timer(TimerDataView),
    ExitMsg,
}

/// Messages the content stage receives on its control channel.
pub enum ControlMsg {
    /// Parse the document at the URL and make it current.
    ParseMsg(Url),
    /// Read the URL's local file and evaluate it as script.
    ExecuteMsg(Url),
    /// A scheduled script callback has come due.
    Timer(TimerData),
    ExitMsg,
}

impl View for ControlMsg {
    type V = ControlMsgView;

    open spec fn view(&self) -> ControlMsgView {
        match self {
            ControlMsg::ParseMsg(url) => ControlMsgView::ParseMsg(url@),
            ControlMsg::ExecuteMsg(url) => ControlMsgView::ExecuteMsg(url@),
            ControlMsg::Timer(data) => ControlMsgView::Timer(data@),
            ControlMsg::ExitMsg => ControlMsgView::ExitMsg,
        }
    }
}

/// Events the compositor sends the content stage.
#[derive(Clone, Copy, PartialEq, Eq, Structural)]
pub enum Event {
    ResizeEvent(i32, i32),
    ReflowEvent,
}

/// The reply layout sends once a ping's barrier is reached.
#[derive(Clone, Copy, PartialEq, Eq, Structural)]
pub enum PingMsg {
    PongMsg,
}

/// One input of the content stage's loop: the control channel and the event
/// channel are multiplexed.
pub enum SelectedMsg {
    FromControl(ControlMsg),
    FromEvent(Event),
}

impl View for SelectedMsg {
    type V = SelectedMsgView;

    open spec fn view(&self) -> SelectedMsgView {
        match self {
            SelectedMsg::FromControl(msg) => SelectedMsgView::FromControl(msg@),
            SelectedMsg::FromEvent(event) => SelectedMsgView::FromEvent(*event),
        }
    }
}

/// The mathematical value of a [`SelectedMsg`].
pub ghost enum SelectedMsgView {
    FromControl(ControlMsgView),
    FromEvent(Event),
}

/// The mathematical value of a [`ContentAction`].
pub ghost enum ContentActionView {
    Parse(UrlView),
    InstallBindings,
    EvalScript(u64),
    ReadAndEvalFile(UrlView),
    CallTimerCallback { funval: u64, this_value: Option<u64> },
    SendBuild { root: u64, css_rules: u64, url: UrlView, event_chan: u64 },
    PingAndAwait { reply: u64 },
    SendQuery { query: u64, reply: u64 },
    SendLayoutExit,
}

/// What the content stage does in reaction to one input, in order. The
/// surrounding task carries each action out: it runs the parser, the script
/// engine or the file read, sends `BuildMsg`, `QueryMsg` or `ExitMsg` to the
/// layout task, or sends `PingMsg(reply)` and blocks until layout answers
/// `PongMsg` on that channel.
pub enum ContentAction {
    /// Run the parser on the document at the URL; its result comes back
    /// through [`Content::handle_parse_result`].
    Parse(Url),
    /// Install the script bindings on the document's compartment.
    InstallBindings,
    /// Evaluate a script (an opaque handle the parser streamed).
    EvalScript(u64),
    /// Read the URL's local file and evaluate it as script; errors are
    /// logged and never fatal.
    ReadAndEvalFile(Url),
    /// Invoke a scheduled script callback, with the given `this` value or
    /// the global object.
    CallTimerCallback { funval: u64, this_value: Option<u64> },
    /// Send `BuildMsg(root, stylesheet, url, event_chan)` to layout.
    SendBuild { root: u64, css_rules: u64, url: Url, event_chan: u64 },
    /// Send `PingMsg(reply)` to layout and block until `PongMsg` arrives:
    /// the barrier that guarantees layout has drained all earlier builds.
    PingAndAwait { reply: u64 },
    /// Send `QueryMsg(query, reply)` to layout and await the answer.
    SendQuery { query: u64, reply: u64 },
    /// Forward the shutdown to layout.
    SendLayoutExit,
}

impl View for ContentAction {
    type V = ContentActionView;

    open spec fn view(&self) -> ContentActionView {
        match self {
            ContentAction::Parse(url) => ContentActionView::Parse(url@),
            ContentAction::InstallBindings => ContentActionView::InstallBindings,
            ContentAction::EvalScript(script) => ContentActionView::EvalScript(*script),
            ContentAction::ReadAndEvalFile(url) => ContentActionView::ReadAndEvalFile(url@),
            ContentAction::CallTimerCallback { funval, this_value } => ContentActionView::CallTimerCallback {
                funval: *funval,
                this_value: *this_value,
            },
            ContentAction::SendBuild { root, css_rules, url, event_chan } => ContentActionView::SendBuild {
                root: *root,
                css_rules: *css_rules,
                url: url@,
                event_chan: *event_chan,
            },
            ContentAction::PingAndAwait { reply } => ContentActionView::PingAndAwait { reply: *reply },
            ContentAction::SendQuery { query, reply } => ContentActionView::SendQuery {
                query: *query,
                reply: *reply,
            },
            ContentAction::SendLayoutExit => ContentActionView::SendLayoutExit,
        }
    }
}

impl DeepView for ContentAction {
    type V = ContentActionView;

    open spec fn deep_view(&self) -> ContentActionView {
        self.view()
    }
}

/// The mathematical value of the content stage.
#[verifier::ext_equal]
pub ghost struct ContentView {
    pub scope: NodeScope,
    pub document: Option<Document>,
    pub doc_url: Option<UrlView>,
    pub window_chan: Option<u64>,
    pub control_chan: u64,
    pub event_chan: u64,
    pub next_chan: u64,
}

/// The content stage's state.
pub struct Content {
    /// The node scope's handshake bit.
    pub scope: NodeScope,
    /// The current document, once one has been parsed.
    pub document: Option<Document>,
    /// The current document's URL.
    pub doc_url: Option<Url>,
    /// The sender the window hands to script timers, once a window exists.
    pub window_chan: Option<u64>,
    /// This stage's own control channel, which timers send back on.
    pub control_chan: u64,
    /// The event channel handed to layout with every build.
    pub event_chan: u64,
    /// The next fresh reply channel for pings and queries.
    pub next_chan: u64,
}

impl View for Content {
    type V = ContentView;

    open spec fn view(&self) -> ContentView {
        ContentView {
            scope: self.scope,
            document: self.document,
            doc_url: match &self.doc_url {
                Some(url) => Some(url@),
                None => None,
            },
            window_chan: self.window_chan,
            control_chan: self.control_chan,
            event_chan: self.event_chan,
            next_chan: self.next_chan,
        }
    }
}

/// Clear the handshake bit, pinging layout first when a snapshot is out:
/// afterwards layout is never behind the tree content is about to touch.
pub open spec fn join_layout_model(c: ContentView) -> (ContentView, Seq<ContentActionView>) {
    if c.scope.reader_forked {
        (
            ContentView {
                scope: NodeScope { reader_forked: false },
                next_chan: (c.next_chan + 1) as u64,
                ..c
            },
            seq![ContentActionView::PingAndAwait { reply: c.next_chan }],
        )
    } else {
        (c, Seq::empty())
    }
}

/// Join layout, ship the document, and mark the snapshot out. The build is
/// not awaited: the handshake only guarantees layout is not behind when the
/// next mutation begins.
pub open spec fn relayout_model(c: ContentView, document: Document, url: UrlView) -> (
    ContentView,
    Seq<ContentActionView>,
) {
    let (joined, actions) = join_layout_model(c);
    (
        ContentView { scope: NodeScope { reader_forked: true }, ..joined },
        actions.push(
            ContentActionView::SendBuild {
                root: document.root,
                css_rules: document.css_rules,
                url,
                event_chan: c.event_chan,
            },
        ),
    )
}

impl Content {
    /// The document and its URL are recorded together.
    pub open spec fn wf(&self) -> bool {
        self@.document is Some <==> self@.doc_url is Some
    }

    /// A fresh content stage that has parsed nothing yet.
    pub fn new(control_chan: u64, event_chan: u64) -> (content: Content)
        ensures
            content.wf(),
            content@ == (ContentView {
                scope: NodeScope { reader_forked: false },
                document: None,
                doc_url: None,
                window_chan: None,
                control_chan,
                event_chan,
                next_chan: 0,
            }),
    {
        Content {
            scope: NodeScope::new(),
            document: None,
            doc_url: None,
            window_chan: None,
            control_chan,
            event_chan,
            next_chan: 0,
        }
    }

    /// Ping layout and wait for the pong when a snapshot is out, then clear
    /// the reader-forked bit. The sole mechanism that ensures layout has
    /// drained previous work before content mutates.
    pub fn join_layout(&mut self) -> (actions: Vec<ContentAction>)
        requires
            old(self).wf(),
            old(self).next_chan < u64::MAX,
        ensures
            final(self).wf(),
            !final(self).scope.reader_forked,
            final(self)@ == join_layout_model(old(self)@).0,
            actions.deep_view() == join_layout_model(old(self)@).1,
    {
        if self.scope.is_reader_forked() {
            let reply = self.next_chan;
            self.next_chan = self.next_chan + 1;
            self.scope.reader_joined();
            let mut actions: Vec<ContentAction> = Vec::new();
            actions.push(ContentAction::PingAndAwait { reply });
            proof {
                assert(self@ =~= join_layout_model(old(self)@).0);
                assert(actions.deep_view() =~= join_layout_model(old(self)@).1);
            }
            actions
        } else {
            let actions: Vec<ContentAction> = Vec::new();
            proof {
                assert(actions.deep_view() =~= join_layout_model(old(self)@).1);
            }
            actions
        }
    }

    /// Wait for layout to drain its earlier work, send it the document and
    /// stylesheet, and mark the snapshot out.
    pub fn relayout(&mut self, document: Document, doc_url: &Url) -> (actions: Vec<ContentAction>)
        requires
            old(self).wf(),
            old(self).next_chan < u64::MAX,
        ensures
            final(self).wf(),
            final(self).scope.reader_forked,
            final(self)@ == relayout_model(old(self)@, document, doc_url@).0,
            actions.deep_view() == relayout_model(old(self)@, document, doc_url@).1,
    {
        let mut actions = self.join_layout();
        actions.push(
            ContentAction::SendBuild {
                root: document.root,
                css_rules: document.css_rules,
                url: doc_url.clone(),
                event_chan: self.event_chan,
            },
        );
        self.scope.reader_forked();
        proof {
            assert(self@ =~= relayout_model(old(self)@, document, doc_url@).0);
            assert(actions.deep_view() =~= relayout_model(old(self)@, document, doc_url@).1);
        }
        actions
    }

    /// The parser has yielded the document at `url`: a root node, the
    /// stylesheet pulled to completion, and the script bodies it streamed.
    /// The document and its window become current, layout gets the tree,
    /// and every script is evaluated in order.
    pub fn handle_parse_result(
        &mut self,
        url: Url,
        root: u64,
        css_rules: u64,
        js_scripts: &Vec<u64>,
    ) -> (actions: Vec<ContentAction>)
        requires
            old(self).wf(),
            old(self).next_chan < u64::MAX,
        ensures
            final(self).wf(),
            final(self).scope.reader_forked,
            final(self)@ == parse_result_model(old(self)@, url@, root, css_rules, js_scripts@).0,
            actions.deep_view() == parse_result_model(old(self)@, url@, root, css_rules, js_scripts@).1,
    {
        let document = Document { root, css_rules };
        let mut actions = self.relayout(document, &url);
        self.document = Some(document);
        self.doc_url = Some(url);
        self.window_chan = Some(self.control_chan);
        actions.push(ContentAction::InstallBindings);
        let ghost before_evals = actions.deep_view();
        let n = js_scripts.len();
        let mut i: usize = 0;
        while i < n
            invariant
                n == js_scripts@.len(),
                i <= n,
                actions.deep_view().len() == before_evals.len() + i,
                actions.deep_view() =~= before_evals + eval_actions(js_scripts@.subrange(0, i as int)),
            decreases n - i,
        {
            let ghost prev = actions.deep_view();
            let ghost evaled = ContentActionView::EvalScript(js_scripts@[i as int]);
            actions.push(ContentAction::EvalScript(js_scripts[i]));
            proof {
                assert(actions.deep_view() =~= prev.push(evaled));
                assert(eval_actions(js_scripts@.subrange(0, i as int)).push(evaled)
                    =~= eval_actions(js_scripts@.subrange(0, i as int + 1)));
                assert((before_evals + eval_actions(js_scripts@.subrange(0, i as int))).push(evaled)
                    =~= before_evals + eval_actions(js_scripts@.subrange(0, i as int)).push(evaled));
                assert(actions.deep_view() =~= before_evals + eval_actions(
                    js_scripts@.subrange(0, i as int + 1),
                ));
            }
            i = i + 1;
        }
        proof {
            assert(js_scripts@.subrange(0, n as int) =~= js_scripts@);
            let expected = parse_result_model(old(self)@, url@, root, css_rules, js_scripts@);
            assert(self@ =~= expected.0);
            assert(actions.deep_view() =~= expected.1);
        }
        actions
    }

    /// Dispatch one control message; the boolean says whether the loop goes
    /// on. A `Timer` arrives only after its window's document was parsed, so
    /// a document is current.
    pub fn handle_control_msg(&mut self, msg: ControlMsg) -> (r: (bool, Vec<ContentAction>))
        requires
            old(self).wf(),
            old(self).next_chan < u64::MAX,
            msg@ is Timer ==> old(self)@.document is Some,
        ensures
            final(self).wf(),
            final(self)@ == control_msg_model(old(self)@, msg@).0,
            r.1.deep_view() == control_msg_model(old(self)@, msg@).1,
            r.0 == control_msg_model(old(self)@, msg@).2,
    {
        match msg {
            ControlMsg::ParseMsg(url) => {
                let mut actions: Vec<ContentAction> = Vec::new();
                actions.push(ContentAction::Parse(url));
                proof {
                    assert(actions.deep_view() =~= control_msg_model(old(self)@, msg@).1);
                }
                (true, actions)
            },
            ControlMsg::ExecuteMsg(url) => {
                let mut actions: Vec<ContentAction> = Vec::new();
                actions.push(ContentAction::ReadAndEvalFile(url));
                proof {
                    assert(actions.deep_view() =~= control_msg_model(old(self)@, msg@).1);
                }
                (true, actions)
            },
            ControlMsg::Timer(data) => {
                let this_value = if data.args.len() > 0 {
                    Some(data.args[0])
                } else {
                    None
                };
                let document = match self.document {
                    Some(document) => document,
                    None => vstd::pervasive::unreached(),
                };
                let url = match &self.doc_url {
                    Some(url) => url.clone(),
                    None => vstd::pervasive::unreached(),
                };
                let mut actions: Vec<ContentAction> = Vec::new();
                actions.push(ContentAction::CallTimerCallback { funval: data.funval, this_value });
                let mut relayout_actions = self.relayout(document, &url);
                actions.append(&mut relayout_actions);
                proof {
                    assert(actions.deep_view() =~= control_msg_model(old(self)@, msg@).1);
                    assert(self@ =~= control_msg_model(old(self)@, msg@).0);
                }
                (true, actions)
            },
            ControlMsg::ExitMsg => {
                let mut actions: Vec<ContentAction> = Vec::new();
                actions.push(ContentAction::SendLayoutExit);
                proof {
                    assert(actions.deep_view() =~= control_msg_model(old(self)@, msg@).1);
                }
                (false, actions)
            },
        }
    }

    /// Dispatch one compositor event: with a current document both a resize
    /// and a reflow request a new layout run; without one there is nothing
    /// to lay out.
    pub fn handle_event(&mut self, event: Event) -> (r: (bool, Vec<ContentAction>))
        requires
            old(self).wf(),
            old(self).next_chan < u64::MAX,
        ensures
            final(self).wf(),
            final(self)@ == event_model(old(self)@, event).0,
            r.1.deep_view() == event_model(old(self)@, event).1,
            r.0 == event_model(old(self)@, event).2,
    {
        let _ = event;
        match self.document {
            Some(document) => {
                let url = match &self.doc_url {
                    Some(url) => url.clone(),
                    None => vstd::pervasive::unreached(),
                };
                let actions = self.relayout(document, &url);
                (true, actions)
            },
            None => {
                let actions: Vec<ContentAction> = Vec::new();
                proof {
                    assert(actions.deep_view() =~= event_model(old(self)@, event).1);
                }
                (true, actions)
            },
        }
    }

    /// Dispatch one multiplexed input.
    pub fn handle_msg(&mut self, msg: SelectedMsg) -> (r: (bool, Vec<ContentAction>))
        requires
            old(self).wf(),
            old(self).next_chan < u64::MAX,
            msg@ matches SelectedMsgView::FromControl(control) ==> (control is Timer ==> old(
                self,
            )@.document is Some),
        ensures
            final(self).wf(),
            final(self)@ == msg_model(old(self)@, msg@).0,
            r.1.deep_view() == msg_model(old(self)@, msg@).1,
            r.0 == msg_model(old(self)@, msg@).2,
    {
        match msg {
            SelectedMsg::FromControl(control) => self.handle_control_msg(control),
            SelectedMsg::FromEvent(event) => self.handle_event(event),
        }
    }

    /// Run layout afresh, wait at the barrier so its answer reflects the
    /// tree just sent, and ask the query.
    pub fn query_layout(&mut self, query: u64) -> (actions: Vec<ContentAction>)
        requires
            old(self).wf(),
            old(self).next_chan < u64::MAX - 3,
            old(self)@.document is Some,
        ensures
            final(self).wf(),
            final(self)@ == query_layout_model(old(self)@, query).0,
            actions.deep_view() == query_layout_model(old(self)@, query).1,
    {
        let document = match self.document {
            Some(document) => document,
            None => vstd::pervasive::unreached(),
        };
        let url = match &self.doc_url {
            Some(url) => url.clone(),
            None => vstd::pervasive::unreached(),
        };
        let mut actions = self.relayout(document, &url);
        let mut join_actions = self.join_layout();
        actions.append(&mut join_actions);
        let reply = self.next_chan;
        self.next_chan = self.next_chan + 1;
        actions.push(ContentAction::SendQuery { query, reply });
        proof {
            assert(self@ =~= query_layout_model(old(self)@, query).0);
            assert(actions.deep_view() =~= query_layout_model(old(self)@, query).1);
        }
        actions
    }
}

/// The reader-forked bit always stands for a build layout has not yet
/// acknowledged: `relayout` is the sole operation that sets the bit, and it
/// has just shipped a `BuildMsg`; `join_layout` sends its barrier ping
/// exactly when the bit is set, so every ping has a build to wait for.
pub proof fn lemma_forked_means_unacked_build(c: ContentView, document: Document, url: UrlView)
    ensures
        ({
            let (after, actions) = relayout_model(c, document, url);
            &&& after.scope.reader_forked
            &&& actions.len() > 0
            &&& actions.last() == (ContentActionView::SendBuild {
                root: document.root,
                css_rules: document.css_rules,
                url,
                event_chan: c.event_chan,
            })
        }),
        ({
            let (after, actions) = join_layout_model(c);
            &&& !after.scope.reader_forked
            &&& actions.len() == (if c.scope.reader_forked {
                1int
            } else {
                0int
            })
            &&& (c.scope.reader_forked ==> actions[0] == (ContentActionView::PingAndAwait {
                reply: c.next_chan,
            }))
        }),
{
}

/// One `EvalScript` per script body, in the order the parser streamed them.
pub open spec fn eval_actions(scripts: Seq<u64>) -> Seq<ContentActionView> {
    Seq::new(scripts.len(), |i: int| ContentActionView::EvalScript(scripts[i]))
}

/// What completing a parse does: the document, its URL and its window become
/// current, layout gets the tree, the bindings are installed, and every
/// script body is evaluated in order.
pub open spec fn parse_result_model(
    c: ContentView,
    url: UrlView,
    root: u64,
    css_rules: u64,
    scripts: Seq<u64>,
) -> (ContentView, Seq<ContentActionView>) {
    let document = Document { root, css_rules };
    let (relaid, actions) = relayout_model(c, document, url);
    (
        ContentView {
            document: Some(document),
            doc_url: Some(url),
            window_chan: Some(c.control_chan),
            ..relaid
        },
        actions.push(ContentActionView::InstallBindings) + eval_actions(scripts),
    )
}

/// What one control message does; the boolean says whether the loop goes on.
pub open spec fn control_msg_model(c: ContentView, msg: ControlMsgView) -> (
    ContentView,
    Seq<ContentActionView>,
    bool,
) {
    match msg {
        ControlMsgView::ParseMsg(url) => (c, seq![ContentActionView::Parse(url)], true),
        ControlMsgView::ExecuteMsg(url) => (c, seq![ContentActionView::ReadAndEvalFile(url)], true),
        ControlMsgView::Timer(data) => {
            let this_value = if data.args.len() > 0 {
                Some(data.args[0])
            } else {
                None
            };
            let (relaid, actions) = relayout_model(c, c.document->Some_0, c.doc_url->Some_0);
            (
                relaid,
                seq![
                    ContentActionView::CallTimerCallback { funval: data.funval, this_value },
                ] + actions,
                true,
            )
        },
        ControlMsgView::ExitMsg => (c, seq![ContentActionView::SendLayoutExit], false),
    }
}

/// What one compositor event does.
pub open spec fn event_model(c: ContentView, event: Event) -> (
    ContentView,
    Seq<ContentActionView>,
    bool,
) {
    if c.document is Some {
        let (relaid, actions) = relayout_model(c, c.document->Some_0, c.doc_url->Some_0);
        (relaid, actions, true)
    } else {
        (c, Seq::empty(), true)
    }
}

/// What one multiplexed input does.
pub open spec fn msg_model(c: ContentView, msg: SelectedMsgView) -> (
    ContentView,
    Seq<ContentActionView>,
    bool,
) {
    match msg {
        SelectedMsgView::FromControl(control) => control_msg_model(c, control),
        SelectedMsgView::FromEvent(event) => event_model(c, event),
    }
}

/// What a synchronous layout query does: relayout, barrier, then the query
/// on a fresh reply channel.
pub open spec fn query_layout_model(c: ContentView, query: u64) -> (
    ContentView,
    Seq<ContentActionView>,
) {
    let (relaid, build_actions) = relayout_model(c, c.document->Some_0, c.doc_url->Some_0);
    let (joined, join_actions) = join_layout_model(relaid);
    (
        ContentView { next_chan: (joined.next_chan + 1) as u64, ..joined },
        build_actions + join_actions + seq![
            ContentActionView::SendQuery { query, reply: joined.next_chan },
        ],
    )
}

} // verus!
