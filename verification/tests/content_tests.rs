//! The content stage driven directly: the reader/writer handshake with
//! layout, the control loop, and the timer bridge.

use servo::content::{
    alert_line, node_type_code, Content, ContentAction, ControlMsg, Event, NodeKind, SelectedMsg,
    TimerData,
};
use servo::url::Url;

const CONTROL_CHAN: u64 = 100;
const EVENT_CHAN: u64 = 101;

fn page_url() -> Url {
    Url::new("file".to_string(), "index.html".to_string())
}

fn fresh_content() -> Content {
    Content::new(CONTROL_CHAN, EVENT_CHAN)
}

fn builds_in(actions: &[ContentAction]) -> Vec<usize> {
    actions
        .iter()
        .enumerate()
        .filter_map(|(i, a)| match a {
            ContentAction::SendBuild { .. } => Some(i),
            _ => None,
        })
        .collect()
}

fn pings_in(actions: &[ContentAction]) -> Vec<usize> {
    actions
        .iter()
        .enumerate()
        .filter_map(|(i, a)| match a {
            ContentAction::PingAndAwait { .. } => Some(i),
            _ => None,
        })
        .collect()
}

#[test]
fn relayout_sets_the_reader_forked_bit() {
    let mut content = fresh_content();
    assert!(!content.scope.is_reader_forked());
    let url = page_url();
    let actions = content.handle_parse_result(url, 1, 2, &vec![]);
    assert!(content.scope.is_reader_forked());
    // the first build needs no barrier: nothing was forked before
    assert_eq!(pings_in(&actions).len(), 0);
    assert_eq!(builds_in(&actions).len(), 1);
}

#[test]
fn join_layout_clears_the_reader_forked_bit() {
    let mut content = fresh_content();
    content.handle_parse_result(page_url(), 1, 2, &vec![]);
    assert!(content.scope.is_reader_forked());
    let actions = content.join_layout();
    assert!(!content.scope.is_reader_forked());
    assert_eq!(pings_in(&actions).len(), 1);
}

#[test]
fn join_layout_without_a_snapshot_needs_no_barrier() {
    let mut content = fresh_content();
    let actions = content.join_layout();
    assert!(actions.is_empty());
    assert!(!content.scope.is_reader_forked());
}

#[test]
fn second_build_is_preceded_by_a_ping_pong_round_trip() {
    let mut content = fresh_content();
    let first = content.handle_parse_result(page_url(), 1, 2, &vec![]);
    assert_eq!(pings_in(&first).len(), 0);

    // a second document arrives back to back: layout still holds the first
    // snapshot, so the barrier must come before the second build
    let second = content.handle_parse_result(page_url(), 3, 4, &vec![]);
    let pings = pings_in(&second);
    let builds = builds_in(&second);
    assert_eq!(pings.len(), 1);
    assert_eq!(builds.len(), 1);
    assert!(pings[0] < builds[0]);
}

#[test]
fn parse_result_evaluates_every_script_in_order() {
    let mut content = fresh_content();
    let actions = content.handle_parse_result(page_url(), 1, 2, &vec![31, 32, 33]);
    let evals: Vec<u64> = actions
        .iter()
        .filter_map(|a| match a {
            ContentAction::EvalScript(s) => Some(*s),
            _ => None,
        })
        .collect();
    assert_eq!(evals, vec![31, 32, 33]);
    // bindings are installed after the build and before the scripts run
    let bindings_at = actions
        .iter()
        .position(|a| matches!(a, ContentAction::InstallBindings))
        .unwrap();
    let first_eval = actions
        .iter()
        .position(|a| matches!(a, ContentAction::EvalScript(_)))
        .unwrap();
    assert!(builds_in(&actions)[0] < bindings_at);
    assert!(bindings_at < first_eval);
}

#[test]
fn parse_msg_runs_the_parser_and_keeps_the_loop_going() {
    let mut content = fresh_content();
    let (go_on, actions) = content.handle_control_msg(ControlMsg::ParseMsg(page_url()));
    assert!(go_on);
    assert_eq!(actions.len(), 1);
    assert!(matches!(&actions[0], ContentAction::Parse(url) if url.eq_url(&page_url())));
}

#[test]
fn execute_msg_reads_and_evaluates_the_file() {
    let mut content = fresh_content();
    let url = Url::new("file".to_string(), "script.js".to_string());
    let (go_on, actions) = content.handle_control_msg(ControlMsg::ExecuteMsg(url.clone()));
    assert!(go_on);
    assert_eq!(actions.len(), 1);
    assert!(matches!(&actions[0], ContentAction::ReadAndEvalFile(u) if u.eq_url(&url)));
}

#[test]
fn exit_msg_forwards_the_shutdown_to_layout_and_stops() {
    let mut content = fresh_content();
    let (go_on, actions) = content.handle_control_msg(ControlMsg::ExitMsg);
    assert!(!go_on);
    assert_eq!(actions.len(), 1);
    assert!(matches!(actions[0], ContentAction::SendLayoutExit));
}

#[test]
fn timer_invokes_the_callback_and_requests_a_relayout() {
    let mut content = fresh_content();
    content.handle_parse_result(page_url(), 1, 2, &vec![]);

    let data = TimerData { funval: 50, args: vec![60, 61] };
    let (go_on, actions) = content.handle_control_msg(ControlMsg::Timer(data));
    assert!(go_on);
    // the first captured argument becomes the `this` value
    assert!(matches!(
        actions[0],
        ContentAction::CallTimerCallback { funval: 50, this_value: Some(60) }
    ));
    // the callback may have touched the DOM: layout runs again
    assert_eq!(builds_in(&actions).len(), 1);
    assert!(content.scope.is_reader_forked());

    let data = TimerData { funval: 51, args: vec![] };
    let (_, actions) = content.handle_control_msg(ControlMsg::Timer(data));
    // without arguments the callback is invoked on the global object
    assert!(matches!(
        actions[0],
        ContentAction::CallTimerCallback { funval: 51, this_value: None }
    ));
}

#[test]
fn events_relayout_only_with_a_document() {
    let mut content = fresh_content();
    let (go_on, actions) = content.handle_event(Event::ResizeEvent(800, 600));
    assert!(go_on);
    assert!(actions.is_empty());

    content.handle_parse_result(page_url(), 1, 2, &vec![]);
    let (go_on, actions) = content.handle_event(Event::ResizeEvent(800, 600));
    assert!(go_on);
    assert_eq!(builds_in(&actions).len(), 1);
    let (go_on, actions) = content.handle_event(Event::ReflowEvent);
    assert!(go_on);
    assert_eq!(builds_in(&actions).len(), 1);
}

#[test]
fn handle_msg_multiplexes_both_channels() {
    let mut content = fresh_content();
    let (go_on, _) = content.handle_msg(SelectedMsg::FromControl(ControlMsg::ParseMsg(page_url())));
    assert!(go_on);
    let (go_on, _) = content.handle_msg(SelectedMsg::FromEvent(Event::ReflowEvent));
    assert!(go_on);
    let (go_on, _) = content.handle_msg(SelectedMsg::FromControl(ControlMsg::ExitMsg));
    assert!(!go_on);
}

#[test]
fn query_layout_relays_out_joins_and_asks() {
    let mut content = fresh_content();
    content.handle_parse_result(page_url(), 1, 2, &vec![]);
    let actions = content.query_layout(77);
    // the snapshot from the parse is still out: barrier, build, barrier, query
    let pings = pings_in(&actions);
    let builds = builds_in(&actions);
    let query_at = actions
        .iter()
        .position(|a| matches!(a, ContentAction::SendQuery { query: 77, .. }))
        .unwrap();
    assert_eq!(builds.len(), 1);
    assert_eq!(pings.len(), 2);
    assert!(pings[0] < builds[0]);
    assert!(builds[0] < pings[1]);
    assert!(pings[1] < query_at);
    // after the query the bit is clear until the next relayout
    assert!(!content.scope.is_reader_forked());
}

#[test]
fn timer_data_captures_everything_after_the_delay() {
    let argv = vec![7, 250, 90, 91];
    let data = TimerData::from_call_args(&argv);
    assert_eq!(data.funval, 7);
    assert_eq!(data.args, vec![90, 91]);

    let argv = vec![8, 0];
    let data = TimerData::from_call_args(&argv);
    assert_eq!(data.funval, 8);
    assert!(data.args.is_empty());
}

#[test]
fn alert_prefixes_its_message() {
    assert_eq!(alert_line("hi"), "ALERT: hi");
    assert_eq!(alert_line(""), "ALERT: ");
}

#[test]
fn node_type_codes_match_the_dom_constants() {
    assert_eq!(node_type_code(NodeKind::Element), 1);
    assert_eq!(node_type_code(NodeKind::Text), 3);
    assert_eq!(node_type_code(NodeKind::Comment), 8);
    assert_eq!(node_type_code(NodeKind::Doctype), 10);
}
