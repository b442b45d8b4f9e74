//! The resource stage driven directly, with the test playing its clients
//! and its loaders.

use servo::resource::{ControlMsg, ProgressMsg, ResourceAction, ResourceManager};
use servo::url::Url;

const FILE_LOADER: u64 = 10;
const HTTP_LOADER: u64 = 11;

fn default_manager() -> ResourceManager {
    ResourceManager::with_default_loaders(FILE_LOADER, HTTP_LOADER)
}

#[test]
fn test_exit() {
    let resource_task = default_manager();
    let actions = resource_task.start(&vec![ControlMsg::Exit]);
    assert!(actions.is_empty());
}

#[test]
fn test_bad_scheme() {
    let resource_task = default_manager();
    let url = Url::new("bogus".to_string(), "whatever".to_string());
    let actions = resource_task.start(&vec![ControlMsg::Load(url, 1), ControlMsg::Exit]);
    assert_eq!(actions.len(), 1);
    match &actions[0] {
        ResourceAction::SendProgress { progress, msg } => {
            assert_eq!(*progress, 1);
            match msg {
                ProgressMsg::Done(result) => assert!(result.is_err()),
                _ => panic!("expected Done"),
            }
        },
        _ => panic!("no loader exists for the scheme"),
    }
}

#[test]
fn should_delegate_to_scheme_loader() {
    let payload = vec![1, 2, 3];
    const SNICKLEFRITZ_LOADER: u64 = 42;
    let loaders = vec![("snicklefritz".to_string(), SNICKLEFRITZ_LOADER)];
    let resource_task = ResourceManager::new(loaders);
    let url = Url::new("snicklefritz".to_string(), "heya".to_string());
    let actions = resource_task.start(&vec![ControlMsg::Load(url, 1), ControlMsg::Exit]);
    assert_eq!(actions.len(), 1);
    match &actions[0] {
        ResourceAction::InvokeLoader { loader, url, progress } => {
            assert_eq!(*loader, SNICKLEFRITZ_LOADER);
            assert!(url.eq_url(&Url::new("snicklefritz".to_string(), "heya".to_string())));
            assert_eq!(*progress, 1);
        },
        _ => panic!("expected the loader to be invoked"),
    }
    // the loader streams the payload and then exactly one Done
    let streamed = vec![ProgressMsg::Payload(payload.clone()), ProgressMsg::Done(Ok(()))];
    assert!(streamed[0].eq(&ProgressMsg::Payload(payload)));
    assert!(streamed[1].eq(&ProgressMsg::Done(Ok(()))));
}

#[test]
fn messages_after_exit_are_never_dispatched() {
    let resource_task = default_manager();
    let url = Url::new("file".to_string(), "later".to_string());
    let actions = resource_task.start(&vec![ControlMsg::Exit, ControlMsg::Load(url, 1)]);
    assert!(actions.is_empty());
}

#[test]
fn first_matching_scheme_wins() {
    let loaders = vec![
        ("file".to_string(), 1u64),
        ("file".to_string(), 2u64),
        ("http".to_string(), 3u64),
    ];
    let manager = ResourceManager::new(loaders);
    let url = Url::new("file".to_string(), "x".to_string());
    assert_eq!(manager.get_loader_factory(&url), Some(1));
    let url = Url::new("http".to_string(), "y".to_string());
    assert_eq!(manager.get_loader_factory(&url), Some(3));
    let url = Url::new("gopher".to_string(), "z".to_string());
    assert_eq!(manager.get_loader_factory(&url), None);
}

#[test]
fn progress_msg_eq_compares_contents() {
    let a = ProgressMsg::Payload(vec![1, 2]);
    let b = ProgressMsg::Payload(vec![1, 2]);
    let c = ProgressMsg::Payload(vec![1, 3]);
    let done_ok = ProgressMsg::Done(Ok(()));
    let done_err = ProgressMsg::Done(Err(()));
    assert!(a.eq(&b));
    assert!(a.ne(&c));
    assert!(a.ne(&done_ok));
    assert!(done_ok.eq(&ProgressMsg::Done(Ok(()))));
    assert!(done_ok.ne(&done_err));
    assert!(done_err.eq(&ProgressMsg::Done(Err(()))));
}
