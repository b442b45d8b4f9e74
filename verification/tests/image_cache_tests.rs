//! The image cache driven one message at a time, with the test playing the
//! resource stage and the decode helpers: it answers each `LoadFromResource`
//! action by streaming progress messages through `load_image_data` and
//! posting the bytes back, and each `SpawnDecode` action by posting a
//! decoded image or a failure back.

use servo::image::{test_image_bin, Image};
use servo::image_cache::{
    load_image_data, sync_route, Action, CacheError, ImageCache, ImageResponseMsg, Msg,
};
use servo::resource::ProgressMsg;
use servo::url::Url;
use std::sync::Arc;

fn file_url() -> Url {
    Url::new("file".to_string(), String::new())
}

fn decoded_image() -> Arc<Image> {
    Arc::new(Image { width: 1, height: 1, depth: 4, data: vec![0, 0, 0, 255] })
}

fn ok(cache: &mut ImageCache, msg: Msg) -> Vec<Action> {
    cache.handle_msg(msg).unwrap()
}

fn count_loads_for(actions: &[Action], url: &Url) -> usize {
    actions
        .iter()
        .filter(|a| match a {
            Action::LoadFromResource(u) => u.eq_url(url),
            _ => false,
        })
        .count()
}

fn count_spawns_for(actions: &[Action], url: &Url) -> usize {
    actions
        .iter()
        .filter(|a| match a {
            Action::SpawnDecode(u, _) => u.eq_url(url),
            _ => false,
        })
        .count()
}

fn responses_in(actions: &[Action]) -> Vec<(u64, ImageResponseMsg)> {
    actions
        .iter()
        .filter_map(|a| match a {
            Action::Respond(chan, reply) => Some((*chan, reply.clone())),
            _ => None,
        })
        .collect()
}

fn has_ack(actions: &[Action], reply: u64) -> bool {
    actions.iter().any(|a| matches!(a, Action::AckExit(r) if *r == reply))
}

/// Stream the given progress messages as the prefetch helper would and post
/// the outcome back to the cache.
fn deliver_fetch(cache: &mut ImageCache, url: &Url, progress: Vec<ProgressMsg>) -> Vec<Action> {
    let data = load_image_data(&progress);
    ok(cache, Msg::StorePrefetchedImageData(url.clone(), data))
}

#[test]
fn should_exit_on_request() {
    let mut image_cache = ImageCache::new();
    let _url = file_url();

    let actions = ok(&mut image_cache, Msg::Exit(0));
    assert!(has_ack(&actions, 0));
}

#[test]
fn should_fail_if_unprefetched_image_is_requested() {
    let mut image_cache = ImageCache::new();
    let url = file_url();

    let result = image_cache.handle_msg(Msg::GetImage(url, 1));
    assert!(matches!(result, Err(CacheError::RequestBeforePrefetch)));
}

#[test]
fn should_request_url_from_resource_task_on_prefetch() {
    let mut image_cache = ImageCache::new();
    let url = file_url();

    let actions = ok(&mut image_cache, Msg::Prefetch(url.clone()));
    assert_eq!(count_loads_for(&actions, &url), 1);

    deliver_fetch(&mut image_cache, &url, vec![ProgressMsg::Done(Ok(()))]);
    let actions = ok(&mut image_cache, Msg::Exit(0));
    assert!(has_ack(&actions, 0));
}

#[test]
fn should_fail_if_requesting_decode_of_an_unprefetched_image() {
    let mut image_cache = ImageCache::new();
    let url = file_url();

    let result = image_cache.handle_msg(Msg::Decode(url));
    assert!(matches!(result, Err(CacheError::DecodeBeforePrefetch)));
}

#[test]
fn should_fail_if_requesting_image_before_requesting_decode() {
    let mut image_cache = ImageCache::new();
    let url = file_url();

    ok(&mut image_cache, Msg::Prefetch(url.clone()));
    deliver_fetch(&mut image_cache, &url, vec![ProgressMsg::Done(Ok(()))]);
    // no decode message

    let result = image_cache.handle_msg(Msg::GetImage(url, 1));
    assert!(matches!(result, Err(CacheError::RequestBeforeDecode)));
}

#[test]
fn should_not_request_url_from_resource_task_on_multiple_prefetches() {
    let mut image_cache = ImageCache::new();
    let url = file_url();

    let mut loads = 0;
    let actions = ok(&mut image_cache, Msg::Prefetch(url.clone()));
    loads += count_loads_for(&actions, &url);
    let actions = ok(&mut image_cache, Msg::Prefetch(url.clone()));
    loads += count_loads_for(&actions, &url);
    assert_eq!(loads, 1);

    deliver_fetch(&mut image_cache, &url, vec![ProgressMsg::Done(Ok(()))]);
    let actions = ok(&mut image_cache, Msg::Exit(0));
    assert!(has_ack(&actions, 0));
}

#[test]
fn should_return_image_not_ready_if_data_has_not_arrived() {
    let mut image_cache = ImageCache::new();
    let url = file_url();

    ok(&mut image_cache, Msg::Prefetch(url.clone()));
    ok(&mut image_cache, Msg::Decode(url.clone()));
    // the resource stage has not delivered the data yet
    let actions = ok(&mut image_cache, Msg::GetImage(url.clone(), 1));
    let responses = responses_in(&actions);
    assert_eq!(responses.len(), 1);
    assert!(matches!(responses[0], (1, ImageResponseMsg::ImageNotReady)));

    // now the data arrives and the queued decode runs
    deliver_fetch(
        &mut image_cache,
        &url,
        vec![ProgressMsg::Payload(test_image_bin()), ProgressMsg::Done(Ok(()))],
    );
    ok(&mut image_cache, Msg::StoreImage(url.clone(), Some(decoded_image())));
    let actions = ok(&mut image_cache, Msg::Exit(0));
    assert!(has_ack(&actions, 0));
}

#[test]
fn should_return_decoded_image_data_if_data_has_arrived() {
    let mut image_cache = ImageCache::new();
    let url = file_url();

    ok(&mut image_cache, Msg::OnMsg(7));
    ok(&mut image_cache, Msg::Prefetch(url.clone()));
    ok(&mut image_cache, Msg::Decode(url.clone()));

    let actions = deliver_fetch(
        &mut image_cache,
        &url,
        vec![ProgressMsg::Payload(test_image_bin()), ProgressMsg::Done(Ok(()))],
    );
    // the queued decode starts on exactly the fetched bytes
    let spawned = actions.iter().find_map(|a| match a {
        Action::SpawnDecode(u, bytes) if u.eq_url(&url) => Some(bytes.clone()),
        _ => None,
    });
    assert_eq!(spawned, Some(test_image_bin()));

    // the registered hook sees the decoder's message arrive
    let actions = ok(&mut image_cache, Msg::StoreImage(url.clone(), Some(decoded_image())));
    assert!(actions.iter().any(|a| matches!(a, Action::Tap(7, Msg::StoreImage(_, _)))));

    let actions = ok(&mut image_cache, Msg::GetImage(url, 1));
    let responses = responses_in(&actions);
    assert_eq!(responses.len(), 1);
    assert!(matches!(responses[0], (1, ImageResponseMsg::ImageReady(_))));

    let actions = ok(&mut image_cache, Msg::Exit(0));
    assert!(has_ack(&actions, 0));
}

#[test]
fn should_return_decoded_image_data_for_multiple_requests() {
    let mut image_cache = ImageCache::new();
    let url = file_url();

    ok(&mut image_cache, Msg::Prefetch(url.clone()));
    ok(&mut image_cache, Msg::Decode(url.clone()));
    deliver_fetch(
        &mut image_cache,
        &url,
        vec![ProgressMsg::Payload(test_image_bin()), ProgressMsg::Done(Ok(()))],
    );
    ok(&mut image_cache, Msg::StoreImage(url.clone(), Some(decoded_image())));

    for chan in [1u64, 2u64] {
        let actions = ok(&mut image_cache, Msg::GetImage(url.clone(), chan));
        let responses = responses_in(&actions);
        assert_eq!(responses.len(), 1);
        assert_eq!(responses[0].0, chan);
        assert!(matches!(responses[0].1, ImageResponseMsg::ImageReady(_)));
    }

    let actions = ok(&mut image_cache, Msg::Exit(0));
    assert!(has_ack(&actions, 0));
}

#[test]
fn should_not_request_image_from_resource_task_if_image_is_already_available() {
    let mut image_cache = ImageCache::new();
    let url = file_url();

    ok(&mut image_cache, Msg::Prefetch(url.clone()));
    deliver_fetch(
        &mut image_cache,
        &url,
        vec![ProgressMsg::Payload(test_image_bin()), ProgressMsg::Done(Ok(()))],
    );

    // the image binary is already cached: no second request
    let actions = ok(&mut image_cache, Msg::Prefetch(url.clone()));
    assert_eq!(count_loads_for(&actions, &url), 0);

    let actions = ok(&mut image_cache, Msg::Exit(0));
    assert!(has_ack(&actions, 0));
}

#[test]
fn should_not_request_image_from_resource_task_if_image_fetch_already_failed() {
    let mut image_cache = ImageCache::new();
    let url = file_url();

    ok(&mut image_cache, Msg::Prefetch(url.clone()));
    ok(&mut image_cache, Msg::Decode(url.clone()));
    deliver_fetch(
        &mut image_cache,
        &url,
        vec![ProgressMsg::Payload(test_image_bin()), ProgressMsg::Done(Err(()))],
    );

    // the fetch failed: another prefetch and decode request nothing new
    let actions = ok(&mut image_cache, Msg::Prefetch(url.clone()));
    assert_eq!(count_loads_for(&actions, &url), 0);
    let actions = ok(&mut image_cache, Msg::Decode(url.clone()));
    assert_eq!(count_spawns_for(&actions, &url), 0);

    let actions = ok(&mut image_cache, Msg::Exit(0));
    assert!(has_ack(&actions, 0));
}

#[test]
fn should_return_failed_if_image_bin_cannot_be_fetched() {
    let mut image_cache = ImageCache::new();
    let url = file_url();

    ok(&mut image_cache, Msg::Prefetch(url.clone()));
    ok(&mut image_cache, Msg::Decode(url.clone()));
    deliver_fetch(
        &mut image_cache,
        &url,
        vec![ProgressMsg::Payload(test_image_bin()), ProgressMsg::Done(Err(()))],
    );

    let actions = ok(&mut image_cache, Msg::GetImage(url, 1));
    let responses = responses_in(&actions);
    assert_eq!(responses.len(), 1);
    assert!(matches!(responses[0], (1, ImageResponseMsg::ImageFailed)));

    let actions = ok(&mut image_cache, Msg::Exit(0));
    assert!(has_ack(&actions, 0));
}

#[test]
fn should_return_failed_for_multiple_get_image_requests_if_image_bin_cannot_be_fetched() {
    let mut image_cache = ImageCache::new();
    let url = file_url();

    ok(&mut image_cache, Msg::Prefetch(url.clone()));
    ok(&mut image_cache, Msg::Decode(url.clone()));
    deliver_fetch(
        &mut image_cache,
        &url,
        vec![ProgressMsg::Payload(test_image_bin()), ProgressMsg::Done(Err(()))],
    );

    let actions = ok(&mut image_cache, Msg::GetImage(url.clone(), 1));
    let responses = responses_in(&actions);
    assert!(matches!(responses[0], (1, ImageResponseMsg::ImageFailed)));

    // and ask again, we should get the same response
    let actions = ok(&mut image_cache, Msg::GetImage(url, 2));
    let responses = responses_in(&actions);
    assert!(matches!(responses[0], (2, ImageResponseMsg::ImageFailed)));

    let actions = ok(&mut image_cache, Msg::Exit(0));
    assert!(has_ack(&actions, 0));
}

#[test]
fn should_return_not_ready_if_image_is_still_decoding() {
    let mut image_cache = ImageCache::new();
    let url = file_url();

    ok(&mut image_cache, Msg::Prefetch(url.clone()));
    ok(&mut image_cache, Msg::Decode(url.clone()));
    let actions = deliver_fetch(
        &mut image_cache,
        &url,
        vec![ProgressMsg::Payload(test_image_bin()), ProgressMsg::Done(Ok(()))],
    );
    assert_eq!(count_spawns_for(&actions, &url), 1);

    // the decoder has not answered yet
    let actions = ok(&mut image_cache, Msg::GetImage(url.clone(), 1));
    let responses = responses_in(&actions);
    assert_eq!(responses.len(), 1);
    assert!(matches!(responses[0], (1, ImageResponseMsg::ImageNotReady)));

    // now decode
    ok(&mut image_cache, Msg::StoreImage(url, Some(decoded_image())));
    let actions = ok(&mut image_cache, Msg::Exit(0));
    assert!(has_ack(&actions, 0));
}

#[test]
fn should_return_failed_if_image_decode_fails() {
    let mut image_cache = ImageCache::new();
    let url = file_url();

    ok(&mut image_cache, Msg::Prefetch(url.clone()));
    ok(&mut image_cache, Msg::Decode(url.clone()));
    // bogus data
    deliver_fetch(
        &mut image_cache,
        &url,
        vec![ProgressMsg::Payload(vec![]), ProgressMsg::Done(Ok(()))],
    );
    // the decoder returns no image
    ok(&mut image_cache, Msg::StoreImage(url.clone(), None));

    let actions = ok(&mut image_cache, Msg::GetImage(url.clone(), 1));
    let responses = responses_in(&actions);
    assert_eq!(responses.len(), 1);
    assert!(matches!(responses[0], (1, ImageResponseMsg::ImageFailed)));

    // the failure is terminal: asking again gives the same answer
    let actions = ok(&mut image_cache, Msg::GetImage(url, 2));
    let responses = responses_in(&actions);
    assert!(matches!(responses[0], (2, ImageResponseMsg::ImageFailed)));

    let actions = ok(&mut image_cache, Msg::Exit(0));
    assert!(has_ack(&actions, 0));
}

#[test]
fn should_return_image_on_wait_if_image_is_already_loaded() {
    let mut image_cache = ImageCache::new();
    let url = file_url();

    ok(&mut image_cache, Msg::Prefetch(url.clone()));
    ok(&mut image_cache, Msg::Decode(url.clone()));
    deliver_fetch(
        &mut image_cache,
        &url,
        vec![ProgressMsg::Payload(test_image_bin()), ProgressMsg::Done(Ok(()))],
    );
    ok(&mut image_cache, Msg::StoreImage(url.clone(), Some(decoded_image())));

    let actions = ok(&mut image_cache, Msg::WaitForImage(url, 1));
    let responses = responses_in(&actions);
    assert_eq!(responses.len(), 1);
    assert!(matches!(responses[0], (1, ImageResponseMsg::ImageReady(_))));

    let actions = ok(&mut image_cache, Msg::Exit(0));
    assert!(has_ack(&actions, 0));
}

#[test]
fn should_return_image_on_wait_if_image_is_not_yet_loaded() {
    let mut image_cache = ImageCache::new();
    let url = file_url();

    ok(&mut image_cache, Msg::Prefetch(url.clone()));
    ok(&mut image_cache, Msg::Decode(url.clone()));

    // the data has not arrived: the waiter is enqueued, nothing answered
    let actions = ok(&mut image_cache, Msg::WaitForImage(url.clone(), 1));
    assert_eq!(responses_in(&actions).len(), 0);

    deliver_fetch(
        &mut image_cache,
        &url,
        vec![ProgressMsg::Payload(test_image_bin()), ProgressMsg::Done(Ok(()))],
    );
    let actions = ok(&mut image_cache, Msg::StoreImage(url, Some(decoded_image())));
    let responses = responses_in(&actions);
    assert_eq!(responses.len(), 1);
    assert!(matches!(responses[0], (1, ImageResponseMsg::ImageReady(_))));

    let actions = ok(&mut image_cache, Msg::Exit(0));
    assert!(has_ack(&actions, 0));
}

#[test]
fn should_return_image_failed_on_wait_if_image_fails_to_load() {
    let mut image_cache = ImageCache::new();
    let url = file_url();

    ok(&mut image_cache, Msg::Prefetch(url.clone()));
    ok(&mut image_cache, Msg::Decode(url.clone()));
    let actions = ok(&mut image_cache, Msg::WaitForImage(url.clone(), 1));
    assert_eq!(responses_in(&actions).len(), 0);

    let actions = deliver_fetch(
        &mut image_cache,
        &url,
        vec![ProgressMsg::Payload(test_image_bin()), ProgressMsg::Done(Err(()))],
    );
    let responses = responses_in(&actions);
    assert_eq!(responses.len(), 1);
    assert!(matches!(responses[0], (1, ImageResponseMsg::ImageFailed)));

    let actions = ok(&mut image_cache, Msg::Exit(0));
    assert!(has_ack(&actions, 0));
}

#[test]
fn sync_cache_should_wait_for_images() {
    // the synchronous shim forwards every message to the inner cache,
    // turning GetImage into WaitForImage
    let mut inner_cache = ImageCache::new();
    let url = file_url();

    ok(&mut inner_cache, sync_route(Msg::Prefetch(url.clone())));
    ok(&mut inner_cache, sync_route(Msg::Decode(url.clone())));
    deliver_fetch(
        &mut inner_cache,
        &url,
        vec![ProgressMsg::Payload(test_image_bin()), ProgressMsg::Done(Ok(()))],
    );
    ok(&mut inner_cache, Msg::StoreImage(url.clone(), Some(decoded_image())));

    let actions = ok(&mut inner_cache, sync_route(Msg::GetImage(url, 1)));
    let responses = responses_in(&actions);
    assert_eq!(responses.len(), 1);
    assert!(matches!(responses[0], (1, ImageResponseMsg::ImageReady(_))));

    let actions = ok(&mut inner_cache, sync_route(Msg::Exit(0)));
    assert!(has_ack(&actions, 0));
}

#[test]
fn multiple_waiters_are_notified_in_insertion_order() {
    let mut image_cache = ImageCache::new();
    let url = file_url();

    ok(&mut image_cache, Msg::Prefetch(url.clone()));
    ok(&mut image_cache, Msg::Decode(url.clone()));
    ok(&mut image_cache, Msg::WaitForImage(url.clone(), 1));
    ok(&mut image_cache, Msg::WaitForImage(url.clone(), 2));

    deliver_fetch(
        &mut image_cache,
        &url,
        vec![ProgressMsg::Payload(test_image_bin()), ProgressMsg::Done(Ok(()))],
    );
    let actions = ok(&mut image_cache, Msg::StoreImage(url, Some(decoded_image())));
    let responses = responses_in(&actions);
    assert_eq!(responses.len(), 2);
    assert_eq!(responses[0].0, 1);
    assert_eq!(responses[1].0, 2);
    // both waiters receive clones of the same shared image handle
    match (&responses[0].1, &responses[1].1) {
        (ImageResponseMsg::ImageReady(first), ImageResponseMsg::ImageReady(second)) => {
            assert!(Arc::ptr_eq(first, second));
        },
        _ => panic!("both waiters expected the image"),
    }
}

#[test]
fn exit_is_not_acknowledged_while_a_decode_is_in_flight() {
    let mut image_cache = ImageCache::new();
    let url = file_url();

    ok(&mut image_cache, Msg::Prefetch(url.clone()));
    ok(&mut image_cache, Msg::Decode(url.clone()));
    let actions = deliver_fetch(
        &mut image_cache,
        &url,
        vec![ProgressMsg::Payload(test_image_bin()), ProgressMsg::Done(Ok(()))],
    );
    assert_eq!(count_spawns_for(&actions, &url), 1);

    // the decoder is still running: the exit reply must not fire
    let actions = ok(&mut image_cache, Msg::Exit(0));
    assert!(!has_ack(&actions, 0));

    // once the decoder lands the exit is acknowledged
    let actions = ok(&mut image_cache, Msg::StoreImage(url, Some(decoded_image())));
    assert!(has_ack(&actions, 0));
}

#[test]
fn decode_starts_at_most_one_decoder() {
    let mut image_cache = ImageCache::new();
    let url = file_url();

    let mut spawns = 0;
    ok(&mut image_cache, Msg::Prefetch(url.clone()));
    deliver_fetch(
        &mut image_cache,
        &url,
        vec![ProgressMsg::Payload(test_image_bin()), ProgressMsg::Done(Ok(()))],
    );
    let actions = ok(&mut image_cache, Msg::Decode(url.clone()));
    spawns += count_spawns_for(&actions, &url);
    let actions = ok(&mut image_cache, Msg::Decode(url.clone()));
    spawns += count_spawns_for(&actions, &url);
    assert_eq!(spawns, 1);
}

#[test]
fn second_exit_while_one_is_pending_is_protocol_misuse() {
    let mut image_cache = ImageCache::new();
    let url = file_url();

    // keep the cache busy so the first exit stays pending
    ok(&mut image_cache, Msg::Prefetch(url));
    ok(&mut image_cache, Msg::Exit(0));
    let result = image_cache.handle_msg(Msg::Exit(1));
    assert!(matches!(result, Err(CacheError::ExitAlreadyPending)));
}

#[test]
fn store_image_in_wrong_state_is_protocol_misuse() {
    let mut image_cache = ImageCache::new();
    let url = file_url();

    let result = image_cache.handle_msg(Msg::StoreImage(url.clone(), Some(decoded_image())));
    assert!(matches!(result, Err(CacheError::StoreImageWrongState)));

    let result = image_cache.handle_msg(Msg::StorePrefetchedImageData(url, Ok(vec![])));
    assert!(matches!(result, Err(CacheError::StorePrefetchWrongState)));
}

#[test]
fn run_drives_a_whole_inbox_in_order() {
    let mut image_cache = ImageCache::new();
    let url = file_url();

    let progress = vec![ProgressMsg::Payload(test_image_bin()), ProgressMsg::Done(Ok(()))];
    let data = load_image_data(&progress);
    let msgs = vec![
        Msg::Prefetch(url.clone()),
        Msg::Decode(url.clone()),
        Msg::StorePrefetchedImageData(url.clone(), data),
        Msg::StoreImage(url.clone(), Some(decoded_image())),
        Msg::GetImage(url.clone(), 1),
        Msg::Exit(0),
    ];
    let (actions, error) = image_cache.run(&msgs);
    assert!(error.is_none());
    assert_eq!(count_loads_for(&actions, &url), 1);
    assert_eq!(count_spawns_for(&actions, &url), 1);
    let responses = responses_in(&actions);
    assert_eq!(responses.len(), 1);
    assert!(matches!(responses[0], (1, ImageResponseMsg::ImageReady(_))));
    assert!(has_ack(&actions, 0));
}

#[test]
fn load_image_data_concatenates_payloads_until_done() {
    let progress = vec![
        ProgressMsg::Payload(vec![1, 2]),
        ProgressMsg::Payload(vec![3]),
        ProgressMsg::Done(Ok(())),
    ];
    assert_eq!(load_image_data(&progress), Ok(vec![1, 2, 3]));

    let progress = vec![ProgressMsg::Payload(vec![1, 2]), ProgressMsg::Done(Err(()))];
    assert_eq!(load_image_data(&progress), Err(()));

    let progress = vec![ProgressMsg::Done(Ok(()))];
    assert_eq!(load_image_data(&progress), Ok(vec![]));
}
