use plex_api::decision::{DecisionResult, DIRECT_PLAY_NOT_CHOSEN};
use plex_api::error::Error;
use plex_api::media::ContainerFormat;
use plex_api::profile::{MusicTranscodeOptions, TranscodeOptions};
use plex_api::queue::{
    container_from_response, content_length_from_response, download_outcome, ByteBound,
    DownloadQueue, QueueAddedItem, QueueItem, QueueItemState, QueueItemStatus, QueueSpec,
};
use plex_api::request::{Method, TimeoutPolicy};

fn decision(direct_play: Option<u32>) -> DecisionResult {
    DecisionResult {
        general_decision_code: None,
        general_decision_text: None,
        direct_play_decision_code: direct_play,
        direct_play_decision_text: None,
        transcode_decision_code: None,
        transcode_decision_text: None,
    }
}

fn item_state(status: QueueItemStatus) -> QueueItemState {
    QueueItemState {
        id: 123,
        queue_id: 1,
        key: "/library/metadata/159637".to_string(),
        status,
        error: None,
        decision_result: decision(None),
        session_stats: None,
    }
}

#[test]
fn range_with_both_bounds() {
    // download(writer, 100..200) emits Range: bytes=100-199.
    let item = QueueItem { state: item_state(QueueItemStatus::Available) };
    let r = item.download_request(ByteBound::Included(100), ByteBound::Excluded(200));
    assert_eq!(r.headers, vec![("Range".to_string(), "bytes=100-199".to_string())]);
    assert_eq!(r.timeout, TimeoutPolicy::NoTimeout);
    assert_eq!(r.url(), "/downloadQueue/1/items/123/download");
}

#[test]
fn range_with_open_end() {
    // download(writer, 100..) emits Range: bytes=100-.
    let item = QueueItem { state: item_state(QueueItemStatus::Available) };
    let r = item.download_request(ByteBound::Included(100), ByteBound::Unbounded);
    assert_eq!(r.headers, vec![("Range".to_string(), "bytes=100-".to_string())]);
}

#[test]
fn full_range_emits_no_header() {
    // download(writer, ..) emits no Range header.
    let item = QueueItem { state: item_state(QueueItemStatus::Available) };
    let r = item.download_request(ByteBound::Unbounded, ByteBound::Unbounded);
    assert!(r.headers.is_empty());
}

#[test]
fn inclusive_end_and_excluded_start_are_kept_exact() {
    let item = QueueItem { state: item_state(QueueItemStatus::Available) };
    let r = item.download_request(ByteBound::Excluded(99), ByteBound::Included(199));
    assert_eq!(r.headers, vec![("Range".to_string(), "bytes=100-199".to_string())]);
}

#[test]
fn head_probe_resolves_the_container() {
    // The filename extension of Content-Disposition names the container.
    let r = container_from_response(
        200,
        Some("attachment; filename=\"x.mp4\""),
        String::new(),
    );
    assert_eq!(r.unwrap(), ContainerFormat::Mp4);
}

#[test]
fn head_probe_503_is_transcode_incomplete_not_a_decode_failure() {
    let r = container_from_response(503, None, String::new());
    assert!(matches!(r, Err(Error::TranscodeIncomplete)));
    let r = container_from_response(503, Some("attachment; filename=\"x.mp4\""), String::new());
    assert!(matches!(r, Err(Error::TranscodeIncomplete)));
    let r = content_length_from_response(503, Some("123"), String::new());
    assert!(matches!(r, Err(Error::TranscodeIncomplete)));
}

#[test]
fn unknown_extension_names_the_container_format() {
    let r = container_from_response(
        200,
        Some("attachment; filename=\"movie.weird\""),
        String::new(),
    );
    match r {
        Err(Error::UnknownContainerFormat(ext)) => assert_eq!(ext, "weird"),
        other => panic!("unexpected result: {other:?}"),
    }
}

#[test]
fn missing_disposition_is_a_header_fault() {
    let r = container_from_response(200, None, String::new());
    assert!(matches!(r, Err(Error::InvalidHeaderValue)));
    let r = container_from_response(200, Some("attachment"), String::new());
    assert!(matches!(r, Err(Error::InvalidHeaderValue)));
}

#[test]
fn other_statuses_are_protocol_errors() {
    let r = container_from_response(418, None, "teapot".to_string());
    assert!(matches!(r, Err(Error::UnexpectedApiResponse { status_code: 418, .. })));
    let r = content_length_from_response(500, None, "x".to_string());
    assert!(matches!(r, Err(Error::UnexpectedApiResponse { status_code: 500, .. })));
}

#[test]
fn content_length_parses_or_degrades() {
    assert_eq!(content_length_from_response(200, Some("12345"), String::new()).unwrap(), Some(12345));
    // Unparseable or missing lengths degrade to "unknown", not an error.
    assert_eq!(content_length_from_response(200, Some("12x45"), String::new()).unwrap(), None);
    assert_eq!(content_length_from_response(200, None, String::new()).unwrap(), None);
}

#[test]
fn queue_download_accepts_200_and_206() {
    assert!(download_outcome(200, String::new()).is_ok());
    assert!(download_outcome(206, String::new()).is_ok());
    assert!(matches!(download_outcome(503, String::new()), Err(Error::TranscodeIncomplete)));
    assert!(matches!(
        download_outcome(500, "x".to_string()),
        Err(Error::UnexpectedApiResponse { status_code: 500, .. })
    ));
}

#[test]
fn adding_twice_returns_the_same_item_id() {
    // The server answers a repeated add with the pre-existing pairing, so
    // both adds resolve to the same id.
    let response = vec![
        QueueAddedItem { key: "/library/metadata/1".to_string(), id: 77 },
        QueueAddedItem { key: "/library/metadata/159637".to_string(), id: 123 },
    ];
    let first = DownloadQueue::match_added_item(&response, "/library/metadata/159637").unwrap();
    let second = DownloadQueue::match_added_item(&response, "/library/metadata/159637").unwrap();
    assert_eq!(first, 123);
    assert_eq!(second, 123);
}

#[test]
fn add_without_the_key_is_item_not_found() {
    let response = vec![QueueAddedItem { key: "/other".to_string(), id: 5 }];
    let r = DownloadQueue::match_added_item(&response, "/library/metadata/159637");
    assert!(matches!(r, Err(Error::ItemNotFound)));
}

#[test]
fn add_item_request_carries_keys_and_path() {
    let queue = DownloadQueue { id: 1 };
    let options = TranscodeOptions::Music(MusicTranscodeOptions::default());
    let r = queue.add_item_request("sid", None, None, &options, "/library/metadata/159637");
    assert_eq!(r.method, Method::Post);
    assert_eq!(r.path, "/downloadQueue/1/add");
    let url = r.url();
    assert!(url.contains("keys=%2Flibrary%2Fmetadata%2F159637"));
    assert!(url.contains("path=%2Flibrary%2Fmetadata%2F159637"));
    assert!(url.contains("context=static"));
    assert!(url.contains("protocol=http"));
}

#[test]
fn item_accessors_read_the_state() {
    let mut state = item_state(QueueItemStatus::Error);
    state.error = Some("boom".to_string());
    state.decision_result = decision(Some(DIRECT_PLAY_NOT_CHOSEN));
    let item = QueueItem { state };
    assert_eq!(item.id(), 123);
    assert_eq!(item.queue(), DownloadQueue { id: 1 });
    assert_eq!(item.key(), "/library/metadata/159637");
    assert_eq!(item.status(), QueueItemStatus::Error);
    assert_eq!(item.error(), Some("boom"));
    assert!(item.stats().is_none());
    // Direct play chosen: the download is the original file, no transcode.
    assert!(!item.is_transcode());
}

#[test]
fn queue_requests_address_the_right_paths() {
    let queue = DownloadQueue { id: 42 };
    assert_eq!(DownloadQueue::create_request().url(), "/downloadQueue");
    assert_eq!(DownloadQueue::create_request().method, Method::Post);
    assert_eq!(queue.items_request().url(), "/downloadQueue/42/items");
    assert_eq!(queue.item_request(7).url(), "/downloadQueue/42/items/7");
    let item = QueueItem { state: item_state(QueueItemStatus::Available) };
    assert_eq!(item.download_head_request().method, Method::Head);
    assert_eq!(item.download_head_request().url(), "/downloadQueue/1/items/123/download");
    assert_eq!(item.delete_request().method, Method::Delete);
    assert_eq!(item.delete_request().url(), "/downloadQueue/1/items/123");
}

#[test]
fn get_or_create_uses_the_first_queue() {
    let r = DownloadQueue::get_or_create(&vec![QueueSpec { id: 9 }, QueueSpec { id: 10 }]).unwrap();
    assert_eq!(r.id, 9);
    let r = DownloadQueue::get_or_create(&vec![]);
    assert!(matches!(r, Err(Error::ItemNotFound)));
}
