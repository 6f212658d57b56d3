//! The whole queue workflow against server-provided fixtures: create the
//! queue, watch an item progress through its lifecycle, resolve the
//! container from the download probe, and delete the item.

use plex_api::decision::DecisionResult;
use plex_api::error::Error;
use plex_api::media::{AudioCodec, ContainerFormat, Decision, Protocol, VideoCodec};
use plex_api::queue::{
    container_from_response, DownloadQueue, QueueAddedItem, QueueItemState, QueueItemStatus,
    QueueSpec,
};
use plex_api::session::TranscodeSessionStats;

fn no_decision() -> DecisionResult {
    DecisionResult {
        general_decision_code: None,
        general_decision_text: None,
        direct_play_decision_code: None,
        direct_play_decision_text: None,
        transcode_decision_code: None,
        transcode_decision_text: None,
    }
}

fn state_fixture(status: QueueItemStatus, stats: Option<TranscodeSessionStats>) -> QueueItemState {
    QueueItemState {
        id: 123,
        queue_id: 1,
        key: "/library/metadata/159637".to_string(),
        status,
        error: None,
        decision_result: no_decision(),
        session_stats: stats,
    }
}

#[test]
fn queue_item_lifecycle() {
    // Create (or get) the queue.
    let queue = DownloadQueue::get_or_create(&vec![QueueSpec { id: 1 }]).unwrap();
    assert_eq!(queue.id, 1);

    // An empty queue lists no items.
    let items = queue.items(vec![]);
    assert!(items.is_empty());

    // Add an item; the server answers with the (key, id) pairing, and the
    // mandatory re-fetch by that id observes the Deciding state.
    let added = vec![QueueAddedItem { key: "/library/metadata/159637".to_string(), id: 123 }];
    let id = DownloadQueue::match_added_item(&added, "/library/metadata/159637").unwrap();
    assert_eq!(id, 123);
    let mut item = queue
        .item(vec![state_fixture(QueueItemStatus::Deciding, None)])
        .unwrap();
    assert_eq!(item.status(), QueueItemStatus::Deciding);
    assert_eq!(item.id(), 123);
    assert_eq!(item.key(), "/library/metadata/159637");

    // Successive updates observe the server moving the item along.
    item.update(state_fixture(QueueItemStatus::Waiting, None));
    assert_eq!(item.status(), QueueItemStatus::Waiting);

    let processing_stats = TranscodeSessionStats {
        key: "sess".to_string(),
        offline_transcode: true,
        container: ContainerFormat::Mp4,
        protocol: Protocol::Http,
        complete: false,
        error: false,
        progress_hundredths: 2550,
        remaining: Some(12),
        speed_hundredths: Some(250),
        video_decision: Some(Decision::Transcode),
        video_codec: Some(VideoCodec::H264),
        audio_decision: Some(Decision::Transcode),
        audio_codec: Some(AudioCodec::Aac),
    };
    item.update(state_fixture(QueueItemStatus::Processing, Some(processing_stats)));
    assert_eq!(item.status(), QueueItemStatus::Processing);
    let stats = item.stats().unwrap();
    assert_eq!(stats.progress_hundredths, 2550);
    assert_eq!(stats.speed_hundredths, Some(250));
    assert!(item.is_transcode());

    item.update(state_fixture(QueueItemStatus::Available, None));
    assert_eq!(item.status(), QueueItemStatus::Available);

    // The rendition's container comes from the download probe's
    // Content-Disposition filename.
    let container = container_from_response(
        200,
        Some("attachment; filename=\"x.mp4\""),
        String::new(),
    )
    .unwrap();
    assert_eq!(container, ContainerFormat::Mp4);

    // Probing before completion reports the transcode as incomplete.
    let early = container_from_response(503, None, String::new());
    assert!(matches!(early, Err(Error::TranscodeIncomplete)));

    // Deleting the item leaves the queue existing and empty.
    let delete = item.delete_request();
    assert_eq!(delete.url(), "/downloadQueue/1/items/123");
    let items = queue.items(vec![]);
    assert!(items.is_empty());
}
