use plex_api::decision::{
    transcode_decision, DecisionResult, TranscodeDecisionContainer, DIRECT_PLAY_REFUSED,
    GENERAL_DECISION_DOWNLOADS_FORBIDDEN,
};
use plex_api::error::{Error, Feature};
use plex_api::media::{
    AudioCodec, AudioStream, ContainerFormat, Decision, Media, Metadata, Part, Protocol, Stream,
    VideoCodec, VideoStream,
};

fn empty_decision() -> DecisionResult {
    DecisionResult {
        general_decision_code: None,
        general_decision_text: None,
        direct_play_decision_code: None,
        direct_play_decision_text: None,
        transcode_decision_code: None,
        transcode_decision_text: None,
    }
}

fn selected_media() -> Media {
    Media {
        selected: Some(true),
        protocol: Some(Protocol::Http),
        container: Some(ContainerFormat::Mp4),
        parts: vec![Part {
            selected: Some(true),
            streams: Some(vec![
                Stream::Video(VideoStream {
                    selected: Some(true),
                    codec: VideoCodec::H264,
                    decision: Some(Decision::Transcode),
                }),
                Stream::Audio(AudioStream {
                    selected: Some(true),
                    codec: AudioCodec::Aac,
                    decision: Some(Decision::Copy),
                }),
            ]),
        }],
    }
}

fn container_with(decision: DecisionResult, media: Vec<Media>) -> TranscodeDecisionContainer {
    TranscodeDecisionContainer {
        decision_result: decision,
        metadata: vec![Metadata { key: "/library/metadata/159637".to_string(), media: Some(media) }],
    }
}

#[test]
fn subscription_refusal_wins_over_streams() {
    // Even with perfectly selectable streams, code 2011 with the
    // "Downloads not allowed" text is authoritative.
    let mut d = empty_decision();
    d.general_decision_code = Some(GENERAL_DECISION_DOWNLOADS_FORBIDDEN);
    d.general_decision_text = Some("Downloads not allowed".to_string());
    let c = container_with(d, vec![selected_media()]);
    let r = transcode_decision(c, 200, "body".to_string());
    assert!(matches!(r, Err(Error::SubscriptionFeatureNotAvailable(Feature::SyncV3))));
}

#[test]
fn code_2011_without_the_text_is_not_a_subscription_refusal() {
    let mut d = empty_decision();
    d.general_decision_code = Some(GENERAL_DECISION_DOWNLOADS_FORBIDDEN);
    d.general_decision_text = Some("Something else".to_string());
    let c = container_with(d, vec![selected_media()]);
    let r = transcode_decision(c, 200, "body".to_string());
    assert!(r.is_ok());
}

#[test]
fn direct_play_1000_refuses_transcode_even_with_streams() {
    let mut d = empty_decision();
    d.direct_play_decision_code = Some(DIRECT_PLAY_REFUSED);
    let c = container_with(d, vec![selected_media()]);
    let r = transcode_decision(c, 200, "body".to_string());
    assert!(matches!(r, Err(Error::TranscodeRefused)));
}

#[test]
fn subscription_refusal_precedes_transcode_refusal() {
    let mut d = empty_decision();
    d.general_decision_code = Some(GENERAL_DECISION_DOWNLOADS_FORBIDDEN);
    d.general_decision_text = Some("Downloads not allowed".to_string());
    d.direct_play_decision_code = Some(DIRECT_PLAY_REFUSED);
    let c = container_with(d, vec![selected_media()]);
    let r = transcode_decision(c, 200, "body".to_string());
    assert!(matches!(r, Err(Error::SubscriptionFeatureNotAvailable(_))));
}

#[test]
fn picks_the_first_selected_media() {
    let mut unselected = selected_media();
    unselected.selected = Some(false);
    unselected.container = Some(ContainerFormat::Mkv);
    let c = container_with(empty_decision(), vec![unselected, selected_media()]);
    let r = transcode_decision(c, 200, "body".to_string()).unwrap();
    assert_eq!(r.container, Some(ContainerFormat::Mp4));
}

#[test]
fn no_selected_media_reports_the_servers_reason() {
    let mut d = empty_decision();
    d.transcode_decision_text = Some("Cannot transcode this".to_string());
    let mut m = selected_media();
    m.selected = Some(false);
    let c = container_with(d, vec![m]);
    let r = transcode_decision(c, 200, "body".to_string());
    match r {
        Err(Error::TranscodeError(t)) => assert_eq!(t, "Cannot transcode this"),
        other => panic!("unexpected result: {other:?}"),
    }
}

#[test]
fn no_selected_media_and_no_reason_is_a_protocol_error() {
    let c = TranscodeDecisionContainer {
        decision_result: empty_decision(),
        metadata: vec![],
    };
    let r = transcode_decision(c, 200, "raw body".to_string());
    match r {
        Err(Error::UnexpectedApiResponse { status_code, content }) => {
            assert_eq!(status_code, 200);
            assert_eq!(content, "raw body");
        },
        other => panic!("unexpected result: {other:?}"),
    }
}

#[test]
fn media_list_absent_is_a_protocol_error() {
    let c = TranscodeDecisionContainer {
        decision_result: empty_decision(),
        metadata: vec![Metadata { key: "/k".to_string(), media: None }],
    };
    let r = transcode_decision(c, 500, "oops".to_string());
    assert!(matches!(r, Err(Error::UnexpectedApiResponse { status_code: 500, .. })));
}
