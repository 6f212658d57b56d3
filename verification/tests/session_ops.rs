use plex_api::error::Error;
use plex_api::media::{
    AudioCodec, AudioStream, ContainerFormat, Decision, Media, Part, Protocol, Stream, VideoCodec,
    VideoStream,
};
use plex_api::profile::Context;
use plex_api::query::Query;
use plex_api::request::{Method, TimeoutPolicy};
use plex_api::session::{
    cancel_outcome, create_session_from_media, decision_request, download_outcome,
    select_stream_index, stats_result, status_from_stats, StreamKind, TranscodeSession,
    TranscodeSessionStats, TranscodeStatus,
};

fn audio(selected: bool, codec: AudioCodec) -> Stream {
    Stream::Audio(AudioStream {
        selected: Some(selected),
        codec,
        decision: Some(Decision::Transcode),
    })
}

fn stats(key: &str) -> TranscodeSessionStats {
    TranscodeSessionStats {
        key: key.to_string(),
        offline_transcode: true,
        container: ContainerFormat::Mp4,
        protocol: Protocol::Http,
        complete: false,
        error: false,
        progress_hundredths: 2550,
        remaining: Some(30),
        speed_hundredths: Some(250),
        video_decision: Some(Decision::Transcode),
        video_codec: Some(VideoCodec::H264),
        audio_decision: Some(Decision::Copy),
        audio_codec: Some(AudioCodec::Aac),
    }
}

#[test]
fn selection_prefers_the_flagged_stream() {
    // [{selected:false,codec:A},{selected:true,codec:B}] selects B.
    let streams = vec![audio(false, AudioCodec::Aac), audio(true, AudioCodec::Mp3)];
    let ix = select_stream_index(&streams, StreamKind::Audio).unwrap();
    assert_eq!(ix, 1);
}

#[test]
fn selection_falls_back_to_the_first_of_kind() {
    // [{selected:false,codec:A}] alone selects A.
    let streams = vec![audio(false, AudioCodec::Aac)];
    let ix = select_stream_index(&streams, StreamKind::Audio).unwrap();
    assert_eq!(ix, 0);
}

#[test]
fn selection_skips_other_kinds() {
    let streams = vec![
        Stream::Video(VideoStream {
            selected: Some(true),
            codec: VideoCodec::H264,
            decision: Some(Decision::Copy),
        }),
        audio(false, AudioCodec::Mp3),
    ];
    assert_eq!(select_stream_index(&streams, StreamKind::Audio), Some(1));
    assert_eq!(select_stream_index(&streams, StreamKind::Video), Some(0));
    assert_eq!(select_stream_index(&streams, StreamKind::Subtitle), None);
}

#[test]
fn status_mapping_is_exact() {
    let mut s = stats("k");
    assert_eq!(
        status_from_stats(&s),
        TranscodeStatus::Transcoding { remaining: Some(30), progress_hundredths: 2550 }
    );
    s.complete = true;
    assert_eq!(status_from_stats(&s), TranscodeStatus::Complete);
    // An error report wins over completion.
    s.error = true;
    assert_eq!(status_from_stats(&s), TranscodeStatus::Error);
}

#[test]
fn stats_lookup_normalizes_404_to_item_not_found() {
    let r = stats_result(Err(Error::UnexpectedApiResponse {
        status_code: 404,
        content: "".to_string(),
    }));
    assert!(matches!(r, Err(Error::ItemNotFound)));
    let r = stats_result(Err(Error::UnexpectedApiResponse {
        status_code: 500,
        content: "x".to_string(),
    }));
    assert!(matches!(r, Err(Error::UnexpectedApiResponse { status_code: 500, .. })));
    let r = stats_result(Ok(vec![]));
    assert!(matches!(r, Err(Error::ItemNotFound)));
    let r = stats_result(Ok(vec![stats("s1"), stats("s2")])).unwrap();
    assert_eq!(r.key, "s1");
}

#[test]
fn session_from_stats_keeps_the_key() {
    let s = TranscodeSession::from_stats(stats("sess-9"));
    assert_eq!(s.session_id(), "sess-9");
    assert!(s.is_offline());
    assert_eq!(s.container(), ContainerFormat::Mp4);
    assert_eq!(s.protocol(), Protocol::Http);
    assert_eq!(s.video_transcode(), Some((Decision::Transcode, VideoCodec::H264)));
    assert_eq!(s.audio_transcode(), Some((Decision::Copy, AudioCodec::Aac)));
    let dl = s.download_request();
    assert_eq!(dl.url(), "/video/:/transcode/universal/start.mp4?session=sess-9");
}

#[test]
fn download_request_disables_timeout_only_offline() {
    let mut st = stats("k");
    let s = TranscodeSession::from_stats(st.clone());
    assert_eq!(s.download_request().timeout, TimeoutPolicy::NoTimeout);
    st.offline_transcode = false;
    let s = TranscodeSession::from_stats(st);
    assert_eq!(s.download_request().timeout, TimeoutPolicy::DefaultTimeout);
}

#[test]
fn download_request_uses_manifest_extensions() {
    let mut st = stats("k");
    st.protocol = Protocol::Dash;
    let s = TranscodeSession::from_stats(st.clone());
    assert!(s.download_request().path.ends_with(".mpd"));
    st.protocol = Protocol::Hls;
    let s = TranscodeSession::from_stats(st);
    assert!(s.download_request().path.ends_with(".m3u8"));
}

#[test]
fn stats_and_cancel_requests_address_the_session() {
    let s = TranscodeSession::from_stats(stats("abc"));
    let r = s.stats_request();
    assert_eq!(r.method, Method::Get);
    assert_eq!(r.url(), "/transcode/sessions/abc");
    let c = s.cancel_request();
    assert_eq!(c.url(), "/video/:/transcode/universal/stop?session=abc");
}

#[test]
fn decision_request_asks_for_json() {
    let q = Query::new().param("session", "abc");
    let r = decision_request(q);
    assert_eq!(r.method, Method::Get);
    assert_eq!(r.url(), "/video/:/transcode/universal/decision?session=abc");
    assert_eq!(r.headers, vec![("Accept".to_string(), "application/json".to_string())]);
}

#[test]
fn session_download_accepts_only_200() {
    assert!(download_outcome(200, "".to_string()).is_ok());
    let r = download_outcome(503, "busy".to_string());
    assert!(matches!(r, Err(Error::UnexpectedApiResponse { status_code: 503, .. })));
}

#[test]
fn cancel_accepts_200_and_404() {
    assert!(cancel_outcome(200, "".to_string()).is_ok());
    // Sometimes the server answers "not found" but still cancels.
    assert!(cancel_outcome(404, "".to_string()).is_ok());
    assert!(matches!(
        cancel_outcome(500, "x".to_string()),
        Err(Error::UnexpectedApiResponse { status_code: 500, .. })
    ));
}

#[test]
fn create_session_checks_the_protocol() {
    let media = Media {
        selected: Some(true),
        protocol: Some(Protocol::Http),
        container: Some(ContainerFormat::Mp4),
        parts: vec![Part { selected: Some(true), streams: Some(vec![audio(true, AudioCodec::Aac)]) }],
    };
    let r = create_session_from_media(
        "id-1".to_string(),
        Protocol::Dash,
        Context::Streaming,
        media.clone(),
        Query::new(),
    );
    match r {
        Err(Error::TranscodeError(t)) => assert_eq!(t, "Server returned an invalid protocol."),
        other => panic!("unexpected result: {other:?}"),
    }
    let s = create_session_from_media(
        "id-1".to_string(),
        Protocol::Http,
        Context::Static,
        media,
        Query::new(),
    )
    .unwrap();
    assert!(s.is_offline());
    assert_eq!(s.session_id(), "id-1");
    assert_eq!(s.audio_transcode(), Some((Decision::Transcode, AudioCodec::Aac)));
    assert_eq!(s.video_transcode(), None);
}

#[test]
fn from_metadata_needs_a_selected_part() {
    let media = Media {
        selected: Some(true),
        protocol: Some(Protocol::Http),
        container: Some(ContainerFormat::Mp4),
        parts: vec![Part { selected: Some(false), streams: None }],
    };
    let r = TranscodeSession::from_metadata("id".to_string(), media, false, Query::new());
    match r {
        Err(Error::TranscodeError(t)) => assert_eq!(t, "Server returned unexpected response"),
        other => panic!("unexpected result: {other:?}"),
    }
}
