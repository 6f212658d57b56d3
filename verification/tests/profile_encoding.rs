use plex_api::media::{AudioCodec, ContainerFormat, Protocol, VideoCodec};
use plex_api::profile::{
    get_transcode_params, profile_directives, serialize_directives, Context, MusicTranscodeOptions,
    SubtitleMode, TranscodeOptions, VideoTranscodeOptions,
};

fn video_options() -> VideoTranscodeOptions {
    VideoTranscodeOptions {
        bitrate: 2000,
        width: 1280,
        height: 720,
        subtitles: SubtitleMode::Omit,
        containers: vec![ContainerFormat::Mp4, ContainerFormat::Mkv],
        video_codecs: vec![VideoCodec::H264, VideoCodec::Hevc],
        audio_codecs: vec![AudioCodec::Aac, AudioCodec::Mp3],
    }
}

#[test]
fn video_directives_are_ordered_by_preference() {
    // One transcode target per (container, codec) pair, containers
    // outermost, and exactly one direct-play profile matching the first
    // pair, right after the first target.
    let options = TranscodeOptions::Video(video_options());
    let ds = profile_directives(&options, Context::Streaming, Protocol::Http);
    assert_eq!(ds.len(), 5);
    assert_eq!(ds[0].name, "add-transcode-target");
    assert_eq!(ds[1].name, "add-direct-play-profile");
    assert_eq!(ds[2].name, "add-transcode-target");
    assert_eq!(ds[3].name, "add-transcode-target");
    assert_eq!(ds[4].name, "add-transcode-target");

    let pair = |d: &plex_api::profile::Directive| {
        let c = d.attributes.iter().find(|a| a.0 == "container").unwrap().1.clone();
        let v = d.attributes.iter().find(|a| a.0 == "videoCodec").unwrap().1.clone();
        (c, v)
    };
    assert_eq!(pair(&ds[0]), ("mp4".to_string(), "h264".to_string()));
    assert_eq!(pair(&ds[1]), ("mp4".to_string(), "h264".to_string()));
    assert_eq!(pair(&ds[2]), ("mp4".to_string(), "hevc".to_string()));
    assert_eq!(pair(&ds[3]), ("mkv".to_string(), "h264".to_string()));
    assert_eq!(pair(&ds[4]), ("mkv".to_string(), "hevc".to_string()));
}

#[test]
fn video_profile_serializes_exactly() {
    let options = TranscodeOptions::Video(VideoTranscodeOptions {
        containers: vec![ContainerFormat::Mp4],
        video_codecs: vec![VideoCodec::H264],
        audio_codecs: vec![AudioCodec::Aac],
        ..Default::default()
    });
    let ds = profile_directives(&options, Context::Static, Protocol::Http);
    let s = serialize_directives(&ds);
    assert_eq!(
        s,
        "add-transcode-target(type=videoProfile&context=static&protocol=http&container=mp4&\
         videoCodec=h264&audioCodec=aac&subtitleCodec=&replace=true)\
         +add-direct-play-profile(type=videoProfile&container=mp4&videoCodec=h264&\
         audioCodec=aac&subtitleCodec=&replace=true)"
    );
}

#[test]
fn music_profile_serializes_exactly() {
    let options = TranscodeOptions::Music(MusicTranscodeOptions {
        bitrate: 92,
        containers: vec![ContainerFormat::Mp3],
        codecs: vec![AudioCodec::Mp3],
    });
    let ds = profile_directives(&options, Context::Static, Protocol::Http);
    let s = serialize_directives(&ds);
    assert_eq!(
        s,
        "add-transcode-target(type=musicProfile&context=static&protocol=http&container=mp3&\
         audioCodec=mp3&replace=true)\
         +add-direct-play-profile(type=musicProfile&container=mp3&audioCodec=mp3&replace=true)"
    );
}

#[test]
fn music_directives_enumerate_all_pairs() {
    let options = TranscodeOptions::Music(MusicTranscodeOptions {
        bitrate: 128,
        containers: vec![ContainerFormat::Mp3, ContainerFormat::Ogg],
        codecs: vec![AudioCodec::Mp3, AudioCodec::Vorbis],
    });
    let ds = profile_directives(&options, Context::Streaming, Protocol::Http);
    // 4 targets plus one direct-play profile.
    assert_eq!(ds.len(), 5);
    assert_eq!(ds.iter().filter(|d| d.name == "add-transcode-target").count(), 4);
    assert_eq!(ds.iter().filter(|d| d.name == "add-direct-play-profile").count(), 1);
}

#[test]
fn transcode_params_carry_the_negotiation_set() {
    let options = TranscodeOptions::Video(video_options());
    let q = get_transcode_params(
        "abc123",
        Context::Static,
        Protocol::Http,
        Some(0),
        Some(1),
        &options,
    );
    let s = q.to_query_string();
    let params: Vec<(String, String)> = s
        .split('&')
        .map(|kv| {
            let mut it = kv.splitn(2, '=');
            (it.next().unwrap().to_string(), it.next().unwrap_or("").to_string())
        })
        .collect();
    let get = |k: &str| {
        params
            .iter()
            .find(|p| p.0 == k)
            .unwrap_or_else(|| panic!("missing parameter {k}"))
            .1
            .clone()
    };
    assert_eq!(get("session"), "abc123");
    assert_eq!(get("transcodeSessionId"), "abc123");
    assert_eq!(get("transcodeType"), "video");
    assert_eq!(get("protocol"), "http");
    assert_eq!(get("context"), "static");
    assert_eq!(get("directPlay"), "0");
    assert_eq!(get("directStream"), "1");
    assert_eq!(get("directStreamAudio"), "1");
    assert_eq!(get("mediaIndex"), "0");
    assert_eq!(get("partIndex"), "1");
    assert_eq!(get("videoBitrate"), "2000");
    assert_eq!(get("maxVideoBitrate"), "2000");
    assert_eq!(get("videoResolution"), "1280x720");
    assert_eq!(get("subtitles"), "none");
    assert_eq!(get("subtitleSize"), "100");
    // The profile rides along percent-encoded; spot-check its escaping.
    let profile = get("X-Plex-Client-Profile-Extra");
    assert!(profile.starts_with("add-transcode-target%28type%3DvideoProfile"));
    assert!(profile.contains("%2Badd-direct-play-profile%28"));
}

#[test]
fn music_params_use_music_bitrate() {
    let options = TranscodeOptions::Music(MusicTranscodeOptions {
        bitrate: 92,
        containers: vec![ContainerFormat::Mp3],
        codecs: vec![AudioCodec::Mp3],
    });
    let q = get_transcode_params("sid", Context::Streaming, Protocol::Http, None, None, &options);
    let s = q.to_query_string();
    assert!(s.contains("musicBitrate=92"));
    assert!(s.contains("transcodeType=music"));
    assert!(s.contains("context=streaming"));
    assert!(!s.contains("mediaIndex"));
    assert!(!s.contains("partIndex"));
    assert!(!s.contains("videoResolution"));
}

#[test]
fn default_options_are_the_documented_ones() {
    let v = VideoTranscodeOptions::default();
    assert_eq!(v.bitrate, 2000);
    assert_eq!(v.width, 1280);
    assert_eq!(v.height, 720);
    assert_eq!(v.containers, vec![ContainerFormat::Mp4]);
    assert_eq!(v.video_codecs, vec![VideoCodec::H264]);
    assert_eq!(v.audio_codecs, vec![AudioCodec::Aac]);
    let m = MusicTranscodeOptions::default();
    assert_eq!(m.bitrate, 192);
    assert_eq!(m.containers, vec![ContainerFormat::Mp3]);
    assert_eq!(m.codecs, vec![AudioCodec::Mp3]);
}
