use plex_api::media::{AudioCodec, ContainerFormat, Protocol, VideoCodec};

#[test]
fn container_names_round_trip_through_extensions() {
    let all = [
        ContainerFormat::Aac,
        ContainerFormat::Avi,
        ContainerFormat::Flac,
        ContainerFormat::Mkv,
        ContainerFormat::Mp3,
        ContainerFormat::Mp4,
        ContainerFormat::MpegTs,
        ContainerFormat::Ogg,
        ContainerFormat::Wav,
    ];
    for c in all {
        assert_eq!(ContainerFormat::from_extension(c.name()), Some(c));
    }
    assert_eq!(ContainerFormat::from_extension("exe"), None);
    assert_eq!(ContainerFormat::from_extension(""), None);
    assert_eq!(ContainerFormat::from_extension("MP4"), None);
}

#[test]
fn wire_names_are_lowercase() {
    assert_eq!(ContainerFormat::Mp4.name(), "mp4");
    assert_eq!(ContainerFormat::MpegTs.name(), "mpegts");
    assert_eq!(VideoCodec::H264.name(), "h264");
    assert_eq!(AudioCodec::Aac.name(), "aac");
    assert_eq!(Protocol::Http.name(), "http");
    assert_eq!(Protocol::Dash.name(), "dash");
    assert_eq!(Protocol::Hls.name(), "hls");
}
