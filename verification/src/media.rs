//! The media data model that transcode negotiation reads: container formats,
//! codecs, per-stream server decisions, and the metadata/media/part/stream
//! tree returned by the decision endpoint.

use vstd::prelude::*;

verus! {

/// Delivery protocol of a transcode session.
#[derive(Debug, Clone, Copy, PartialEq, Eq, Structural)]
pub enum Protocol {
    Http,
    Hls,
    Dash,
}

impl Protocol {
    pub open spec fn spec_name(self) -> Seq<char> {
        match self {
            Protocol::Http => "http"@,
            Protocol::Hls => "hls"@,
            Protocol::Dash => "dash"@,
        }
    }

    /// The protocol's name on the wire.
    pub fn name(&self) -> (r: &'static str)
        ensures
            r@ == self.spec_name(),
    {
        match self {
            Protocol::Http => "http",
            Protocol::Hls => "hls",
            Protocol::Dash => "dash",
        }
    }
}

/// Container format of a media file or transcode target.
#[derive(Debug, Clone, Copy, PartialEq, Eq, Structural)]
pub enum ContainerFormat {
    Aac,
    Avi,
    Flac,
    Mkv,
    Mp3,
    Mp4,
    MpegTs,
    Ogg,
    Wav,
}

impl ContainerFormat {
    pub open spec fn spec_name(self) -> Seq<char> {
        match self {
            ContainerFormat::Aac => "aac"@,
            ContainerFormat::Avi => "avi"@,
            ContainerFormat::Flac => "flac"@,
            ContainerFormat::Mkv => "mkv"@,
            ContainerFormat::Mp3 => "mp3"@,
            ContainerFormat::Mp4 => "mp4"@,
            ContainerFormat::MpegTs => "mpegts"@,
            ContainerFormat::Ogg => "ogg"@,
            ContainerFormat::Wav => "wav"@,
        }
    }

    /// The container's name on the wire, which is also its file extension.
    pub fn name(&self) -> (r: &'static str)
        ensures
            r@ == self.spec_name(),
    {
        match self {
            ContainerFormat::Aac => "aac",
            ContainerFormat::Avi => "avi",
            ContainerFormat::Flac => "flac",
            ContainerFormat::Mkv => "mkv",
            ContainerFormat::Mp3 => "mp3",
            ContainerFormat::Mp4 => "mp4",
            ContainerFormat::MpegTs => "mpegts",
            ContainerFormat::Ogg => "ogg",
            ContainerFormat::Wav => "wav",
        }
    }

    /// The container whose name is `ext`, if any.
    pub open spec fn spec_from_extension(ext: Seq<char>) -> Option<ContainerFormat> {
        if ext == "aac"@ {
            Some(ContainerFormat::Aac)
        } else if ext == "avi"@ {
            Some(ContainerFormat::Avi)
        } else if ext == "flac"@ {
            Some(ContainerFormat::Flac)
        } else if ext == "mkv"@ {
            Some(ContainerFormat::Mkv)
        } else if ext == "mp3"@ {
            Some(ContainerFormat::Mp3)
        } else if ext == "mp4"@ {
            Some(ContainerFormat::Mp4)
        } else if ext == "mpegts"@ {
            Some(ContainerFormat::MpegTs)
        } else if ext == "ogg"@ {
            Some(ContainerFormat::Ogg)
        } else if ext == "wav"@ {
            Some(ContainerFormat::Wav)
        } else {
            None
        }
    }

    /// Resolves a filename extension to a container format.
    pub fn from_extension(ext: &str) -> (r: Option<ContainerFormat>)
        ensures
            r == Self::spec_from_extension(ext@),
    {
        if crate::text::str_eq(ext, "aac") {
            Some(ContainerFormat::Aac)
        } else if crate::text::str_eq(ext, "avi") {
            Some(ContainerFormat::Avi)
        } else if crate::text::str_eq(ext, "flac") {
            Some(ContainerFormat::Flac)
        } else if crate::text::str_eq(ext, "mkv") {
            Some(ContainerFormat::Mkv)
        } else if crate::text::str_eq(ext, "mp3") {
            Some(ContainerFormat::Mp3)
        } else if crate::text::str_eq(ext, "mp4") {
            Some(ContainerFormat::Mp4)
        } else if crate::text::str_eq(ext, "mpegts") {
            Some(ContainerFormat::MpegTs)
        } else if crate::text::str_eq(ext, "ogg") {
            Some(ContainerFormat::Ogg)
        } else if crate::text::str_eq(ext, "wav") {
            Some(ContainerFormat::Wav)
        } else {
            None
        }
    }
}

/// Video codec of a stream or transcode target.
#[derive(Debug, Clone, Copy, PartialEq, Eq, Structural)]
pub enum VideoCodec {
    H264,
    Hevc,
    Mpeg2,
    Mpeg4,
    Vp8,
    Vp9,
}

impl VideoCodec {
    pub open spec fn spec_name(self) -> Seq<char> {
        match self {
            VideoCodec::H264 => "h264"@,
            VideoCodec::Hevc => "hevc"@,
            VideoCodec::Mpeg2 => "mpeg2"@,
            VideoCodec::Mpeg4 => "mpeg4"@,
            VideoCodec::Vp8 => "vp8"@,
            VideoCodec::Vp9 => "vp9"@,
        }
    }

    /// The codec's name on the wire.
    pub fn name(&self) -> (r: &'static str)
        ensures
            r@ == self.spec_name(),
    {
        match self {
            VideoCodec::H264 => "h264",
            VideoCodec::Hevc => "hevc",
            VideoCodec::Mpeg2 => "mpeg2",
            VideoCodec::Mpeg4 => "mpeg4",
            VideoCodec::Vp8 => "vp8",
            VideoCodec::Vp9 => "vp9",
        }
    }
}

/// Audio codec of a stream or transcode target.
#[derive(Debug, Clone, Copy, PartialEq, Eq, Structural)]
pub enum AudioCodec {
    Aac,
    Ac3,
    Eac3,
    Flac,
    Mp3,
    Opus,
    Vorbis,
}

impl AudioCodec {
    pub open spec fn spec_name(self) -> Seq<char> {
        match self {
            AudioCodec::Aac => "aac"@,
            AudioCodec::Ac3 => "ac3"@,
            AudioCodec::Eac3 => "eac3"@,
            AudioCodec::Flac => "flac"@,
            AudioCodec::Mp3 => "mp3"@,
            AudioCodec::Opus => "opus"@,
            AudioCodec::Vorbis => "vorbis"@,
        }
    }

    /// The codec's name on the wire.
    pub fn name(&self) -> (r: &'static str)
        ensures
            r@ == self.spec_name(),
    {
        match self {
            AudioCodec::Aac => "aac",
            AudioCodec::Ac3 => "ac3",
            AudioCodec::Eac3 => "eac3",
            AudioCodec::Flac => "flac",
            AudioCodec::Mp3 => "mp3",
            AudioCodec::Opus => "opus",
            AudioCodec::Vorbis => "vorbis",
        }
    }
}

/// What the server decided to do to one stream.
#[derive(Debug, Clone, Copy, PartialEq, Eq, Structural)]
pub enum Decision {
    Copy,
    Transcode,
    Burn,
    Ignore,
}

/// One video stream of a media part.
#[derive(Debug, Clone, Copy, PartialEq, Eq)]
pub struct VideoStream {
    pub selected: Option<bool>,
    pub codec: VideoCodec,
    pub decision: Option<Decision>,
}

/// One audio stream of a media part.
#[derive(Debug, Clone, Copy, PartialEq, Eq)]
pub struct AudioStream {
    pub selected: Option<bool>,
    pub codec: AudioCodec,
    pub decision: Option<Decision>,
}

/// One subtitle stream of a media part.
#[derive(Debug, Clone, PartialEq, Eq)]
pub struct SubtitleStream {
    pub selected: Option<bool>,
    pub codec: String,
    pub decision: Option<Decision>,
}

/// A stream of a media part, tagged by kind.
#[derive(Debug, Clone, PartialEq, Eq)]
pub enum Stream {
    Video(VideoStream),
    Audio(AudioStream),
    Subtitle(SubtitleStream),
}

/// One file of a media rendition.
#[derive(Debug, Clone, PartialEq, Eq)]
pub struct Part {
    pub selected: Option<bool>,
    pub streams: Option<Vec<Stream>>,
}

/// One rendition of a media item.
#[derive(Debug, Clone, PartialEq, Eq)]
pub struct Media {
    pub selected: Option<bool>,
    pub protocol: Option<Protocol>,
    pub container: Option<ContainerFormat>,
    pub parts: Vec<Part>,
}

/// One library item as the decision endpoint reports it.
#[derive(Debug, Clone, PartialEq, Eq)]
pub struct Metadata {
    pub key: String,
    pub media: Option<Vec<Media>>,
}

} // verus!
