//! The synchronous transcode session: created once from a negotiation
//! verdict, polled for progress, downloaded from, cancellable. After
//! creation no further negotiation occurs; container and codecs are fixed
//! for the session's life.

use vstd::prelude::*;
use vstd::string::StringExecFns;
use crate::error::Error;
use crate::media::{
    AudioCodec, ContainerFormat, Decision, Media, Part, Protocol, Stream, VideoCodec,
};
use crate::profile::{Context, TranscodeOptions};
use crate::query::Query;
use crate::request::{Method, RequestBuilder, TimeoutPolicy};

verus! {

/// The kind of a stream, used to run the one selection algorithm over
/// video, audio and subtitle streams alike.
#[derive(Debug, Clone, Copy, PartialEq, Eq, Structural)]
pub enum StreamKind {
    Video,
    Audio,
    Subtitle,
}

pub open spec fn stream_kind(s: Stream) -> StreamKind {
    match s {
        Stream::Video(_) => StreamKind::Video,
        Stream::Audio(_) => StreamKind::Audio,
        Stream::Subtitle(_) => StreamKind::Subtitle,
    }
}

pub open spec fn stream_is_selected(s: Stream) -> bool {
    match s {
        Stream::Video(v) => v.selected == Some(true),
        Stream::Audio(a) => a.selected == Some(true),
        Stream::Subtitle(t) => t.selected == Some(true),
    }
}

/// The first stream of kind `k` at or after `i` that is flagged selected.
pub open spec fn first_selected_of_kind_from(ss: Seq<Stream>, k: StreamKind, i: int) -> Option<
    Stream,
>
    decreases ss.len() - i,
{
    if i < 0 || i >= ss.len() {
        None
    } else if stream_kind(ss[i]) == k && stream_is_selected(ss[i]) {
        Some(ss[i])
    } else {
        first_selected_of_kind_from(ss, k, i + 1)
    }
}

/// The first stream of kind `k` at or after `i`.
pub open spec fn first_of_kind_from(ss: Seq<Stream>, k: StreamKind, i: int) -> Option<Stream>
    decreases ss.len() - i,
{
    if i < 0 || i >= ss.len() {
        None
    } else if stream_kind(ss[i]) == k {
        Some(ss[i])
    } else {
        first_of_kind_from(ss, k, i + 1)
    }
}

/// The stream the server's verdict selects for one kind: the first stream
/// of that kind flagged selected, falling back to the first stream of the
/// kind when none is flagged.
pub open spec fn spec_select_stream(ss: Seq<Stream>, k: StreamKind) -> Option<Stream> {
    match first_selected_of_kind_from(ss, k, 0) {
        Some(s) => Some(s),
        None => first_of_kind_from(ss, k, 0),
    }
}

proof fn lemma_first_selected_skip(ss: Seq<Stream>, k: StreamKind, i: int)
    requires
        0 <= i <= ss.len(),
        forall|j: int|
            0 <= j < i ==> !(stream_kind(#[trigger] ss[j]) == k && stream_is_selected(ss[j])),
    ensures
        first_selected_of_kind_from(ss, k, 0) == first_selected_of_kind_from(ss, k, i),
    decreases i,
{
    if i > 0 {
        lemma_first_selected_skip(ss, k, i - 1);
    }
}

proof fn lemma_first_of_kind_skip(ss: Seq<Stream>, k: StreamKind, i: int)
    requires
        0 <= i <= ss.len(),
        forall|j: int| 0 <= j < i ==> stream_kind(#[trigger] ss[j]) != k,
    ensures
        first_of_kind_from(ss, k, 0) == first_of_kind_from(ss, k, i),
    decreases i,
{
    if i > 0 {
        lemma_first_of_kind_skip(ss, k, i - 1);
    }
}

/// Law: stream selection fallback. A stream of kind `k`, flagged selected,
/// with no earlier flagged stream of that kind, is the selection; and when
/// no stream of the kind is flagged at all, the first stream of the kind is
/// the selection.
pub proof fn lemma_stream_selection_fallback(ss: Seq<Stream>, k: StreamKind, i: int)
    requires
        0 <= i < ss.len(),
        stream_kind(ss[i]) == k,
        forall|j: int|
            0 <= j < i ==> !(stream_kind(#[trigger] ss[j]) == k && stream_is_selected(ss[j])),
    ensures
        stream_is_selected(ss[i]) ==> spec_select_stream(ss, k) == Some(ss[i]),
        (forall|j: int|
            0 <= j < ss.len() ==> !(stream_kind(#[trigger] ss[j]) == k && stream_is_selected(
                ss[j],
            ))) && (forall|j: int| 0 <= j < i ==> stream_kind(#[trigger] ss[j]) != k)
            ==> spec_select_stream(ss, k) == Some(ss[i]),
{
    lemma_first_selected_skip(ss, k, i);
    if forall|j: int|
        0 <= j < ss.len() ==> !(stream_kind(#[trigger] ss[j]) == k && stream_is_selected(ss[j])) {
        lemma_first_selected_skip(ss, k, ss.len() as int);
        if forall|j: int| 0 <= j < i ==> stream_kind(#[trigger] ss[j]) != k {
            lemma_first_of_kind_skip(ss, k, i);
        }
    }
}

fn kind_of(s: &Stream) -> (k: StreamKind)
    ensures
        k == stream_kind(*s),
{
    match s {
        Stream::Video(_) => StreamKind::Video,
        Stream::Audio(_) => StreamKind::Audio,
        Stream::Subtitle(_) => StreamKind::Subtitle,
    }
}

fn selected_of(s: &Stream) -> (b: bool)
    ensures
        b == stream_is_selected(*s),
{
    let sel = match s {
        Stream::Video(v) => v.selected,
        Stream::Audio(a) => a.selected,
        Stream::Subtitle(t) => t.selected,
    };
    match sel {
        Some(true) => true,
        _ => false,
    }
}

/// Finds the index of the stream that selection picks for kind `kind`:
/// the first stream of the kind flagged selected, else the first stream of
/// the kind, else nothing. One implementation serves all stream kinds.
pub fn select_stream_index(streams: &Vec<Stream>, kind: StreamKind) -> (r: Option<usize>)
    ensures
        r matches Some(ix) ==> ix < streams@.len() && spec_select_stream(streams@, kind) == Some(
            streams@[ix as int],
        ),
        r is None <==> spec_select_stream(streams@, kind) is None,
{
    let n = streams.len();
    let mut first_of_kind: Option<usize> = None;
    let mut i: usize = 0;
    while i < n
        invariant
            i <= n,
            n == streams@.len(),
            forall|j: int|
                0 <= j < i ==> !(stream_kind(#[trigger] streams@[j]) == kind && stream_is_selected(
                    streams@[j],
                )),
            match first_of_kind {
                Some(fk) => fk < i && first_of_kind_from(streams@, kind, 0) == Some(
                    streams@[fk as int],
                ),
                None => forall|j: int| 0 <= j < i ==> stream_kind(#[trigger] streams@[j]) != kind,
            },
        decreases n - i,
    {
        let k = kind_of(&streams[i]);
        if k == kind {
            if selected_of(&streams[i]) {
                proof {
                    lemma_first_selected_skip(streams@, kind, i as int);
                }
                return Some(i);
            }
            if first_of_kind.is_none() {
                proof {
                    lemma_first_of_kind_skip(streams@, kind, i as int);
                }
                first_of_kind = Some(i);
            }
        }
        i = i + 1;
    }
    proof {
        lemma_first_selected_skip(streams@, kind, n as int);
        if first_of_kind is None {
            lemma_first_of_kind_skip(streams@, kind, n as int);
        }
    }
    first_of_kind
}

/// One transcode session as the sessions endpoint reports it. The server's
/// fractional quantities (percent complete, encoding speed) are carried in
/// hundredths.
#[derive(Debug, Clone, PartialEq, Eq)]
pub struct TranscodeSessionStats {
    /// The session key; equal to the client-generated session identifier.
    pub key: String,
    pub offline_transcode: bool,
    pub container: ContainerFormat,
    pub protocol: Protocol,
    pub complete: bool,
    pub error: bool,
    /// Percent complete, scaled to hundredths of a percent (0 to 10000).
    pub progress_hundredths: u32,
    /// The server's estimate of the seconds left until completion.
    pub remaining: Option<u32>,
    /// Encoding speed relative to playback speed, in hundredths.
    pub speed_hundredths: Option<u32>,
    pub video_decision: Option<Decision>,
    pub video_codec: Option<VideoCodec>,
    pub audio_decision: Option<Decision>,
    pub audio_codec: Option<AudioCodec>,
}

/// What polling a session reports.
#[derive(Debug, Clone, Copy, PartialEq, Eq)]
pub enum TranscodeStatus {
    Complete,
    Error,
    Transcoding { remaining: Option<u32>, progress_hundredths: u32 },
}

/// Maps one stats report to a session status: an error report wins, then
/// completion, else the transcode is still running with its progress.
pub fn status_from_stats(stats: &TranscodeSessionStats) -> (r: TranscodeStatus)
    ensures
        stats.error ==> r == TranscodeStatus::Error,
        !stats.error && stats.complete ==> r == TranscodeStatus::Complete,
        !stats.error && !stats.complete ==> r == (TranscodeStatus::Transcoding {
            remaining: stats.remaining,
            progress_hundredths: stats.progress_hundredths,
        }),
{
    if stats.error {
        TranscodeStatus::Error
    } else if stats.complete {
        TranscodeStatus::Complete
    } else {
        TranscodeStatus::Transcoding {
            remaining: stats.remaining,
            progress_hundredths: stats.progress_hundredths,
        }
    }
}

/// Maps a stats lookup outcome to the session's stats: a 404 means the
/// server recycled or expired the session, normalized to "item not found";
/// any other transport-level refusal passes through; an empty session list
/// is "item not found" too.
pub fn stats_result(outcome: Result<Vec<TranscodeSessionStats>, Error>) -> (r: Result<
    TranscodeSessionStats,
    Error,
>)
    ensures
        outcome matches Err(e) ==> (if e matches (Error::UnexpectedApiResponse {
            status_code: 404,
            ..
        }) {
            r == Err::<TranscodeSessionStats, Error>(Error::ItemNotFound)
        } else {
            r == Err::<TranscodeSessionStats, Error>(e)
        }),
        outcome matches Ok(list) ==> (if list@.len() > 0 {
            r == Ok::<TranscodeSessionStats, Error>(list@[0])
        } else {
            r == Err::<TranscodeSessionStats, Error>(Error::ItemNotFound)
        }),
{
    match outcome {
        Ok(mut list) => {
            if list.len() > 0 {
                let first = list.remove(0);
                Ok(first)
            } else {
                Err(Error::ItemNotFound)
            }
        },
        Err(Error::UnexpectedApiResponse { status_code, content }) => {
            if status_code == 404 {
                Err(Error::ItemNotFound)
            } else {
                Err(Error::UnexpectedApiResponse { status_code, content })
            }
        },
        Err(e) => Err(e),
    }
}

/// The file extension the session download asks for: the manifest extension
/// for streaming protocols, else the container's own.
pub open spec fn spec_download_extension(p: Protocol, c: ContainerFormat) -> Seq<char> {
    match p {
        Protocol::Dash => "mpd"@,
        Protocol::Hls => "m3u8"@,
        Protocol::Http => c.spec_name(),
    }
}

/// Maps an `Option` pair of decision and codec to the session's resolved
/// transcode pair, as the server's per-stream verdict fixes it.
pub open spec fn spec_zip_decision<C>(d: Option<Decision>, c: Option<C>) -> Option<(Decision, C)> {
    match (d, c) {
        (Some(d), Some(c)) => Some((d, c)),
        _ => None,
    }
}

/// The resolved video pair of a selected stream.
pub open spec fn spec_video_transcode_of(o: Option<Stream>) -> Option<(Decision, VideoCodec)> {
    match o {
        Some(Stream::Video(v)) => match v.decision {
            Some(d) => Some((d, v.codec)),
            None => None,
        },
        _ => None,
    }
}

/// The resolved audio pair of a selected stream.
pub open spec fn spec_audio_transcode_of(o: Option<Stream>) -> Option<(Decision, AudioCodec)> {
    match o {
        Some(Stream::Audio(a)) => match a.decision {
            Some(d) => Some((d, a.codec)),
            None => None,
        },
        _ => None,
    }
}

/// The first part at or after `i` that is flagged selected.
pub open spec fn first_selected_part_from(ps: Seq<Part>, i: int) -> Option<Part>
    decreases ps.len() - i,
{
    if i < 0 || i >= ps.len() {
        None
    } else if ps[i].selected == Some(true) {
        Some(ps[i])
    } else {
        first_selected_part_from(ps, i + 1)
    }
}

/// Whether a negotiated media carries a resolvable selected part with a
/// stream list.
pub open spec fn spec_media_resolvable(media: Media) -> bool {
    match first_selected_part_from(media.parts@, 0) {
        Some(p) => p.streams is Some,
        None => false,
    }
}

/// Whether a selected stream carries the per-stream decision the session
/// construction reads.
pub open spec fn spec_decision_present(o: Option<Stream>) -> bool {
    match o {
        Some(Stream::Video(v)) => v.decision is Some,
        Some(Stream::Audio(a)) => a.decision is Some,
        _ => true,
    }
}

/// What a session built from a negotiated media must look like: identity,
/// offline flag and resume query as given; container, protocol and the
/// resolved stream pairs as the media's selected part fixes them.
pub open spec fn spec_session_fields(
    s: TranscodeSession,
    id: Seq<char>,
    media: Media,
    offline: bool,
    params: Seq<(Seq<char>, Seq<char>)>,
) -> bool {
    match first_selected_part_from(media.parts@, 0) {
        Some(p) => match p.streams {
            Some(streams) => {
                &&& s.id@ == id
                &&& s.offline == offline
                &&& s.params@ == params
                &&& (media.container matches Some(c) && s.container == c)
                &&& s.protocol == (match media.protocol {
                    Some(pr) => pr,
                    None => Protocol::Http,
                })
                &&& s.video_transcode == spec_video_transcode_of(
                    spec_select_stream(streams@, StreamKind::Video),
                )
                &&& s.audio_transcode == spec_audio_transcode_of(
                    spec_select_stream(streams@, StreamKind::Audio),
                )
            },
            None => false,
        },
        None => false,
    }
}

/// The outcome session construction owes for a negotiated media: the fixed
/// session on a resolvable media, the protocol error otherwise.
pub open spec fn spec_session_result(
    r: Result<TranscodeSession, Error>,
    id: Seq<char>,
    media: Media,
    offline: bool,
    params: Seq<(Seq<char>, Seq<char>)>,
) -> bool {
    &&& (!spec_media_resolvable(media) ==> (r matches Err(e) && e matches Error::TranscodeError(t)
        && t@ == "Server returned unexpected response"@))
    &&& (spec_media_resolvable(media) ==> (r matches Ok(s) && spec_session_fields(
        s,
        id,
        media,
        offline,
        params,
    )))
}

/// The decision-present side conditions session construction needs of a
/// media, so that the server's per-stream verdict can be read off.
pub open spec fn spec_media_decisions_present(media: Media) -> bool {
    match first_selected_part_from(media.parts@, 0) {
        Some(p) => match p.streams {
            Some(streams) => media.container is Some && spec_decision_present(
                spec_select_stream(streams@, StreamKind::Video),
            ) && spec_decision_present(spec_select_stream(streams@, StreamKind::Audio)),
            None => true,
        },
        None => true,
    }
}

/// Decides [`spec_media_decisions_present`] at run time, so that an
/// unverified caller can test the side conditions of session construction
/// before calling it.
pub fn media_decisions_present(media: &Media) -> (r: bool)
    ensures
        r == spec_media_decisions_present(*media),
{
    let n = media.parts.len();
    let mut i: usize = 0;
    let mut found = false;
    while !found && i < n
        invariant
            i <= n,
            n == media.parts@.len(),
            !found ==> first_selected_part_from(media.parts@, 0) == first_selected_part_from(
                media.parts@,
                i as int,
            ),
            found ==> i < n && first_selected_part_from(media.parts@, 0) == Some(
                media.parts@[i as int],
            ),
        decreases n - i + (if found {
            0int
        } else {
            1int
        }),
    {
        let sel = media.parts[i].selected;
        let matched: bool = match sel {
            Some(true) => true,
            _ => false,
        };
        if matched {
            found = true;
        } else {
            i = i + 1;
        }
    }
    if !found {
        proof {
            assert(first_selected_part_from(media.parts@, n as int) is None);
        }
        return true;
    }
    let part = &media.parts[i];
    let streams: &Vec<Stream> = match &part.streams {
        Some(streams) => streams,
        None => {
            return true;
        },
    };
    if media.container.is_none() {
        return false;
    }
    let video_ok = match select_stream_index(streams, StreamKind::Video) {
        Some(ix) => match &streams[ix] {
            Stream::Video(v) => v.decision.is_some(),
            Stream::Audio(a) => a.decision.is_some(),
            Stream::Subtitle(_) => true,
        },
        None => true,
    };
    let audio_ok = match select_stream_index(streams, StreamKind::Audio) {
        Some(ix) => match &streams[ix] {
            Stream::Video(v) => v.decision.is_some(),
            Stream::Audio(a) => a.decision.is_some(),
            Stream::Subtitle(_) => true,
        },
        None => true,
    };
    video_ok && audio_ok
}

/// A negotiated transcode session: a stable client-generated identity, the
/// fixed negotiated rendition, and the query that resumes the session from
/// server state.
#[derive(Debug)]
pub struct TranscodeSession {
    pub id: String,
    pub offline: bool,
    pub protocol: Protocol,
    pub container: ContainerFormat,
    pub video_transcode: Option<(Decision, VideoCodec)>,
    pub audio_transcode: Option<(Decision, AudioCodec)>,
    pub params: Query,
}

impl TranscodeSession {
    /// Rebuilds a session from a stats report: once started, only the
    /// session key is needed to resume and download.
    pub fn from_stats(stats: TranscodeSessionStats) -> (s: TranscodeSession)
        ensures
            s.id@ == stats.key@,
            s.offline == stats.offline_transcode,
            s.container == stats.container,
            s.protocol == stats.protocol,
            s.video_transcode == spec_zip_decision(stats.video_decision, stats.video_codec),
            s.audio_transcode == spec_zip_decision(stats.audio_decision, stats.audio_codec),
            s.params@ == seq![("session"@, stats.key@)],
    {
        let key_copy = stats.key.clone();
        let params = Query::new().param_owned(String::from_str("session"), key_copy);
        proof {
            assert(params@ =~= seq![("session"@, stats.key@)]);
        }
        TranscodeSession {
            id: stats.key,
            offline: stats.offline_transcode,
            container: stats.container,
            protocol: stats.protocol,
            video_transcode: match (stats.video_decision, stats.video_codec) {
                (Some(d), Some(c)) => Some((d, c)),
                _ => None,
            },
            audio_transcode: match (stats.audio_decision, stats.audio_codec) {
                (Some(d), Some(c)) => Some((d, c)),
                _ => None,
            },
            params,
        }
    }

    /// Builds a session from the negotiated media: finds the selected part,
    /// then picks the selected (or first) video and audio streams with the
    /// server's per-stream decisions. A media without a selected part or
    /// stream list is the server breaking protocol.
    pub fn from_metadata(id: String, media: Media, offline: bool, params: Query) -> (r: Result<
        TranscodeSession,
        Error,
    >)
        requires
            spec_media_decisions_present(media),
        ensures
            spec_session_result(r, id@, media, offline, params@),
    {
        let n = media.parts.len();
        let mut i: usize = 0;
        let mut found = false;
        while !found && i < n
            invariant
                i <= n,
                n == media.parts@.len(),
                !found ==> first_selected_part_from(media.parts@, 0) == first_selected_part_from(
                    media.parts@,
                    i as int,
                ),
                found ==> i < n && first_selected_part_from(media.parts@, 0) == Some(
                    media.parts@[i as int],
                ),
            decreases n - i + (if found {
                0int
            } else {
                1int
            }),
        {
            let sel = media.parts[i].selected;
            let matched: bool = match sel {
                Some(true) => true,
                _ => false,
            };
            if matched {
                found = true;
            } else {
                i = i + 1;
            }
        }
        if !found {
            proof {
                assert(first_selected_part_from(media.parts@, n as int) is None);
            }
            return Err(Error::TranscodeError(
                String::from_str("Server returned unexpected response"),
            ));
        }
        let pi: usize = i;
        let part = &media.parts[pi];
        let streams: &Vec<Stream> = match &part.streams {
            Some(streams) => streams,
            None => {
                return Err(Error::TranscodeError(
                    String::from_str("Server returned unexpected response"),
                ));
            },
        };
        let video_transcode: Option<(Decision, VideoCodec)> = match select_stream_index(
            streams,
            StreamKind::Video,
        ) {
            Some(ix) => match &streams[ix] {
                Stream::Video(v) => match v.decision {
                    Some(d) => Some((d, v.codec)),
                    None => None,
                },
                _ => None,
            },
            None => None,
        };
        let audio_transcode: Option<(Decision, AudioCodec)> = match select_stream_index(
            streams,
            StreamKind::Audio,
        ) {
            Some(ix) => match &streams[ix] {
                Stream::Audio(a) => match a.decision {
                    Some(d) => Some((d, a.codec)),
                    None => None,
                },
                _ => None,
            },
            None => None,
        };
        let container = match media.container {
            Some(c) => c,
            None => vstd::pervasive::unreached(),
        };
        let protocol = match media.protocol {
            Some(pr) => pr,
            None => Protocol::Http,
        };
        Ok(TranscodeSession {
            id,
            offline,
            protocol,
            container,
            video_transcode,
            audio_transcode,
            params,
        })
    }

    /// The session ID allows for re-retrieving this session at a later
    /// date.
    pub fn session_id(&self) -> (r: &str)
        ensures
            r@ == self.id@,
    {
        self.id.as_str()
    }

    pub fn is_offline(&self) -> (r: bool)
        ensures
            r == self.offline,
    {
        self.offline
    }

    /// The selected protocol.
    pub fn protocol(&self) -> (r: Protocol)
        ensures
            r == self.protocol,
    {
        self.protocol
    }

    /// The selected container.
    pub fn container(&self) -> (r: ContainerFormat)
        ensures
            r == self.container,
    {
        self.container
    }

    /// The target video codec and the transcode decision.
    pub fn video_transcode(&self) -> (r: Option<(Decision, VideoCodec)>)
        ensures
            r == self.video_transcode,
    {
        self.video_transcode
    }

    /// The target audio codec and the transcode decision.
    pub fn audio_transcode(&self) -> (r: Option<(Decision, AudioCodec)>)
        ensures
            r == self.audio_transcode,
    {
        self.audio_transcode
    }

    /// The request that downloads the transcoded data: the session's resume
    /// query against the download endpoint, with the extension matching the
    /// protocol. For offline transcodes the transfer may idle while the
    /// server produces bytes, so the timeout is disabled.
    pub fn download_request(&self) -> (r: RequestBuilder)
        ensures
            r.method == Method::Get,
            r.path@ == "/video/:/transcode/universal/start."@ + spec_download_extension(
                self.protocol,
                self.container,
            ),
            r.query@ == self.params@,
            r.spec_headers() == Seq::<(Seq<char>, Seq<char>)>::empty(),
            r.body is None,
            r.timeout == (if self.offline {
                TimeoutPolicy::NoTimeout
            } else {
                TimeoutPolicy::DefaultTimeout
            }),
    {
        let mut path = String::from_str("/video/:/transcode/universal/start.");
        match self.protocol {
            Protocol::Dash => path.append("mpd"),
            Protocol::Hls => path.append("m3u8"),
            Protocol::Http => {
                let name = self.container.name();
                path.append(name);
            },
        }
        let r = RequestBuilder::new(Method::Get, path).with_query(self.params.duplicate());
        if self.offline {
            r.timeout(TimeoutPolicy::NoTimeout)
        } else {
            r
        }
    }

    /// The request that polls this session's stats.
    pub fn stats_request(&self) -> (r: RequestBuilder)
        ensures
            r.method == Method::Get,
            r.path@ == "/transcode/sessions/"@ + self.id@,
            r.query@ == Seq::<(Seq<char>, Seq<char>)>::empty(),
            r.spec_headers() == Seq::<(Seq<char>, Seq<char>)>::empty(),
            r.body is None,
            r.timeout == TimeoutPolicy::DefaultTimeout,
    {
        let mut path = String::from_str("/transcode/sessions/");
        path.append(self.id.as_str());
        RequestBuilder::new(Method::Get, path)
    }

    /// The request that cancels the transcode and removes transcoded data
    /// from the server.
    pub fn cancel_request(&self) -> (r: RequestBuilder)
        ensures
            r.method == Method::Get,
            r.path@ == "/video/:/transcode/universal/stop"@,
            r.query@ == seq![("session"@, self.id@)],
            r.spec_headers() == Seq::<(Seq<char>, Seq<char>)>::empty(),
            r.body is None,
            r.timeout == TimeoutPolicy::DefaultTimeout,
    {
        let id_copy = self.id.clone();
        let q = Query::new().param_owned(String::from_str("session"), id_copy);
        proof {
            assert(q@ =~= seq![("session"@, self.id@)]);
        }
        RequestBuilder::new(
            Method::Get,
            String::from_str("/video/:/transcode/universal/stop"),
        ).with_query(q)
    }
}

/// The request that negotiates a transcode decision: the full parameter
/// set against the decision endpoint, asking for a JSON answer.
pub fn decision_request(params: Query) -> (r: RequestBuilder)
    ensures
        r.method == Method::Get,
        r.path@ == "/video/:/transcode/universal/decision"@,
        r.query@ == params@,
        r.spec_headers() == seq![("Accept"@, "application/json"@)],
        r.body is None,
        r.timeout == TimeoutPolicy::DefaultTimeout,
{
    let r = RequestBuilder::new(
        Method::Get,
        String::from_str("/video/:/transcode/universal/decision"),
    ).with_query(params).header("Accept", "application/json");
    proof {
        assert(r.spec_headers() =~= seq![("Accept"@, "application/json"@)]);
    }
    r
}

/// The query of one session-creation negotiation: the full transcode
/// parameter set, the item's metadata key as `path`, and, for an offline
/// (`Static`) transcode, the `offlineTranscode` marker.
pub fn create_session_params(
    session_id: &str,
    context: Context,
    target_protocol: Protocol,
    media_index: Option<u32>,
    part_index: Option<u32>,
    options: &TranscodeOptions,
    metadata_key: &str,
) -> (q: Query)
    requires
        options.wf(),
    ensures
        q@ == crate::profile::spec_transcode_params(
            session_id@,
            context,
            target_protocol,
            media_index,
            part_index,
            *options,
        ).push(("path"@, metadata_key@)) + (if context == Context::Static {
            seq![("offlineTranscode"@, "1"@)]
        } else {
            Seq::<(Seq<char>, Seq<char>)>::empty()
        }),
{
    let mut q = crate::profile::get_transcode_params(
        session_id,
        context,
        target_protocol,
        media_index,
        part_index,
        options,
    ).param("path", metadata_key);
    let is_static = match context {
        Context::Static => true,
        Context::Streaming => false,
    };
    if is_static {
        q = q.param("offlineTranscode", "1");
    }
    proof {
        assert(q@ =~= crate::profile::spec_transcode_params(
            session_id@,
            context,
            target_protocol,
            media_index,
            part_index,
            *options,
        ).push(("path"@, metadata_key@)) + (if context == Context::Static {
            seq![("offlineTranscode"@, "1"@)]
        } else {
            Seq::<(Seq<char>, Seq<char>)>::empty()
        }));
    }
    q
}

/// Builds the session from the media the decision endpoint selected: a
/// media whose protocol differs from the requested one is the server
/// breaking protocol; otherwise the session is fixed by the selected part.
/// The session is offline exactly when the negotiation context was
/// `Static`.
pub fn create_session_from_media(
    id: String,
    target_protocol: Protocol,
    context: Context,
    media: Media,
    params: Query,
) -> (r: Result<TranscodeSession, Error>)
    requires
        spec_media_decisions_present(media),
    ensures
        (match media.protocol {
            Some(pr) => pr,
            None => Protocol::Http,
        }) != target_protocol ==> (r matches Err(e) && e matches Error::TranscodeError(t) && t@
            == "Server returned an invalid protocol."@),
        (match media.protocol {
            Some(pr) => pr,
            None => Protocol::Http,
        }) == target_protocol ==> spec_session_result(
            r,
            id@,
            media,
            context == Context::Static,
            params@,
        ),
{
    let actual = match media.protocol {
        Some(pr) => pr,
        None => Protocol::Http,
    };
    if actual != target_protocol {
        return Err(Error::TranscodeError(String::from_str("Server returned an invalid protocol.")));
    }
    let offline = match context {
        Context::Static => true,
        Context::Streaming => false,
    };
    TranscodeSession::from_metadata(id, media, offline, params)
}

/// Interprets the response of a session download: success is strictly
/// status 200; anything else is the generic protocol error.
pub fn download_outcome(status_code: u16, content: String) -> (r: Result<(), Error>)
    ensures
        status_code == 200 ==> r == Ok::<(), Error>(()),
        status_code != 200 ==> r == Err::<(), Error>(
            Error::UnexpectedApiResponse { status_code, content },
        ),
{
    if status_code == 200 {
        Ok(())
    } else {
        Err(Error::UnexpectedApiResponse { status_code, content })
    }
}

/// Interprets the response of a cancel request: the server sometimes
/// answers "not found" but still cancels the session, so 200 and 404 both
/// count as success.
pub fn cancel_outcome(status_code: u16, content: String) -> (r: Result<(), Error>)
    ensures
        (status_code == 200 || status_code == 404) ==> r == Ok::<(), Error>(()),
        !(status_code == 200 || status_code == 404) ==> r == Err::<(), Error>(
            Error::UnexpectedApiResponse { status_code, content },
        ),
{
    if status_code == 200 || status_code == 404 {
        Ok(())
    } else {
        Err(Error::UnexpectedApiResponse { status_code, content })
    }
}

} // verus!
