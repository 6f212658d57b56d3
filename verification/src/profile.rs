//! The profile encoder: serializes abstract transcode preferences into the
//! server's client-profile mini-language (ordered `add-transcode-target` /
//! `add-direct-play-profile` clauses) and into flat query parameters.
//!
//! The server treats the first matching transcode target as preferred, so
//! the encoder emits exactly one target per (container, codec) combination,
//! in the order the caller listed its preferences, and one direct-play
//! profile matching the first combination.

use vstd::prelude::*;
use vstd::string::StringExecFns;
use crate::media::{AudioCodec, ContainerFormat, Protocol, VideoCodec};
use crate::query::Query;
use crate::text::{push_char, spec_dec, u32_to_string};

verus! {

/// The negotiation context: a live streaming session, or a persistent
/// offline transcode (`Static`) for later download.
#[derive(Debug, Clone, Copy, PartialEq, Eq, Structural)]
pub enum Context {
    Streaming,
    Static,
}

impl Context {
    pub open spec fn spec_name(self) -> Seq<char> {
        match self {
            Context::Streaming => "streaming"@,
            Context::Static => "static"@,
        }
    }

    /// The context's name on the wire.
    pub fn name(&self) -> (r: &'static str)
        ensures
            r@ == self.spec_name(),
    {
        match self {
            Context::Streaming => "streaming",
            Context::Static => "static",
        }
    }
}

/// How the encoder asks the server to handle subtitle streams.
#[derive(Debug, Clone, Copy, PartialEq, Eq, Structural)]
pub enum SubtitleMode {
    Omit,
    Burn,
}

impl SubtitleMode {
    pub open spec fn spec_name(self) -> Seq<char> {
        match self {
            SubtitleMode::Omit => "none"@,
            SubtitleMode::Burn => "burn"@,
        }
    }

    /// The mode's name on the wire.
    pub fn name(&self) -> (r: &'static str)
        ensures
            r@ == self.spec_name(),
    {
        match self {
            SubtitleMode::Omit => "none",
            SubtitleMode::Burn => "burn",
        }
    }
}

/// Transcode preferences for a video item.
#[derive(Debug, Clone, PartialEq, Eq)]
pub struct VideoTranscodeOptions {
    /// Target bitrate in kbps.
    pub bitrate: u32,
    pub width: u32,
    pub height: u32,
    pub subtitles: SubtitleMode,
    /// Acceptable container formats, most preferred first. Must not be empty.
    pub containers: Vec<ContainerFormat>,
    /// Acceptable video codecs, most preferred first. Must not be empty.
    pub video_codecs: Vec<VideoCodec>,
    /// Acceptable audio codecs, most preferred first. Must not be empty.
    pub audio_codecs: Vec<AudioCodec>,
}

impl Default for VideoTranscodeOptions {
    /// A 720p MP4/H.264/AAC preference at 2000 kbps with subtitles omitted.
    fn default() -> (r: VideoTranscodeOptions)
        ensures
            r.bitrate == 2000,
            r.width == 1280,
            r.height == 720,
            r.subtitles == SubtitleMode::Omit,
            r.containers@ == seq![ContainerFormat::Mp4],
            r.video_codecs@ == seq![VideoCodec::H264],
            r.audio_codecs@ == seq![AudioCodec::Aac],
    {
        let mut containers: Vec<ContainerFormat> = Vec::new();
        containers.push(ContainerFormat::Mp4);
        let mut video_codecs: Vec<VideoCodec> = Vec::new();
        video_codecs.push(VideoCodec::H264);
        let mut audio_codecs: Vec<AudioCodec> = Vec::new();
        audio_codecs.push(AudioCodec::Aac);
        proof {
            assert(containers@ =~= seq![ContainerFormat::Mp4]);
            assert(video_codecs@ =~= seq![VideoCodec::H264]);
            assert(audio_codecs@ =~= seq![AudioCodec::Aac]);
        }
        VideoTranscodeOptions {
            bitrate: 2000,
            width: 1280,
            height: 720,
            subtitles: SubtitleMode::Omit,
            containers,
            video_codecs,
            audio_codecs,
        }
    }
}

/// Transcode preferences for a music item.
#[derive(Debug, Clone, PartialEq, Eq)]
pub struct MusicTranscodeOptions {
    /// Target bitrate in kbps.
    pub bitrate: u32,
    /// Acceptable container formats, most preferred first. Must not be empty.
    pub containers: Vec<ContainerFormat>,
    /// Acceptable audio codecs, most preferred first. Must not be empty.
    pub codecs: Vec<AudioCodec>,
}

impl Default for MusicTranscodeOptions {
    /// An MP3 preference at 192 kbps.
    fn default() -> (r: MusicTranscodeOptions)
        ensures
            r.bitrate == 192,
            r.containers@ == seq![ContainerFormat::Mp3],
            r.codecs@ == seq![AudioCodec::Mp3],
    {
        let mut containers: Vec<ContainerFormat> = Vec::new();
        containers.push(ContainerFormat::Mp3);
        let mut codecs: Vec<AudioCodec> = Vec::new();
        codecs.push(AudioCodec::Mp3);
        proof {
            assert(containers@ =~= seq![ContainerFormat::Mp3]);
            assert(codecs@ =~= seq![AudioCodec::Mp3]);
        }
        MusicTranscodeOptions { bitrate: 192, containers, codecs }
    }
}

/// The caller's transcode preferences; consumed to build one profile.
#[derive(Debug, Clone, PartialEq, Eq)]
pub enum TranscodeOptions {
    Video(VideoTranscodeOptions),
    Music(MusicTranscodeOptions),
}

impl TranscodeOptions {
    /// Well-formedness of the preference lists: the server needs at least
    /// one (container, codec) combination to negotiate over.
    pub open spec fn wf(self) -> bool {
        match self {
            TranscodeOptions::Video(o) => o.containers@.len() > 0 && o.video_codecs@.len() > 0
                && o.audio_codecs@.len() > 0,
            TranscodeOptions::Music(o) => o.containers@.len() > 0 && o.codecs@.len() > 0,
        }
    }
}

/// All (container, codec) combinations, containers outermost, both in the
/// caller's preference order.
pub open spec fn spec_pairs<A, B>(xs: Seq<A>, ys: Seq<B>) -> Seq<(A, B)>
    decreases xs.len(),
{
    if xs.len() == 0 {
        Seq::empty()
    } else {
        spec_pairs(xs.drop_last(), ys) + ys.map_values(|y: B| (xs.last(), y))
    }
}

/// The number of combinations is the product of the list lengths.
pub proof fn lemma_pairs_len<A, B>(xs: Seq<A>, ys: Seq<B>)
    ensures
        spec_pairs(xs, ys).len() == xs.len() * ys.len(),
    decreases xs.len(),
{
    if xs.len() == 0 {
    } else {
        lemma_pairs_len(xs.drop_last(), ys);
        assert((xs.len() - 1) * ys.len() + ys.len() == xs.len() * ys.len()) by (nonlinear_arith);
    }
}

/// Combination `i * ys.len() + j` is `(xs[i], ys[j])`: the flattened list
/// enumerates the preference lists in lexicographic order.
pub proof fn lemma_pairs_index<A, B>(xs: Seq<A>, ys: Seq<B>, i: int, j: int)
    requires
        0 <= i < xs.len(),
        0 <= j < ys.len(),
    ensures
        spec_pairs(xs, ys).len() == xs.len() * ys.len(),
        spec_pairs(xs, ys)[i * ys.len() + j] == (xs[i], ys[j]),
    decreases xs.len(),
{
    lemma_pairs_len(xs, ys);
    lemma_pairs_len(xs.drop_last(), ys);
    if i == xs.len() - 1 {
        assert(i * ys.len() + j - (xs.len() - 1) * ys.len() == j) by (nonlinear_arith)
            requires
                i == xs.len() - 1,
        ;
        assert(spec_pairs(xs, ys)[i * ys.len() + j] == ys.map_values(|y: B| (xs.last(), y))[j]);
    } else {
        lemma_pairs_index(xs.drop_last(), ys, i, j);
        assert(i * ys.len() + j < (xs.len() - 1) * ys.len()) by (nonlinear_arith)
            requires
                0 <= i < xs.len() - 1,
                0 <= j < ys.len(),
        ;
        assert(xs.drop_last()[i] == xs[i]);
    }
}

/// Enumerates all (x, y) combinations, x outermost.
fn cross_pairs<A: Copy, B: Copy>(xs: &Vec<A>, ys: &Vec<B>) -> (r: Vec<(A, B)>)
    ensures
        r@ == spec_pairs(xs@, ys@),
{
    let mut r: Vec<(A, B)> = Vec::new();
    let n = xs.len();
    let m = ys.len();
    let mut i: usize = 0;
    while i < n
        invariant
            i <= n,
            n == xs@.len(),
            m == ys@.len(),
            r@ =~= spec_pairs(xs@.subrange(0, i as int), ys@),
        decreases n - i,
    {
        let x = xs[i];
        let mut j: usize = 0;
        while j < m
            invariant
                j <= m,
                i < n,
                n == xs@.len(),
                m == ys@.len(),
                x == xs@[i as int],
                r@ =~= spec_pairs(xs@.subrange(0, i as int), ys@) + ys@.subrange(
                    0,
                    j as int,
                ).map_values(|y: B| (xs@[i as int], y)),
            decreases m - j,
        {
            r.push((x, ys[j]));
            proof {
                assert(ys@.subrange(0, j + 1 as int).map_values(|y: B| (xs@[i as int], y)) =~= ys@
                    .subrange(0, j as int).map_values(|y: B| (xs@[i as int], y)).push(
                    (xs@[i as int], ys@[j as int]),
                ));
            }
            j = j + 1;
        }
        proof {
            let sub1 = xs@.subrange(0, i + 1 as int);
            assert(sub1.drop_last() =~= xs@.subrange(0, i as int));
            assert(sub1.last() == xs@[i as int]);
            assert(ys@.subrange(0, m as int) =~= ys@);
            assert(r@ =~= spec_pairs(sub1, ys@));
        }
        i = i + 1;
    }
    proof {
        assert(xs@.subrange(0, n as int) =~= xs@);
    }
    r
}

/// One clause of the client-profile mini-language: a name and an ordered
/// list of key=value attributes.
#[derive(Debug, Clone, PartialEq, Eq)]
pub struct Directive {
    pub name: String,
    pub attributes: Vec<(String, String)>,
}

impl View for Directive {
    type V = (Seq<char>, Seq<(Seq<char>, Seq<char>)>);

    open spec fn view(&self) -> (Seq<char>, Seq<(Seq<char>, Seq<char>)>) {
        (
            self.name@,
            Seq::new(
                self.attributes@.len(),
                |i: int| (self.attributes@[i].0@, self.attributes@[i].1@),
            ),
        )
    }
}

/// The comma-joined audio codec list attribute value.
pub open spec fn spec_audio_codec_list(cs: Seq<AudioCodec>) -> Seq<char>
    decreases cs.len(),
{
    if cs.len() == 0 {
        Seq::empty()
    } else if cs.len() == 1 {
        cs[0].spec_name()
    } else {
        spec_audio_codec_list(cs.drop_last()) + seq![','] + cs.last().spec_name()
    }
}

/// Renders the comma-joined audio codec list.
fn audio_codec_list(cs: &Vec<AudioCodec>) -> (s: String)
    ensures
        s@ == spec_audio_codec_list(cs@),
{
    let mut s = String::new();
    let n = cs.len();
    let mut i: usize = 0;
    while i < n
        invariant
            i <= n,
            n == cs@.len(),
            s@ =~= spec_audio_codec_list(cs@.subrange(0, i as int)),
        decreases n - i,
    {
        proof {
            assert(cs@.subrange(0, i + 1 as int).drop_last() =~= cs@.subrange(0, i as int));
            assert(cs@.subrange(0, i + 1 as int).last() == cs@[i as int]);
        }
        if i > 0 {
            push_char(&mut s, ',');
        }
        let name = cs[i].name();
        s.append(name);
        i = i + 1;
    }
    proof {
        assert(cs@.subrange(0, n as int) =~= cs@);
    }
    s
}

/// The `add-transcode-target` clause for one video combination.
pub open spec fn spec_video_target(
    c: ContainerFormat,
    v: VideoCodec,
    audio: Seq<char>,
    ctx: Context,
    proto: Protocol,
) -> (Seq<char>, Seq<(Seq<char>, Seq<char>)>) {
    (
        "add-transcode-target"@,
        seq![
            ("type"@, "videoProfile"@),
            ("context"@, ctx.spec_name()),
            ("protocol"@, proto.spec_name()),
            ("container"@, c.spec_name()),
            ("videoCodec"@, v.spec_name()),
            ("audioCodec"@, audio),
            ("subtitleCodec"@, ""@),
            ("replace"@, "true"@),
        ],
    )
}

/// The `add-direct-play-profile` clause for one video combination.
pub open spec fn spec_video_direct_play(
    c: ContainerFormat,
    v: VideoCodec,
    audio: Seq<char>,
) -> (Seq<char>, Seq<(Seq<char>, Seq<char>)>) {
    (
        "add-direct-play-profile"@,
        seq![
            ("type"@, "videoProfile"@),
            ("container"@, c.spec_name()),
            ("videoCodec"@, v.spec_name()),
            ("audioCodec"@, audio),
            ("subtitleCodec"@, ""@),
            ("replace"@, "true"@),
        ],
    )
}

/// The `add-transcode-target` clause for one music combination.
pub open spec fn spec_music_target(
    c: ContainerFormat,
    k: AudioCodec,
    ctx: Context,
    proto: Protocol,
) -> (Seq<char>, Seq<(Seq<char>, Seq<char>)>) {
    (
        "add-transcode-target"@,
        seq![
            ("type"@, "musicProfile"@),
            ("context"@, ctx.spec_name()),
            ("protocol"@, proto.spec_name()),
            ("container"@, c.spec_name()),
            ("audioCodec"@, k.spec_name()),
            ("replace"@, "true"@),
        ],
    )
}

/// The `add-direct-play-profile` clause for one music combination.
pub open spec fn spec_music_direct_play(c: ContainerFormat, k: AudioCodec) -> (
    Seq<char>,
    Seq<(Seq<char>, Seq<char>)>,
) {
    (
        "add-direct-play-profile"@,
        seq![
            ("type"@, "musicProfile"@),
            ("container"@, c.spec_name()),
            ("audioCodec"@, k.spec_name()),
            ("replace"@, "true"@),
        ],
    )
}

/// The full clause sequence for a set of preferences: one transcode target
/// per (container, codec) combination in preference order, with the
/// direct-play profile of the first combination inserted right after the
/// first target.
pub open spec fn spec_profile_directives(
    o: TranscodeOptions,
    ctx: Context,
    proto: Protocol,
) -> Seq<(Seq<char>, Seq<(Seq<char>, Seq<char>)>)>
    recommends
        o.wf(),
{
    match o {
        TranscodeOptions::Video(o) => {
            let audio = spec_audio_codec_list(o.audio_codecs@);
            let ps = spec_pairs(o.containers@, o.video_codecs@);
            let targets = ps.map_values(
                |p: (ContainerFormat, VideoCodec)| spec_video_target(p.0, p.1, audio, ctx, proto),
            );
            if ps.len() == 0 {
                Seq::empty()
            } else {
                seq![targets[0], spec_video_direct_play(ps[0].0, ps[0].1, audio)]
                    + targets.drop_first()
            }
        },
        TranscodeOptions::Music(o) => {
            let ps = spec_pairs(o.containers@, o.codecs@);
            let targets = ps.map_values(
                |p: (ContainerFormat, AudioCodec)| spec_music_target(p.0, p.1, ctx, proto),
            );
            if ps.len() == 0 {
                Seq::empty()
            } else {
                seq![targets[0], spec_music_direct_play(ps[0].0, ps[0].1)] + targets.drop_first()
            }
        },
    }
}

fn push_attr(attrs: &mut Vec<(String, String)>, key: &str, value: &str)
    ensures
        final(attrs)@.len() == old(attrs)@.len() + 1,
        final(attrs)@[old(attrs)@.len() as int].0@ == key@,
        final(attrs)@[old(attrs)@.len() as int].1@ == value@,
        forall|i: int| 0 <= i < old(attrs)@.len() ==> final(attrs)@[i] == old(attrs)@[i],
{
    attrs.push((key.to_owned(), value.to_owned()));
}

fn video_target_directive(
    c: ContainerFormat,
    v: VideoCodec,
    audio: &String,
    ctx: Context,
    proto: Protocol,
) -> (d: Directive)
    ensures
        d@ == spec_video_target(c, v, audio@, ctx, proto),
{
    let mut attrs: Vec<(String, String)> = Vec::new();
    push_attr(&mut attrs, "type", "videoProfile");
    push_attr(&mut attrs, "context", ctx.name());
    push_attr(&mut attrs, "protocol", proto.name());
    push_attr(&mut attrs, "container", c.name());
    push_attr(&mut attrs, "videoCodec", v.name());
    push_attr(&mut attrs, "audioCodec", audio.as_str());
    push_attr(&mut attrs, "subtitleCodec", "");
    push_attr(&mut attrs, "replace", "true");
    let d = Directive { name: String::from_str("add-transcode-target"), attributes: attrs };
    proof {
        assert(d@.1 =~= spec_video_target(c, v, audio@, ctx, proto).1);
    }
    d
}

fn video_direct_play_directive(c: ContainerFormat, v: VideoCodec, audio: &String) -> (d: Directive)
    ensures
        d@ == spec_video_direct_play(c, v, audio@),
{
    let mut attrs: Vec<(String, String)> = Vec::new();
    push_attr(&mut attrs, "type", "videoProfile");
    push_attr(&mut attrs, "container", c.name());
    push_attr(&mut attrs, "videoCodec", v.name());
    push_attr(&mut attrs, "audioCodec", audio.as_str());
    push_attr(&mut attrs, "subtitleCodec", "");
    push_attr(&mut attrs, "replace", "true");
    let d = Directive { name: String::from_str("add-direct-play-profile"), attributes: attrs };
    proof {
        assert(d@.1 =~= spec_video_direct_play(c, v, audio@).1);
    }
    d
}

fn music_target_directive(c: ContainerFormat, k: AudioCodec, ctx: Context, proto: Protocol) -> (d:
    Directive)
    ensures
        d@ == spec_music_target(c, k, ctx, proto),
{
    let mut attrs: Vec<(String, String)> = Vec::new();
    push_attr(&mut attrs, "type", "musicProfile");
    push_attr(&mut attrs, "context", ctx.name());
    push_attr(&mut attrs, "protocol", proto.name());
    push_attr(&mut attrs, "container", c.name());
    push_attr(&mut attrs, "audioCodec", k.name());
    push_attr(&mut attrs, "replace", "true");
    let d = Directive { name: String::from_str("add-transcode-target"), attributes: attrs };
    proof {
        assert(d@.1 =~= spec_music_target(c, k, ctx, proto).1);
    }
    d
}

fn music_direct_play_directive(c: ContainerFormat, k: AudioCodec) -> (d: Directive)
    ensures
        d@ == spec_music_direct_play(c, k),
{
    let mut attrs: Vec<(String, String)> = Vec::new();
    push_attr(&mut attrs, "type", "musicProfile");
    push_attr(&mut attrs, "container", c.name());
    push_attr(&mut attrs, "audioCodec", k.name());
    push_attr(&mut attrs, "replace", "true");
    let d = Directive { name: String::from_str("add-direct-play-profile"), attributes: attrs };
    proof {
        assert(d@.1 =~= spec_music_direct_play(c, k).1);
    }
    d
}

/// The directive views of a directive list.
pub open spec fn directives_view(ds: Seq<Directive>) -> Seq<
    (Seq<char>, Seq<(Seq<char>, Seq<char>)>),
> {
    ds.map_values(|d: Directive| d@)
}

/// Builds the profile clause sequence for the given preferences.
pub fn profile_directives(o: &TranscodeOptions, ctx: Context, proto: Protocol) -> (r: Vec<
    Directive,
>)
    requires
        o.wf(),
    ensures
        directives_view(r@) == spec_profile_directives(*o, ctx, proto),
{
    let mut r: Vec<Directive> = Vec::new();
    match o {
        TranscodeOptions::Video(opts) => {
            let audio = audio_codec_list(&opts.audio_codecs);
            let pairs = cross_pairs(&opts.containers, &opts.video_codecs);
            proof {
                lemma_pairs_len(opts.containers@, opts.video_codecs@);
                assert(opts.containers@.len() * opts.video_codecs@.len() > 0) by (nonlinear_arith)
                    requires
                        opts.containers@.len() > 0,
                        opts.video_codecs@.len() > 0,
                ;
            }
            let ghost ps = spec_pairs(opts.containers@, opts.video_codecs@);
            let ghost targets = ps.map_values(
                |p: (ContainerFormat, VideoCodec)| spec_video_target(
                    p.0,
                    p.1,
                    audio@,
                    ctx,
                    proto,
                ),
            );
            let n = pairs.len();
            let first = pairs[0];
            let d0 = video_target_directive(first.0, first.1, &audio, ctx, proto);
            r.push(d0);
            let dp = video_direct_play_directive(first.0, first.1, &audio);
            r.push(dp);
            let mut i: usize = 1;
            while i < n
                invariant
                    1 <= i <= n,
                    n == ps.len(),
                    targets == ps.map_values(
                        |p: (ContainerFormat, VideoCodec)| spec_video_target(
                            p.0,
                            p.1,
                            audio@,
                            ctx,
                            proto,
                        ),
                    ),
                    pairs@ == ps,
                    directives_view(r@) =~= seq![
                        targets[0],
                        spec_video_direct_play(ps[0].0, ps[0].1, audio@),
                    ] + targets.subrange(1, i as int),
                decreases n - i,
            {
                let p = pairs[i];
                let d = video_target_directive(p.0, p.1, &audio, ctx, proto);
                let ghost prev = r@;
                r.push(d);
                proof {
                    assert(directives_view(r@) =~= directives_view(prev).push(d@));
                    assert(d@ == targets[i as int]);
                    assert(targets.subrange(1, i + 1 as int) =~= targets.subrange(1, i as int).push(
                        targets[i as int],
                    ));
                    assert(directives_view(r@) =~= seq![
                        targets[0],
                        spec_video_direct_play(ps[0].0, ps[0].1, audio@),
                    ] + targets.subrange(1, i + 1 as int));
                }
                i = i + 1;
            }
            proof {
                assert(targets.subrange(1, n as int) =~= targets.drop_first());
            }
        },
        TranscodeOptions::Music(opts) => {
            let pairs = cross_pairs(&opts.containers, &opts.codecs);
            proof {
                lemma_pairs_len(opts.containers@, opts.codecs@);
                assert(opts.containers@.len() * opts.codecs@.len() > 0) by (nonlinear_arith)
                    requires
                        opts.containers@.len() > 0,
                        opts.codecs@.len() > 0,
                ;
            }
            let ghost ps = spec_pairs(opts.containers@, opts.codecs@);
            let ghost targets = ps.map_values(
                |p: (ContainerFormat, AudioCodec)| spec_music_target(p.0, p.1, ctx, proto),
            );
            let n = pairs.len();
            let first = pairs[0];
            let d0 = music_target_directive(first.0, first.1, ctx, proto);
            r.push(d0);
            let dp = music_direct_play_directive(first.0, first.1);
            r.push(dp);
            let mut i: usize = 1;
            while i < n
                invariant
                    1 <= i <= n,
                    n == ps.len(),
                    targets == ps.map_values(
                        |p: (ContainerFormat, AudioCodec)| spec_music_target(p.0, p.1, ctx, proto),
                    ),
                    pairs@ == ps,
                    directives_view(r@) =~= seq![
                        targets[0],
                        spec_music_direct_play(ps[0].0, ps[0].1),
                    ] + targets.subrange(1, i as int),
                decreases n - i,
            {
                let p = pairs[i];
                let d = music_target_directive(p.0, p.1, ctx, proto);
                let ghost prev = r@;
                r.push(d);
                proof {
                    assert(directives_view(r@) =~= directives_view(prev).push(d@));
                    assert(d@ == targets[i as int]);
                    assert(targets.subrange(1, i + 1 as int) =~= targets.subrange(1, i as int).push(
                        targets[i as int],
                    ));
                    assert(directives_view(r@) =~= seq![
                        targets[0],
                        spec_music_direct_play(ps[0].0, ps[0].1),
                    ] + targets.subrange(1, i + 1 as int));
                }
                i = i + 1;
            }
            proof {
                assert(targets.subrange(1, n as int) =~= targets.drop_first());
            }
        },
    }
    r
}

/// The wire form of a directive's attribute list: raw `key=value` pairs
/// joined with `&`. Escaping happens only once, when the whole profile
/// string becomes a query parameter value.
pub open spec fn spec_attr_string(attrs: Seq<(Seq<char>, Seq<char>)>) -> Seq<char>
    decreases attrs.len(),
{
    if attrs.len() == 0 {
        Seq::empty()
    } else if attrs.len() == 1 {
        attrs[0].0 + seq!['='] + attrs[0].1
    } else {
        spec_attr_string(attrs.drop_last()) + seq!['&'] + attrs.last().0 + seq!['=']
            + attrs.last().1
    }
}

/// The wire form of one directive: `name(attributes)`.
pub open spec fn spec_directive_string(d: (Seq<char>, Seq<(Seq<char>, Seq<char>)>)) -> Seq<char> {
    d.0 + seq!['('] + spec_attr_string(d.1) + seq![')']
}

/// The wire form of a directive sequence: directives joined with `+`.
pub open spec fn spec_profile_string(ds: Seq<(Seq<char>, Seq<(Seq<char>, Seq<char>)>)>) -> Seq<
    char,
>
    decreases ds.len(),
{
    if ds.len() == 0 {
        Seq::empty()
    } else if ds.len() == 1 {
        spec_directive_string(ds[0])
    } else {
        spec_profile_string(ds.drop_last()) + seq!['+'] + spec_directive_string(ds.last())
    }
}

fn append_attrs(out: &mut String, attrs: &Vec<(String, String)>)
    ensures
        final(out)@ == old(out)@ + spec_attr_string(
            Seq::new(attrs@.len(), |i: int| (attrs@[i].0@, attrs@[i].1@)),
        ),
{
    let ghost av = Seq::new(attrs@.len(), |i: int| (attrs@[i].0@, attrs@[i].1@));
    let n = attrs.len();
    let mut i: usize = 0;
    while i < n
        invariant
            i <= n,
            n == attrs@.len(),
            av == Seq::new(attrs@.len(), |k: int| (attrs@[k].0@, attrs@[k].1@)),
            out@ =~= old(out)@ + spec_attr_string(av.subrange(0, i as int)),
        decreases n - i,
    {
        proof {
            assert(av.subrange(0, i + 1 as int).drop_last() =~= av.subrange(0, i as int));
            assert(av.subrange(0, i + 1 as int).last() == av[i as int]);
        }
        if i > 0 {
            push_char(out, '&');
        }
        let k = attrs[i].0.as_str();
        out.append(k);
        push_char(out, '=');
        let v = attrs[i].1.as_str();
        out.append(v);
        i = i + 1;
    }
    proof {
        assert(av.subrange(0, n as int) =~= av);
    }
}

/// Serializes a directive sequence to its wire string.
pub fn serialize_directives(ds: &Vec<Directive>) -> (s: String)
    ensures
        s@ == spec_profile_string(directives_view(ds@)),
{
    let ghost dv = directives_view(ds@);
    let mut s = String::new();
    let n = ds.len();
    let mut i: usize = 0;
    while i < n
        invariant
            i <= n,
            n == ds@.len(),
            dv == directives_view(ds@),
            s@ =~= spec_profile_string(dv.subrange(0, i as int)),
        decreases n - i,
    {
        proof {
            assert(dv.subrange(0, i + 1 as int).drop_last() =~= dv.subrange(0, i as int));
            assert(dv.subrange(0, i + 1 as int).last() == dv[i as int]);
        }
        if i > 0 {
            push_char(&mut s, '+');
        }
        let name = ds[i].name.as_str();
        s.append(name);
        push_char(&mut s, '(');
        append_attrs(&mut s, &ds[i].attributes);
        push_char(&mut s, ')');
        proof {
            assert(dv[i as int] == ds@[i as int]@);
            assert(s@ =~= spec_profile_string(dv.subrange(0, i + 1 as int)));
        }
        i = i + 1;
    }
    proof {
        assert(dv.subrange(0, n as int) =~= dv);
    }
    s
}

/// The `transcodeType` parameter value for a preference variant.
pub open spec fn spec_transcode_type(o: TranscodeOptions) -> Seq<char> {
    match o {
        TranscodeOptions::Video(_) => "video"@,
        TranscodeOptions::Music(_) => "music"@,
    }
}

/// The full, ordered query-parameter set of one negotiation request.
pub open spec fn spec_transcode_params(
    sid: Seq<char>,
    ctx: Context,
    proto: Protocol,
    media_index: Option<u32>,
    part_index: Option<u32>,
    o: TranscodeOptions,
) -> Seq<(Seq<char>, Seq<char>)>
    recommends
        o.wf(),
{
    let base = seq![
        ("session"@, sid),
        ("transcodeSessionId"@, sid),
        ("transcodeType"@, spec_transcode_type(o)),
        ("protocol"@, proto.spec_name()),
        ("context"@, ctx.spec_name()),
        ("directPlay"@, "0"@),
        ("directStream"@, "1"@),
        ("directStreamAudio"@, "1"@),
    ];
    let mi = match media_index {
        Some(m) => seq![("mediaIndex"@, spec_dec(m as nat))],
        None => Seq::<(Seq<char>, Seq<char>)>::empty(),
    };
    let pi = match part_index {
        Some(p) => seq![("partIndex"@, spec_dec(p as nat))],
        None => Seq::<(Seq<char>, Seq<char>)>::empty(),
    };
    let opts = match o {
        TranscodeOptions::Video(v) => seq![
            ("videoBitrate"@, spec_dec(v.bitrate as nat)),
            ("maxVideoBitrate"@, spec_dec(v.bitrate as nat)),
            (
                "videoResolution"@,
                spec_dec(v.width as nat) + seq!['x'] + spec_dec(v.height as nat),
            ),
            ("subtitles"@, v.subtitles.spec_name()),
            ("subtitleSize"@, "100"@),
        ],
        TranscodeOptions::Music(m) => seq![("musicBitrate"@, spec_dec(m.bitrate as nat))],
    };
    base + mi + pi + opts + seq![
        (
            "X-Plex-Client-Profile-Extra"@,
            spec_profile_string(spec_profile_directives(o, ctx, proto)),
        ),
    ]
}

/// Builds the ordered query-parameter set for one negotiation request:
/// session identity, negotiation switches, the numeric bounds as top-level
/// parameters, and the embedded client-profile directive string.
///
/// Encoding is pure and total over well-formed preferences; empty
/// container or codec lists are a caller contract violation.
pub fn get_transcode_params(
    session_id: &str,
    context: Context,
    protocol: Protocol,
    media_index: Option<u32>,
    part_index: Option<u32>,
    options: &TranscodeOptions,
) -> (q: Query)
    requires
        options.wf(),
    ensures
        q@ == spec_transcode_params(
            session_id@,
            context,
            protocol,
            media_index,
            part_index,
            *options,
        ),
{
    let ghost base = seq![
        ("session"@, session_id@),
        ("transcodeSessionId"@, session_id@),
        ("transcodeType"@, spec_transcode_type(*options)),
        ("protocol"@, protocol.spec_name()),
        ("context"@, context.spec_name()),
        ("directPlay"@, "0"@),
        ("directStream"@, "1"@),
        ("directStreamAudio"@, "1"@),
    ];
    let ghost mi_part = (match media_index {
        Some(m) => seq![("mediaIndex"@, spec_dec(m as nat))],
        None => Seq::<(Seq<char>, Seq<char>)>::empty(),
    });
    let ghost pi_part = (match part_index {
        Some(p) => seq![("partIndex"@, spec_dec(p as nat))],
        None => Seq::<(Seq<char>, Seq<char>)>::empty(),
    });
    let ghost opt_part = (match options {
        TranscodeOptions::Video(v) => seq![
            ("videoBitrate"@, spec_dec(v.bitrate as nat)),
            ("maxVideoBitrate"@, spec_dec(v.bitrate as nat)),
            (
                "videoResolution"@,
                spec_dec(v.width as nat) + seq!['x'] + spec_dec(v.height as nat),
            ),
            ("subtitles"@, v.subtitles.spec_name()),
            ("subtitleSize"@, "100"@),
        ],
        TranscodeOptions::Music(m) => seq![("musicBitrate"@, spec_dec(m.bitrate as nat))],
    });
    let tt: &'static str = match options {
        TranscodeOptions::Video(_) => "video",
        TranscodeOptions::Music(_) => "music",
    };
    let mut q = Query::new()
        .param("session", session_id)
        .param("transcodeSessionId", session_id)
        .param("transcodeType", tt)
        .param("protocol", protocol.name())
        .param("context", context.name())
        .param("directPlay", "0")
        .param("directStream", "1")
        .param("directStreamAudio", "1");
    proof {
        assert(q@ =~= base);
    }
    match media_index {
        Some(m) => {
            q = q.param_owned(String::from_str("mediaIndex"), u32_to_string(m));
        },
        None => {},
    }
    proof {
        assert(q@ =~= base + mi_part);
    }
    match part_index {
        Some(p) => {
            q = q.param_owned(String::from_str("partIndex"), u32_to_string(p));
        },
        None => {},
    }
    proof {
        assert(q@ =~= base + mi_part + pi_part);
    }
    match options {
        TranscodeOptions::Video(v) => {
            q = q.param_owned(String::from_str("videoBitrate"), u32_to_string(v.bitrate));
            q = q.param_owned(String::from_str("maxVideoBitrate"), u32_to_string(v.bitrate));
            let mut res = u32_to_string(v.width);
            push_char(&mut res, 'x');
            let h = u32_to_string(v.height);
            res.append(h.as_str());
            proof {
                assert(res@ =~= spec_dec(v.width as nat) + seq!['x'] + spec_dec(
                    v.height as nat,
                ));
            }
            q = q.param_owned(String::from_str("videoResolution"), res);
            q = q.param("subtitles", v.subtitles.name());
            q = q.param("subtitleSize", "100");
        },
        TranscodeOptions::Music(m) => {
            q = q.param_owned(String::from_str("musicBitrate"), u32_to_string(m.bitrate));
        },
    }
    proof {
        assert(q@ =~= base + mi_part + pi_part + opt_part);
    }
    let ds = profile_directives(options, context, protocol);
    let profile = serialize_directives(&ds);
    q = q.param_owned(String::from_str("X-Plex-Client-Profile-Extra"), profile);
    proof {
        assert(q@ =~= base + mi_part + pi_part + opt_part + seq![
            (
                "X-Plex-Client-Profile-Extra"@,
                spec_profile_string(spec_profile_directives(*options, context, protocol)),
            ),
        ]);
        assert(q@ =~= spec_transcode_params(
            session_id@,
            context,
            protocol,
            media_index,
            part_index,
            *options,
        ));
    }
    q
}

/// Law: video profile encoding is deterministic and order-preserving. The
/// clause sequence holds exactly one transcode target per (container, video
/// codec) combination, flattened in the caller's preference order with
/// containers outermost, and exactly one direct-play profile, which matches
/// the first combination and stands right after its target.
pub proof fn lemma_video_profile_order(o: VideoTranscodeOptions, ctx: Context, proto: Protocol)
    requires
        o.containers@.len() > 0,
        o.video_codecs@.len() > 0,
        o.audio_codecs@.len() > 0,
    ensures
        ({
            let ds = spec_profile_directives(TranscodeOptions::Video(o), ctx, proto);
            let n = o.containers@.len() as int;
            let m = o.video_codecs@.len() as int;
            let audio = spec_audio_codec_list(o.audio_codecs@);
            &&& ds.len() == n * m + 1
            &&& ds[0] == spec_video_target(
                o.containers@[0],
                o.video_codecs@[0],
                audio,
                ctx,
                proto,
            )
            &&& ds[1] == spec_video_direct_play(o.containers@[0], o.video_codecs@[0], audio)
            &&& forall|ci: int, vi: int|
                0 <= ci < n && 0 <= vi < m && ci * m + vi > 0 ==> ds[ci * m + vi + 1]
                    == spec_video_target(
                    o.containers@[ci],
                    o.video_codecs@[vi],
                    audio,
                    ctx,
                    proto,
                )
            &&& forall|k: int| 0 <= k < ds.len() && k != 1 ==> (#[trigger] ds[k]).0
                == "add-transcode-target"@
            &&& ds[1].0 == "add-direct-play-profile"@
        }),
{
    let cs = o.containers@;
    let vs = o.video_codecs@;
    let audio = spec_audio_codec_list(o.audio_codecs@);
    let ps = spec_pairs(cs, vs);
    let f = |p: (ContainerFormat, VideoCodec)| spec_video_target(p.0, p.1, audio, ctx, proto);
    let targets = ps.map_values(f);
    let ds = spec_profile_directives(TranscodeOptions::Video(o), ctx, proto);
    let n = cs.len() as int;
    let m = vs.len() as int;
    lemma_pairs_len(cs, vs);
    assert(n * m >= 1) by (nonlinear_arith)
        requires
            n >= 1,
            m >= 1,
    ;
    lemma_pairs_index(cs, vs, 0, 0);
    assert(ds[0] == targets[0]);
    assert(forall|ci: int, vi: int|
        0 <= ci < n && 0 <= vi < m && ci * m + vi > 0 ==> ds[ci * m + vi + 1] == spec_video_target(
            cs[ci],
            vs[vi],
            audio,
            ctx,
            proto,
        )) by {
        assert forall|ci: int, vi: int| 0 <= ci < n && 0 <= vi < m && ci * m + vi > 0 implies ds[ci
            * m + vi + 1] == spec_video_target(cs[ci], vs[vi], audio, ctx, proto) by {
            lemma_pairs_index(cs, vs, ci, vi);
            assert(0 < ci * m + vi < n * m) by (nonlinear_arith)
                requires
                    0 <= ci < n,
                    0 <= vi < m,
                    ci * m + vi > 0,
            ;
            assert(ds[ci * m + vi + 1] == targets.drop_first()[ci * m + vi - 1]);
            assert(targets[ci * m + vi] == f(ps[ci * m + vi]));
        }
    }
    assert(forall|k: int| 0 <= k < ds.len() && k != 1 ==> (#[trigger] ds[k]).0
        == "add-transcode-target"@) by {
        assert forall|k: int| 0 <= k < ds.len() && k != 1 implies (#[trigger] ds[k]).0
            == "add-transcode-target"@ by {
            if k == 0 {
                assert(ds[0] == targets[0]);
                assert(targets[0] == f(ps[0]));
            } else {
                assert(ds[k] == targets.drop_first()[k - 2]);
                assert(targets[k - 1] == f(ps[k - 1]));
            }
        }
    }
}

/// Law: music profile encoding is deterministic and order-preserving, in
/// the same shape as the video law: one transcode target per (container,
/// codec) combination in preference order, and exactly one direct-play
/// profile matching the first combination, right after its target.
pub proof fn lemma_music_profile_order(o: MusicTranscodeOptions, ctx: Context, proto: Protocol)
    requires
        o.containers@.len() > 0,
        o.codecs@.len() > 0,
    ensures
        ({
            let ds = spec_profile_directives(TranscodeOptions::Music(o), ctx, proto);
            let n = o.containers@.len() as int;
            let m = o.codecs@.len() as int;
            &&& ds.len() == n * m + 1
            &&& ds[0] == spec_music_target(o.containers@[0], o.codecs@[0], ctx, proto)
            &&& ds[1] == spec_music_direct_play(o.containers@[0], o.codecs@[0])
            &&& forall|ci: int, vi: int|
                0 <= ci < n && 0 <= vi < m && ci * m + vi > 0 ==> ds[ci * m + vi + 1]
                    == spec_music_target(o.containers@[ci], o.codecs@[vi], ctx, proto)
            &&& forall|k: int| 0 <= k < ds.len() && k != 1 ==> (#[trigger] ds[k]).0
                == "add-transcode-target"@
            &&& ds[1].0 == "add-direct-play-profile"@
        }),
{
    let cs = o.containers@;
    let vs = o.codecs@;
    let ps = spec_pairs(cs, vs);
    let f = |p: (ContainerFormat, AudioCodec)| spec_music_target(p.0, p.1, ctx, proto);
    let targets = ps.map_values(f);
    let ds = spec_profile_directives(TranscodeOptions::Music(o), ctx, proto);
    let n = cs.len() as int;
    let m = vs.len() as int;
    lemma_pairs_len(cs, vs);
    assert(n * m >= 1) by (nonlinear_arith)
        requires
            n >= 1,
            m >= 1,
    ;
    lemma_pairs_index(cs, vs, 0, 0);
    assert(ds[0] == targets[0]);
    assert(forall|ci: int, vi: int|
        0 <= ci < n && 0 <= vi < m && ci * m + vi > 0 ==> ds[ci * m + vi + 1] == spec_music_target(
            cs[ci],
            vs[vi],
            ctx,
            proto,
        )) by {
        assert forall|ci: int, vi: int| 0 <= ci < n && 0 <= vi < m && ci * m + vi > 0 implies ds[ci
            * m + vi + 1] == spec_music_target(cs[ci], vs[vi], ctx, proto) by {
            lemma_pairs_index(cs, vs, ci, vi);
            assert(0 < ci * m + vi < n * m) by (nonlinear_arith)
                requires
                    0 <= ci < n,
                    0 <= vi < m,
                    ci * m + vi > 0,
            ;
            assert(ds[ci * m + vi + 1] == targets.drop_first()[ci * m + vi - 1]);
            assert(targets[ci * m + vi] == f(ps[ci * m + vi]));
        }
    }
    assert(forall|k: int| 0 <= k < ds.len() && k != 1 ==> (#[trigger] ds[k]).0
        == "add-transcode-target"@) by {
        assert forall|k: int| 0 <= k < ds.len() && k != 1 implies (#[trigger] ds[k]).0
            == "add-transcode-target"@ by {
            if k == 0 {
                assert(ds[0] == targets[0]);
                assert(targets[0] == f(ps[0]));
            } else {
                assert(ds[k] == targets.drop_first()[k - 2]);
                assert(targets[k - 1] == f(ps[k - 1]));
            }
        }
    }
}

} // verus!
