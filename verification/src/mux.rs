//! The container muxer.
//!
//! The container writer is the outside `webm` library; it muxes into any
//! byte sink, here an in-memory cursor, so the whole muxing step is a
//! computation on bytes and stays in the library. The unverified edge only
//! has to put the finished bytes on disk. This module owns the rules around
//! the writer: each track is added exactly once, before any frame; each
//! track's timestamps never decrease; video timestamps arrive in
//! milliseconds and are converted to container nanoseconds exactly once,
//! here, by the fixed factor of one million.

use vstd::prelude::*;

verus! {

/// Nanoseconds per millisecond: video timestamps are converted at hand-off.
pub const NS_PER_MS: u64 = 1_000_000;

/// Muxer failures, mirroring the container writer's two error cases.
#[derive(Clone, Copy, Debug, PartialEq, Eq, Structural)]
pub enum MuxError {
    /// A parameter the writer rejects (a zero or oversized dimension, rate
    /// or channel count).
    BadParam,
    /// An internal error of the container library.
    Unknown,
}

/// The container writer's builder, muxing into an in-memory cursor. The
/// generic writer type cannot be declared to Verus (its `Write` bound is an
/// outside trait), so the concrete instance is held opaquely.
#[verifier::external_body]
struct MemSegmentBuilder {
    inner: webm::mux::SegmentBuilder<std::io::Cursor<Vec<u8>>>,
}

/// The built container writer, held opaquely for the same reason.
#[verifier::external_body]
struct MemSegment {
    inner: webm::mux::Segment<std::io::Cursor<Vec<u8>>>,
}

#[verifier::external_type_specification]
#[verifier::external_body]
pub struct ExVideoTrack(webm::mux::VideoTrack);

#[verifier::external_type_specification]
#[verifier::external_body]
pub struct ExAudioTrack(webm::mux::AudioTrack);

/// Relies on webm's SegmentBuilder::new: prepares a segment that muxes into
/// an in-memory cursor.
#[verifier::external_body]
fn segment_builder_new() -> (r: Result<MemSegmentBuilder, MuxError>)
{
    let writer = webm::mux::Writer::new(std::io::Cursor::new(Vec::new()));
    match webm::mux::SegmentBuilder::new(writer) {
        Ok(b) => Ok(MemSegmentBuilder { inner: b }),
        Err(webm::mux::Error::BadParam) => Err(MuxError::BadParam),
        Err(_) => Err(MuxError::Unknown),
    }
}

/// Relies on webm's SegmentBuilder::add_video_track: a zero dimension or one
/// beyond the signed 32-bit range is rejected as a bad parameter.
#[verifier::external_body]
fn builder_add_video_track(
    b: MemSegmentBuilder,
    width: u32,
    height: u32,
) -> (r: Result<
    (MemSegmentBuilder, webm::mux::VideoTrack),
    MuxError,
>)
    ensures
        (width == 0 || height == 0 || width > 0x7FFF_FFFF || height > 0x7FFF_FFFF) ==> r is Err,
{
    match b.inner.add_video_track(width, height, webm::mux::VideoCodecId::VP9, None) {
        Ok((inner, track)) => Ok((MemSegmentBuilder { inner }, track)),
        Err(webm::mux::Error::BadParam) => Err(MuxError::BadParam),
        Err(_) => Err(MuxError::Unknown),
    }
}

/// Relies on webm's SegmentBuilder::add_audio_track: a zero rate or channel
/// count, or one beyond the signed 32-bit range, is rejected as a bad
/// parameter.
#[verifier::external_body]
fn builder_add_audio_track(
    b: MemSegmentBuilder,
    sample_rate: u32,
    channels: u32,
) -> (r: Result<
    (MemSegmentBuilder, webm::mux::AudioTrack),
    MuxError,
>)
    ensures
        (sample_rate == 0 || channels == 0 || sample_rate > 0x7FFF_FFFF || channels
            > 0x7FFF_FFFF) ==> r is Err,
{
    match b.inner.add_audio_track(sample_rate, channels, webm::mux::AudioCodecId::Opus, None) {
        Ok((inner, track)) => Ok((MemSegmentBuilder { inner }, track)),
        Err(webm::mux::Error::BadParam) => Err(MuxError::BadParam),
        Err(_) => Err(MuxError::Unknown),
    }
}

/// Relies on webm's SegmentBuilder::build: freezes the track list and makes
/// the segment ready for frames.
#[verifier::external_body]
fn builder_build(b: MemSegmentBuilder) -> (r: MemSegment)
{
    MemSegment { inner: b.inner.build() }
}

/// Relies on webm's Track::track_number for video handles.
#[verifier::external_body]
fn video_track_num(t: &webm::mux::VideoTrack) -> (r: u64)
{
    webm::mux::Track::track_number(t)
}

/// Relies on webm's Track::track_number for audio handles.
#[verifier::external_body]
fn audio_track_num(t: &webm::mux::AudioTrack) -> (r: u64)
{
    webm::mux::Track::track_number(t)
}

/// Relies on webm's Segment::add_frame: appends one frame to the given
/// track in call order; the library does not reorder.
#[verifier::external_body]
fn segment_add_frame(
    s: &mut MemSegment,
    track: u64,
    data: &Vec<u8>,
    timestamp_ns: u64,
    keyframe: bool,
) -> (r: Result<(), MuxError>)
{
    match s.inner.add_frame(track, data.as_slice(), timestamp_ns, keyframe) {
        Ok(()) => Ok(()),
        Err(webm::mux::Error::BadParam) => Err(MuxError::BadParam),
        Err(_) => Err(MuxError::Unknown),
    }
}

/// Relies on webm's Segment::finalize: writes the trailer and hands back the
/// container bytes, finished on success and as far as they got otherwise.
#[verifier::external_body]
fn segment_finalize(s: MemSegment) -> (r: Result<
    Vec<u8>,
    Vec<u8>,
>)
{
    match s.inner.finalize(None) {
        Ok(w) => Ok(w.into_inner().into_inner()),
        Err(w) => Err(w.into_inner().into_inner()),
    }
}

/// Collects the stream layout before any frame is written: each track is
/// added at most once, and only here, so a built muxer's track set is fixed.
pub struct MuxerBuilder {
    builder: MemSegmentBuilder,
    video: Option<webm::mux::VideoTrack>,
    audio: Option<webm::mux::AudioTrack>,
}

impl MuxerBuilder {
    pub closed spec fn has_video(self) -> bool {
        self.video is Some
    }

    pub closed spec fn has_audio(self) -> bool {
        self.audio is Some
    }

    /// Starts a container in memory, with no tracks yet.
    pub fn new() -> (r: Result<MuxerBuilder, MuxError>)
        ensures
            r is Ok ==> !r.unwrap().has_video() && !r.unwrap().has_audio(),
    {
        let builder = segment_builder_new()?;
        Ok(MuxerBuilder { builder, video: None, audio: None })
    }

    /// Adds the single video track. Called once, before any frame.
    pub fn add_video_track(self, width: u32, height: u32) -> (r: Result<MuxerBuilder, MuxError>)
        requires
            !self.has_video(),
        ensures
            r is Ok ==> r.unwrap().has_video() && r.unwrap().has_audio() == self.has_audio(),
            (width == 0 || height == 0 || width > 0x7FFF_FFFF || height > 0x7FFF_FFFF) ==> r
                is Err,
    {
        let MuxerBuilder { builder, video: _, audio } = self;
        let (builder, track) = builder_add_video_track(builder, width, height)?;
        Ok(MuxerBuilder { builder, video: Some(track), audio })
    }

    /// Adds the single audio track. Called once, before any frame.
    pub fn add_audio_track(self, sample_rate: u32, channels: u32) -> (r: Result<
        MuxerBuilder,
        MuxError,
    >)
        requires
            !self.has_audio(),
        ensures
            r is Ok ==> r.unwrap().has_audio() && r.unwrap().has_video() == self.has_video(),
            (sample_rate == 0 || channels == 0 || sample_rate > 0x7FFF_FFFF || channels
                > 0x7FFF_FFFF) ==> r is Err,
    {
        let MuxerBuilder { builder, video, audio: _ } = self;
        let (builder, track) = builder_add_audio_track(builder, sample_rate, channels)?;
        Ok(MuxerBuilder { builder, video, audio: Some(track) })
    }

    /// Freezes the track list; frames can now be written.
    pub fn build(self) -> (r: Muxer)
        ensures
            r.has_video() == self.has_video(),
            r.has_audio() == self.has_audio(),
            r.video_frames() == 0,
            r.audio_frames() == 0,
    {
        let MuxerBuilder { builder, video, audio } = self;
        let seg = builder_build(builder);
        Muxer { seg, video, audio, video_count: 0, audio_count: 0, video_last_ns: 0, audio_last_ns: 0 }
    }
}

/// The built container: accepts per-track timestamped packets in call order
/// and finalizes the file once. Timestamps per track never decrease; the
/// muxer does not reorder, so the caller's order is the file's order.
pub struct Muxer {
    seg: MemSegment,
    video: Option<webm::mux::VideoTrack>,
    audio: Option<webm::mux::AudioTrack>,
    video_count: u64,
    audio_count: u64,
    video_last_ns: u64,
    audio_last_ns: u64,
}

impl Muxer {
    pub closed spec fn has_video(self) -> bool {
        self.video is Some
    }

    pub closed spec fn has_audio(self) -> bool {
        self.audio is Some
    }

    /// How many tracks the container holds.
    pub open spec fn track_count(self) -> nat {
        (if self.has_video() {
            1nat
        } else {
            0
        }) + (if self.has_audio() {
            1nat
        } else {
            0
        })
    }

    /// Frames written to the video track so far.
    pub closed spec fn video_frames(self) -> u64 {
        self.video_count
    }

    /// Frames written to the audio track so far.
    pub closed spec fn audio_frames(self) -> u64 {
        self.audio_count
    }

    /// Timestamp (ns) of the last video frame written.
    pub closed spec fn video_last_ns(self) -> u64 {
        self.video_last_ns
    }

    /// Timestamp (ns) of the last audio frame written.
    pub closed spec fn audio_last_ns(self) -> u64 {
        self.audio_last_ns
    }

    /// Whether the container has a video track.
    pub fn video_track_present(&self) -> (b: bool)
        ensures
            b == self.has_video(),
    {
        self.video.is_some()
    }

    /// Whether the container has an audio track.
    pub fn audio_track_present(&self) -> (b: bool)
        ensures
            b == self.has_audio(),
    {
        self.audio.is_some()
    }

    /// How many frames the video track holds so far.
    pub fn video_frame_count(&self) -> (n: u64)
        ensures
            n == self.video_frames(),
    {
        self.video_count
    }

    /// How many frames the audio track holds so far.
    pub fn audio_frame_count(&self) -> (n: u64)
        ensures
            n == self.audio_frames(),
    {
        self.audio_count
    }

    /// Writes one compressed video frame. The timestamp arrives in
    /// milliseconds and is converted to container nanoseconds here, exactly
    /// once; per-track timestamps never decrease.
    pub fn add_video_frame(&mut self, data: &Vec<u8>, pts_ms: u64, key: bool) -> (r: Result<
        (),
        MuxError,
    >)
        requires
            old(self).has_video(),
            pts_ms <= u64::MAX / NS_PER_MS,
            old(self).video_frames() > 0 ==> pts_ms * NS_PER_MS >= old(self).video_last_ns(),
            old(self).video_frames() < u64::MAX,
        ensures
            final(self).has_video() == old(self).has_video(),
            final(self).has_audio() == old(self).has_audio(),
            final(self).audio_frames() == old(self).audio_frames(),
            final(self).audio_last_ns() == old(self).audio_last_ns(),
            r is Ok ==> final(self).video_frames() == old(self).video_frames() + 1 && final(self).video_last_ns() == pts_ms * NS_PER_MS,
            r is Err ==> final(self).video_frames() == old(self).video_frames() && final(self).video_last_ns() == old(self).video_last_ns(),
    {
        let track = match &self.video {
            Some(t) => video_track_num(t),
            None => { return Err(MuxError::Unknown) },
        };
        let ns: u64 = pts_ms * NS_PER_MS;
        match segment_add_frame(&mut self.seg, track, data, ns, key) {
            Ok(()) => {
                self.video_count = self.video_count + 1;
                self.video_last_ns = ns;
                Ok(())
            },
            Err(e) => Err(e),
        }
    }

    /// Writes one compressed audio chunk; the chunker's fixed-step
    /// timestamps are already in nanoseconds. Every audio chunk is
    /// self-contained, so it is written as a keyframe.
    pub fn add_audio_frame(&mut self, data: &Vec<u8>, pts_ns: u64) -> (r: Result<(), MuxError>)
        requires
            old(self).has_audio(),
            old(self).audio_frames() > 0 ==> pts_ns >= old(self).audio_last_ns(),
            old(self).audio_frames() < u64::MAX,
        ensures
            final(self).has_video() == old(self).has_video(),
            final(self).has_audio() == old(self).has_audio(),
            final(self).video_frames() == old(self).video_frames(),
            final(self).video_last_ns() == old(self).video_last_ns(),
            r is Ok ==> final(self).audio_frames() == old(self).audio_frames() + 1 && final(self).audio_last_ns() == pts_ns,
            r is Err ==> final(self).audio_frames() == old(self).audio_frames() && final(self).audio_last_ns() == old(self).audio_last_ns(),
    {
        let track = match &self.audio {
            Some(t) => audio_track_num(t),
            None => { return Err(MuxError::Unknown) },
        };
        match segment_add_frame(&mut self.seg, track, data, pts_ns, true) {
            Ok(()) => {
                self.audio_count = self.audio_count + 1;
                self.audio_last_ns = pts_ns;
                Ok(())
            },
            Err(e) => Err(e),
        }
    }

    /// Writes the trailer and returns the container bytes. Consuming the
    /// muxer makes a second finalization impossible. On failure the bytes
    /// written so far come back under the error.
    pub fn finalize(self) -> (r: Result<Vec<u8>, Vec<u8>>)
    {
        let Muxer { seg, .. } = self;
        segment_finalize(seg)
    }
}

} // verus!
