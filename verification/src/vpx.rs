//! Video encoder bookkeeping.
//!
//! The block-based compressor itself is an outside library driven over a
//! foreign interface; this module owns every decision made around it: the
//! configuration checks, the queue of submitted presentation timestamps, the
//! classification of the packets the codec hands back, and the two-phase
//! drain that ends the stream. A one-pass screen-recording configuration
//! emits compressed frames in submission order, so each frame packet the
//! codec yields carries the oldest outstanding timestamp; the queue makes
//! that pairing, and its ordering, explicit and checked.
//!
//! The caller drives the codec: after `encode` or `finish` it asks the codec
//! for packets one at a time and feeds each outcome to `next_packet` (or, at
//! end of stream, to `Finish::next_packet` / `Finish::on_empty`).

use vstd::prelude::*;

verus! {

/// The keyframe bit of the codec's frame-type bitmask.
pub const FRAME_IS_KEY: u32 = 1;

/// Encoder configuration: dimensions, timebase and target bitrate.
#[derive(Clone, Copy)]
pub struct Config {
    /// The width (in pixels).
    pub width: u32,
    /// The height (in pixels).
    pub height: u32,
    /// Timebase numerator (seconds per timestamp unit).
    pub timebase_num: u32,
    /// Timebase denominator.
    pub timebase_den: u32,
    /// The target bitrate (in kilobits per second).
    pub bitrate: u32,
}

/// Construction errors. Chroma subsampling halves each dimension, so both
/// must be even.
#[derive(Clone, Copy, Debug, PartialEq, Eq, Structural)]
pub enum VpxError {
    OddDimensions,
}

/// One compressed packet: bytes, keyframe flag and presentation timestamp
/// (in timebase units).
pub struct Frame {
    /// Compressed data.
    pub data: Vec<u8>,
    /// Whether the frame is a keyframe.
    pub key: bool,
    /// Presentation timestamp (in timebase units).
    pub pts: i64,
}

/// What kind of packet the codec handed back: a compressed frame, or one of
/// the auxiliary kinds (statistics and the like), which are skipped.
#[derive(Clone, Copy, Debug, PartialEq, Eq, Structural)]
pub enum PacketKind {
    CompressedFrame,
    Other,
}

/// The encoder's verified state: dimensions plus the timestamp bookkeeping
/// around the outside codec.
pub struct Encoder {
    width: u32,
    height: u32,
    /// Presentation timestamps of submitted frames the codec has not yet
    /// returned, oldest first.
    pending: Vec<i64>,
    /// Highest timestamp submitted so far; no later submission may precede it.
    last_submitted: i64,
    /// Timestamp of the packet most recently emitted.
    last_emitted: i64,
    emitted_any: bool,
}

impl Encoder {
    /// Timestamps submitted to the codec and not yet paired with an output
    /// packet, oldest first.
    pub closed spec fn queued(self) -> Seq<i64> {
        self.pending@
    }

    pub closed spec fn width_spec(self) -> u32 {
        self.width
    }

    pub closed spec fn height_spec(self) -> u32 {
        self.height
    }

    /// The latest timestamp handed to `encode`.
    pub closed spec fn last_submitted_pts(self) -> i64 {
        self.last_submitted
    }

    /// Whether any packet has been emitted yet.
    pub closed spec fn has_emitted(self) -> bool {
        self.emitted_any
    }

    /// The timestamp of the most recently emitted packet.
    pub closed spec fn last_emitted_pts(self) -> i64 {
        self.last_emitted
    }

    /// The bookkeeping invariant: queued timestamps are in submission order
    /// (non-decreasing), none exceeds the latest submission, and every
    /// queued timestamp is at or after the last emitted one.
    pub closed spec fn wf(self) -> bool {
        &&& self.width % 2 == 0
        &&& self.height % 2 == 0
        &&& forall|i: int, j: int|
            0 <= i <= j < self.pending@.len() ==> self.pending@[i] <= self.pending@[j]
        &&& forall|i: int| 0 <= i < self.pending@.len() ==> self.pending@[i] <= self.last_submitted
        &&& self.emitted_any ==> forall|i: int|
            0 <= i < self.pending@.len() ==> self.last_emitted <= self.pending@[i]
        &&& self.emitted_any ==> self.last_emitted <= self.last_submitted
    }

    /// Configures an encoder. Both dimensions must be even (4:2:0 chroma
    /// subsampling halves each); an odd dimension is reported, not assumed
    /// away.
    pub fn new(config: Config) -> (r: Result<Encoder, VpxError>)
        ensures
            r is Ok <==> (config.width % 2 == 0 && config.height % 2 == 0),
            r is Err ==> r == Result::<Encoder, VpxError>::Err(VpxError::OddDimensions),
            r is Ok ==> {
                let e = r.unwrap();
                &&& e.wf()
                &&& e.width_spec() == config.width
                &&& e.height_spec() == config.height
                &&& e.queued() == Seq::<i64>::empty()
                &&& !e.has_emitted()
            },
    {
        if config.width % 2 != 0 || config.height % 2 != 0 {
            return Err(VpxError::OddDimensions);
        }
        let e = Encoder {
            width: config.width,
            height: config.height,
            pending: Vec::new(),
            last_submitted: i64::MIN,
            last_emitted: i64::MIN,
            emitted_any: false,
        };
        proof {
            assert(e.queued() =~= Seq::<i64>::empty());
        }
        Ok(e)
    }

    /// Submits one planar frame to the codec at the given timestamp. The
    /// buffer must hold a full 4:2:0 image (three half-size planes beyond
    /// the luma make the total two-thirds larger than `width * height`), and
    /// the capture clock only moves forward, so timestamps never decrease.
    ///
    /// The codec may hold the frame in its lookahead; its timestamp joins
    /// the queue and comes back out through `next_packet`.
    pub fn encode(&mut self, pts: i64, data: &Vec<u8>)
        requires
            old(self).wf(),
            2 * data@.len() >= 3 * (old(self).width_spec() as int) * (old(self).height_spec() as int),
            pts >= old(self).last_submitted_pts(),
            old(self).has_emitted() ==> pts >= old(self).last_emitted_pts(),
        ensures
            final(self).wf(),
            final(self).queued() == old(self).queued().push(pts),
            final(self).last_submitted_pts() == pts,
            final(self).width_spec() == old(self).width_spec(),
            final(self).height_spec() == old(self).height_spec(),
            final(self).has_emitted() == old(self).has_emitted(),
            final(self).last_emitted_pts() == old(self).last_emitted_pts(),
    {
        self.pending.push(pts);
        self.last_submitted = pts;
    }

    /// Classifies one packet the codec handed back after `encode`.
    ///
    /// Auxiliary packet kinds are skipped. A compressed-frame packet is
    /// paired with the oldest queued timestamp, and its keyframe flag is
    /// exactly the keyframe bit of the codec's frame-type bitmask. A frame
    /// packet with nothing queued has no submission to answer for and is
    /// dropped.
    pub fn next_packet(&mut self, kind: PacketKind, flags: u32, payload: Vec<u8>) -> (r: Option<
        Frame,
    >)
        requires
            old(self).wf(),
        ensures
            final(self).wf(),
            final(self).width_spec() == old(self).width_spec(),
            final(self).height_spec() == old(self).height_spec(),
            final(self).last_submitted_pts() == old(self).last_submitted_pts(),
            kind == PacketKind::Other ==> r is None && *final(self) == *old(self),
            kind == PacketKind::CompressedFrame && old(self).queued().len() == 0 ==> r is None
                && *final(self) == *old(self),
            kind == PacketKind::CompressedFrame && old(self).queued().len() > 0 ==> {
                let f = r.unwrap();
                &&& r is Some
                &&& f.data@ == payload@
                &&& f.key == ((flags & FRAME_IS_KEY) != 0)
                &&& f.pts == old(self).queued()[0]
                &&& final(self).queued() == old(self).queued().drop_first()
                &&& final(self).has_emitted()
                &&& final(self).last_emitted_pts() == f.pts
                &&& emit_step(*old(self), *final(self), f)
            },
            r is Some && old(self).has_emitted() ==> r.unwrap().pts >= old(
                self,
            ).last_emitted_pts(),
    {
        match kind {
            PacketKind::Other => None,
            PacketKind::CompressedFrame => {
                if self.pending.len() == 0 {
                    return None;
                }
                let pts = self.pending.remove(0);
                self.last_emitted = pts;
                self.emitted_any = true;
                Some(Frame { data: payload, key: (flags & FRAME_IS_KEY) != 0, pts })
            },
        }
    }

    /// How many submitted frames the codec still holds (the current
    /// lookahead depth).
    pub fn pending_count(&self) -> (n: usize)
        ensures
            n == self.queued().len(),
    {
        self.pending.len()
    }

    /// Signals end of stream: no further frames will be submitted, and the
    /// codec is asked to flush its lookahead. Draining continues through the
    /// returned state.
    pub fn finish(self) -> (r: Finish)
        requires
            self.wf(),
        ensures
            r.encoder() == self,
            !r.renudged(),
    {
        Finish { enc: self, renudged: false }
    }
}

/// The end-of-stream drain. The codec is probed for its remaining packets;
/// if a probe comes back empty, the end-of-stream signal is re-issued once
/// more (some encoders need the extra nudge to release the last lookahead
/// frame) before the stream is declared exhausted.
pub struct Finish {
    enc: Encoder,
    renudged: bool,
}

/// One packet emission, as a relation between the encoder states before and
/// after and the emitted packet: the packet takes the oldest queued
/// timestamp, which becomes the last emitted one. `next_packet` ensures this
/// relation whenever it returns a packet.
pub open spec fn emit_step(pre: Encoder, post: Encoder, f: Frame) -> bool {
    &&& pre.wf()
    &&& post.wf()
    &&& pre.queued().len() > 0
    &&& f.pts == pre.queued()[0]
    &&& post.queued() == pre.queued().drop_first()
    &&& post.has_emitted()
    &&& post.last_emitted_pts() == f.pts
    &&& (pre.has_emitted() ==> pre.last_emitted_pts() <= f.pts)
}

/// One empty probe during the drain, as a relation between the states before
/// and after and the "probe again" decision.
pub open spec fn empty_probe_step(pre: Finish, post: Finish, again: bool) -> bool {
    &&& again == !pre.renudged()
    &&& post.renudged()
    &&& post.encoder() == pre.encoder()
}

impl Finish {
    /// The encoder bookkeeping being drained.
    pub closed spec fn encoder(self) -> Encoder {
        self.enc
    }

    /// Whether the end-of-stream signal has already been re-issued.
    pub closed spec fn renudged(self) -> bool {
        self.renudged
    }

    /// Classifies one packet the codec returned while draining; same
    /// contract as during encoding: auxiliary kinds are skipped, a frame
    /// packet takes the oldest queued timestamp and the bitmask's keyframe
    /// bit.
    pub fn next_packet(&mut self, kind: PacketKind, flags: u32, payload: Vec<u8>) -> (r: Option<
        Frame,
    >)
        requires
            old(self).encoder().wf(),
        ensures
            final(self).encoder().wf(),
            final(self).renudged() == old(self).renudged(),
            kind == PacketKind::Other ==> r is None && *final(self) == *old(self),
            kind == PacketKind::CompressedFrame && old(self).encoder().queued().len() == 0 ==> r
                is None && *final(self) == *old(self),
            kind == PacketKind::CompressedFrame && old(self).encoder().queued().len() > 0 ==> {
                let f = r.unwrap();
                &&& r is Some
                &&& f.data@ == payload@
                &&& f.key == ((flags & FRAME_IS_KEY) != 0)
                &&& f.pts == old(self).encoder().queued()[0]
                &&& final(self).encoder().queued() == old(self).encoder().queued().drop_first()
                &&& final(self).encoder().last_emitted_pts() == f.pts
                &&& emit_step(old(self).encoder(), final(self).encoder(), f)
            },
            r is Some && old(self).encoder().has_emitted() ==> r.unwrap().pts >= old(
                self,
            ).encoder().last_emitted_pts(),
    {
        self.enc.next_packet(kind, flags, payload)
    }

    /// Reacts to an empty probe. The first time, the end-of-stream signal is
    /// re-issued and the caller probes once more (`true`); after that the
    /// stream is exhausted (`false`), so the drain performs at most two
    /// rounds of flush probing.
    pub fn on_empty(&mut self) -> (again: bool)
        ensures
            empty_probe_step(*old(self), *final(self), again),
    {
        if self.renudged {
            false
        } else {
            self.renudged = true;
            true
        }
    }
}

/// Emitted timestamps never go backwards: along any two consecutive packet
/// emissions — with any number of `encode` calls in between, which leave
/// `last_emitted_pts` alone — the second packet's presentation timestamp is
/// at least the first one's. Applied along a whole run, this makes the
/// emitted sequence non-decreasing for every interleaving of `encode` and
/// probe calls.
pub proof fn lemma_emission_monotone(a: Encoder, b: Encoder, c: Encoder, f1: Frame, f2: Frame)
    requires
        emit_step(a, b, f1),
        emit_step(b, c, f2),
    ensures
        f2.pts >= f1.pts,
{
    assert(b.last_emitted_pts() <= b.queued()[0]);
}

/// The drain is bounded: once a flush probe has come back empty twice, the
/// second decision is always "stop", so at most two rounds of flush probes
/// are ever issued, and each emitted packet consumes one queued timestamp,
/// so no more packets come out than frames went in (the lookahead depth).
pub proof fn lemma_flush_probes_bounded(s0: Finish, s1: Finish, s2: Finish, r1: bool, r2: bool)
    requires
        empty_probe_step(s0, s1, r1),
        empty_probe_step(s1, s2, r2),
    ensures
        !r2,
{
}

} // verus!
