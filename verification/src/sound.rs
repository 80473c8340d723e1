//! The audio path: sample-rate conversion and chunking.
//!
//! The audio device delivers interleaved sample buffers at its own rate and
//! in its own execution context. Each buffer is resampled to the fixed
//! 48 kHz encoder rate by linear interpolation, accumulated, and cut into
//! exact 20 ms chunks (960 frames per channel); each chunk is handed to the
//! speech codec and stamped with a presentation timestamp that advances by a
//! fixed 20 ms step per chunk, independent of wall-clock arrival time. Once
//! the stop signal is observed, processing ceases for good and any partial
//! chunk is discarded.

use vstd::prelude::*;

verus! {

/// The fixed encoder sample rate (Hz).
pub const SAMPLE_RATE: u32 = 48_000;

/// Samples per channel in one encoded chunk: 20 ms at 48 kHz.
pub const FRAME_SIZE: usize = 960;

/// Capacity of the reusable compressed-packet buffer.
pub const MAX_PACKET: usize = 4000;

/// The fixed timestamp step per audio chunk: 20 ms in nanoseconds.
pub const AUDIO_PTS_STEP_NS: u64 = 20_000_000;

/// The channel layouts the audio encoder accepts.
#[derive(Clone, Copy, Debug, PartialEq, Eq, Structural)]
pub enum Channels {
    Mono,
    Stereo,
}

impl Channels {
    pub open spec fn count_spec(self) -> nat {
        match self {
            Channels::Mono => 1,
            Channels::Stereo => 2,
        }
    }

    pub fn count(self) -> (n: usize)
        ensures
            n == self.count_spec(),
            1 <= n <= 2,
    {
        match self {
            Channels::Mono => 1,
            Channels::Stereo => 2,
        }
    }
}

/// Errors of the audio path. Failures of the outside audio subsystem are
/// reported by the unverified edge under the first three variants; a device
/// with a channel count other than one or two is a configuration error
/// raised here.
#[derive(Clone, Copy, Debug, PartialEq, Eq, Structural)]
pub enum Error {
    Opus,
    StreamCreation,
    DefaultFormat,
    BadChannelCount(u16),
}

/// Validates the device's channel count: one and two are the only layouts
/// the encoder takes; anything else is a configuration error naming the
/// count.
pub fn channel_layout(n: u16) -> (r: Result<Channels, Error>)
    ensures
        n == 1 ==> r == Result::<Channels, Error>::Ok(Channels::Mono),
        n == 2 ==> r == Result::<Channels, Error>::Ok(Channels::Stereo),
        n != 1 && n != 2 ==> r == Result::<Channels, Error>::Err(Error::BadChannelCount(n)),
{
    match n {
        1 => Ok(Channels::Mono),
        2 => Ok(Channels::Stereo),
        _ => Err(Error::BadChannelCount(n)),
    }
}

/// Number of output frames when `n_frames` input frames at `src_rate` are
/// converted to 48 kHz: one output frame per 48 kHz tick that falls within
/// the input, `ceil(n_frames * 48000 / src_rate)` in all.
pub open spec fn out_frame_count(n_frames: nat, src_rate: nat) -> nat
    recommends
        src_rate > 0,
{
    (((n_frames * (SAMPLE_RATE as nat) + src_rate) - 1) / (src_rate as int)) as nat
}

/// Linear interpolation between samples `a` and `b` at fraction
/// `num / den`, computed in the non-negative shifted domain so that the
/// integer division is exact truncation toward zero.
pub open spec fn lerp(a: i16, b: i16, num: nat, den: nat) -> i16
    recommends
        num < den,
{
    ((((a + 32768) * (den - num) + (b + 32768) * num) / (den as int)) - 32768) as i16
}

/// The resampled value of output frame `k`, channel `c`: the source position
/// is `k * src_rate / 48000`; the sample is interpolated between the frames
/// on either side of it, the last input frame standing in when the position
/// falls inside the final interval.
pub open spec fn sample_at(input: Seq<i16>, ch: nat, src_rate: nat, k: nat, c: nat) -> i16
    recommends
        src_rate > 0,
        ch > 0,
        c < ch,
{
    let n = input.len() / ch;
    let pos = k * src_rate;
    let s = pos / (SAMPLE_RATE as nat);
    let f = pos % (SAMPLE_RATE as nat);
    let a = input[(s * ch + c) as int];
    let b = if s + 1 < n {
        input[((s + 1) * ch + c) as int]
    } else {
        input[(s * ch + c) as int]
    };
    lerp(a, b, f, SAMPLE_RATE as nat)
}

/// Converts interleaved buffers from the device rate to the fixed 48 kHz
/// encoder rate, preserving the channel count.
pub struct Resampler {
    /// The device's native rate (Hz).
    pub src_rate: u32,
    /// The stream's channel layout.
    pub channels: Channels,
}

impl Resampler {
    /// Resamples one interleaved buffer to 48 kHz by linear interpolation.
    ///
    /// The output holds exactly `ceil(n * 48000 / src_rate)` frames for `n`
    /// input frames, and every sample is the interpolation `sample_at`
    /// describes — a pure function of the buffer, the rate and the layout.
    pub fn resample(&self, input: &Vec<i16>) -> (out: Vec<i16>)
        requires
            self.src_rate > 0,
            input@.len() % self.channels.count_spec() == 0,
            input@.len() <= 0xFFFF_FFFF,
            out_frame_count(input@.len() / self.channels.count_spec(), self.src_rate as nat) * self.channels.count_spec() <= 0xFFFF_FFFF,
        ensures
            out@.len() == out_frame_count(input@.len() / self.channels.count_spec(), self.src_rate as nat) * self.channels.count_spec(),
            forall|k: nat, c: nat|
                k < out_frame_count(input@.len() / self.channels.count_spec(), self.src_rate as nat)
                    && c < self.channels.count_spec() ==> out@[(k * self.channels.count_spec()
                    + c) as int] == sample_at(input@, self.channels.count_spec(), self.src_rate as nat, k, c),
    {
        let ch: usize = self.channels.count();
        let n: usize = input.len() / ch;
        let rate: u64 = self.src_rate as u64;
        let ghost gch = self.channels.count_spec();
        let ghost gn = input@.len() / gch;

        proof {
            vstd::arithmetic::div_mod::lemma_fundamental_div_mod(input@.len() as int, gch as int);
            assert((gch as int) * (gn as int) == (gn as int) * (gch as int)) by (nonlinear_arith);
            assert(input@.len() == gn * gch);
        }

        if n == 0 {
            let out: Vec<i16> = Vec::new();
            proof {
                assert(out_frame_count(0, self.src_rate as nat) == 0) by {
                    vstd::arithmetic::div_mod::lemma_basic_div((self.src_rate - 1) as int, self.src_rate as int);
                }
            }
            return out;
        }

        // count = ceil(n * 48000 / rate), computed in 64-bit.
        let total: u64 = (n as u64) * 48_000 + (rate - 1);
        proof {
            assert(total / rate == out_frame_count(gn, self.src_rate as nat));
            assert(out_frame_count(gn, self.src_rate as nat) <= out_frame_count(
                gn,
                self.src_rate as nat,
            ) * gch) by (nonlinear_arith)
                requires
                    gch >= 1,
            ;
        }
        let count: usize = (total / rate) as usize;
        proof {
            assert(count <= count * gch) by (nonlinear_arith)
                requires
                    gch >= 1,
                    count >= 0,
            ;
        }

        let mut out: Vec<i16> = Vec::new();
        let mut k: usize = 0;
        while k < count
            invariant
                self.src_rate > 0,
                rate == self.src_rate,
                ch == gch,
                1 <= ch <= 2,
                n == gn,
                n > 0,
                input@.len() == gn * gch,
                gn == input@.len() / gch,
                input@.len() <= 0xFFFF_FFFF,
                count == out_frame_count(gn, self.src_rate as nat),
                count * ch <= 0xFFFF_FFFF,
                count <= 0xFFFF_FFFF,
                k <= count,
                out@.len() == k * ch,
                forall|k2: nat, c: nat|
                    k2 < k && c < gch ==> out@[(k2 * gch + c) as int] == sample_at(input@, gch, self.src_rate as nat, k2, c),
            decreases count - k,
        {
            // The source position of output frame k.
            proof {
                assert((k as int) * (rate as int) <= 0xFFFF_FFFF * 0xFFFF_FFFFu64) by (nonlinear_arith)
                    requires
                        0 <= k <= 0xFFFF_FFFF,
                        0 <= rate <= 0xFFFF_FFFF,
                ;
            }
            let pos: u64 = (k as u64) * rate;
            proof {
                lemma_src_index_in_range(gn, self.src_rate as nat, k as nat);
            }
            let s: usize = (pos / 48_000) as usize;
            let f: u64 = pos % 48_000;
            proof {
                assert(s < n);
                assert(s * ch + ch <= n * ch) by (nonlinear_arith)
                    requires s < n, 1 <= ch;
                assert((s + 1) * ch + ch <= n * ch || s + 1 >= n) by (nonlinear_arith)
                    requires s < n, 1 <= ch;
            }
            let mut c: usize = 0;
            while c < ch
                invariant
                    self.src_rate > 0,
                    rate == self.src_rate,
                    ch == gch,
                    1 <= ch <= 2,
                    n == gn,
                    n > 0,
                    input@.len() == gn * gch,
                    gn == input@.len() / gch,
                    input@.len() <= 0xFFFF_FFFF,
                    count == out_frame_count(gn, self.src_rate as nat),
                    count * ch <= 0xFFFF_FFFF,
                    k < count,
                    pos == k * rate,
                    s == pos / 48_000,
                    s < n,
                    s * ch + ch <= n * ch,
                    (s + 1) * ch + ch <= n * ch || s + 1 >= n,
                    f == pos % 48_000,
                    f < 48_000,
                    c <= ch,
                    out@.len() == k * ch + c,
                    forall|k2: nat, c2: nat|
                        k2 < k && c2 < gch ==> out@[(k2 * gch + c2) as int] == sample_at(input@, gch, self.src_rate as nat, k2, c2),
                    forall|c2: nat|
                        c2 < c ==> out@[(k * gch + c2) as int] == sample_at(input@, gch, self.src_rate as nat, k as nat, c2),
                decreases ch - c,
            {
                let a: i16 = input[s * ch + c];
                let b: i16 = if s + 1 < n {
                    input[(s + 1) * ch + c]
                } else {
                    input[s * ch + c]
                };
                // Interpolate in the shifted non-negative domain.
                let au: u64 = (a as i64 + 32768) as u64;
                let bu: u64 = (b as i64 + 32768) as u64;
                proof {
                    lemma_lerp_in_range(a, b, f as nat, 48_000);
                }
                let v: u64 = (au * (48_000 - f) + bu * f) / 48_000;
                let sv: i16 = ((v as i64) - 32768) as i16;
                proof {
                    assert(sv == lerp(a, b, f as nat, 48_000));
                    assert(sv == sample_at(input@, gch, self.src_rate as nat, k as nat, c as nat));
                }
                out.push(sv);
                proof {
                    assert forall|k2: nat, c2: nat| k2 < k && c2 < gch implies out@[(k2 * gch
                        + c2) as int] == sample_at(input@, gch, self.src_rate as nat, k2, c2) by {
                        assert((k2 as int) * (gch as int) + c2 < (k as int) * (gch as int)) by (nonlinear_arith)
                            requires
                                k2 < k,
                                0 <= c2 < gch,
                                gch >= 1,
                        ;
                        assert((k as int) * (gch as int) <= (k as int) * (gch as int) + c);
                    }
                }
                c = c + 1;
            }
            k = k + 1;
            proof {
                assert((k - 1) * ch + ch == k * ch) by (nonlinear_arith);
            }
        }
        out
    }
}

/// One 20 ms chunk ready for the speech codec: exactly one frame's worth of
/// interleaved 48 kHz samples and its presentation timestamp.
pub struct AudioChunk {
    /// Interleaved samples, `960 * channels` of them.
    pub samples: Vec<i16>,
    /// Presentation timestamp (nanoseconds).
    pub pts_ns: u64,
}

/// Accumulates resampled interleaved samples and cuts them into exact
/// encoder chunks. Each chunk's timestamp advances by a fixed 20 ms step per
/// chunk, independent of when the audio actually arrived. Once the stop
/// signal is observed the accumulator is done for good: later buffers are
/// ignored and the partial chunk is discarded, not flushed.
pub struct ChunkAccumulator {
    buf: Vec<i16>,
    channels: Channels,
    next_pts_ns: u64,
    stopped: bool,
}

impl ChunkAccumulator {
    /// Samples accumulated toward the next chunk.
    pub closed spec fn buffered(self) -> Seq<i16> {
        self.buf@
    }

    pub closed spec fn layout(self) -> Channels {
        self.channels
    }

    /// The timestamp the next emitted chunk will carry.
    pub closed spec fn next_pts(self) -> u64 {
        self.next_pts_ns
    }

    /// Whether the stop signal has been observed.
    pub closed spec fn is_stopped(self) -> bool {
        self.stopped
    }

    /// Interleaved samples per chunk.
    pub open spec fn target_spec(self) -> nat {
        (FRAME_SIZE as nat) * self.layout().count_spec()
    }

    /// Less than one chunk is ever left buffered.
    pub closed spec fn wf(self) -> bool {
        self.buf@.len() < (FRAME_SIZE as nat) * self.channels.count_spec()
    }

    pub fn new(channels: Channels) -> (r: ChunkAccumulator)
        ensures
            r.wf(),
            r.buffered() == Seq::<i16>::empty(),
            r.layout() == channels,
            r.next_pts() == 0,
            !r.is_stopped(),
    {
        let r = ChunkAccumulator { buf: Vec::new(), channels, next_pts_ns: 0, stopped: false };
        proof {
            assert(r.buffered() =~= Seq::<i16>::empty());
        }
        r
    }

    /// Takes one resampled buffer (and the stop flag as observed at the top
    /// of the callback) and returns every chunk that became complete.
    ///
    /// While running: the buffered samples and the new ones are cut into
    /// consecutive full chunks, each stamped 20 ms after the one before;
    /// what is left over stays buffered. On stop (and ever after): nothing
    /// is emitted, and the partial chunk is discarded.
    pub fn push(&mut self, samples: &Vec<i16>, stop: bool) -> (chunks: Vec<AudioChunk>)
        requires
            old(self).wf(),
            old(self).next_pts() + (AUDIO_PTS_STEP_NS as int) * (old(self).buffered().len()
                + samples@.len()) <= u64::MAX,
        ensures
            final(self).wf(),
            final(self).layout() == old(self).layout(),
            final(self).is_stopped() == (stop || old(self).is_stopped()),
            (stop || old(self).is_stopped()) ==> chunks@.len() == 0
                && final(self).buffered().len() == 0
                && final(self).next_pts() == old(self).next_pts(),
            !(stop || old(self).is_stopped()) ==> {
                let all = old(self).buffered() + samples@;
                let t = old(self).target_spec() as int;
                let k = all.len() as int / t;
                &&& chunks@.len() == k
                &&& forall|i: int|
                    0 <= i < k ==> (#[trigger] chunks@[i]).samples@ == all.subrange(i * t, (i + 1)
                        * t) && chunks@[i].pts_ns == old(self).next_pts() + i * (
                    AUDIO_PTS_STEP_NS as int)
                &&& final(self).buffered() == all.skip(k * t)
                &&& final(self).next_pts() == old(self).next_pts() + k * (AUDIO_PTS_STEP_NS as int)
            },
    {
        if stop || self.stopped {
            self.stopped = true;
            self.buf = Vec::new();
            return Vec::new();
        }

        let ghost old_pts = self.next_pts_ns;
        // Gather what was buffered and what just arrived.
        let mut i: usize = 0;
        while i < samples.len()
            invariant
                i <= samples@.len(),
                self.buf@ == old(self).buffered() + samples@.subrange(0, i as int),
                self.channels == old(self).layout(),
                self.next_pts_ns == old_pts,
                self.stopped == false,
            decreases samples@.len() - i,
        {
            self.buf.push(samples[i]);
            i = i + 1;
            proof {
                assert(self.buf@ =~= old(self).buffered() + samples@.subrange(0, i as int));
            }
        }
        proof {
            assert(samples@.subrange(0, samples@.len() as int) =~= samples@);
        }
        let ghost all = self.buf@;

        let t: usize = FRAME_SIZE * self.channels.count();
        let mut chunks: Vec<AudioChunk> = Vec::new();
        let mut start: usize = 0;
        while self.buf.len() >= t && start <= self.buf.len() - t
            invariant
                t == old(self).target_spec(),
                960 <= t <= 1920,
                self.buf@ == all,
                all == old(self).buffered() + samples@,
                old_pts + (AUDIO_PTS_STEP_NS as int) * all.len() <= u64::MAX,
                self.channels == old(self).layout(),
                self.stopped == false,
                start == chunks@.len() * t,
                start <= all.len(),
                self.next_pts_ns == old_pts + chunks@.len() * (AUDIO_PTS_STEP_NS as int),
                forall|i2: int|
                    0 <= i2 < chunks@.len() ==> (#[trigger] chunks@[i2]).samples@ == all.subrange(
                        i2 * t,
                        (i2 + 1) * t,
                    ) && chunks@[i2].pts_ns == old_pts + i2 * (AUDIO_PTS_STEP_NS as int),
            decreases all.len() - start,
        {
            let ghost cl = chunks@.len() as int;
            proof {
                assert(cl + 1 <= (cl + 1) * t && (cl + 1) * t == cl * t + t) by (nonlinear_arith)
                    requires
                        t >= 1,
                        cl >= 0,
                ;
            }
            let mut one: Vec<i16> = Vec::new();
            let mut j: usize = 0;
            while j < t
                invariant
                    j <= t,
                    start + t <= all.len(),
                    start + t <= usize::MAX,
                    self.buf@ == all,
                    one@ == all.subrange(start as int, start as int + j),
                decreases t - j,
            {
                one.push(self.buf[start + j]);
                j = j + 1;
                proof {
                    assert(one@ =~= all.subrange(start as int, start as int + j));
                }
            }
            chunks.push(AudioChunk { samples: one, pts_ns: self.next_pts_ns });
            proof {
                assert((cl + 1) * (AUDIO_PTS_STEP_NS as int) == cl * (AUDIO_PTS_STEP_NS as int)
                    + AUDIO_PTS_STEP_NS) by (nonlinear_arith);
                assert((cl + 1) * (AUDIO_PTS_STEP_NS as int) <= all.len() * (
                AUDIO_PTS_STEP_NS as int)) by (nonlinear_arith)
                    requires
                        cl + 1 <= all.len(),
                ;
                assert((AUDIO_PTS_STEP_NS as int) * all.len() == all.len() * (
                AUDIO_PTS_STEP_NS as int)) by (nonlinear_arith);
            }
            self.next_pts_ns = self.next_pts_ns + AUDIO_PTS_STEP_NS;
            start = start + t;
        }

        // Keep the remainder for the next chunk.
        let mut rem: Vec<i16> = Vec::new();
        let mut j2: usize = start;
        while j2 < self.buf.len()
            invariant
                start <= j2 <= all.len(),
                self.buf@ == all,
                rem@ == all.subrange(start as int, j2 as int),
            decreases all.len() - j2,
        {
            rem.push(self.buf[j2]);
            j2 = j2 + 1;
            proof {
                assert(rem@ =~= all.subrange(start as int, j2 as int));
            }
        }
        self.buf = rem;

        proof {
            let k = chunks@.len() as int;
            let ti = t as int;
            vstd::arithmetic::div_mod::lemma_fundamental_div_mod_converse(
                all.len() as int,
                ti,
                k,
                all.len() - k * ti,
            );
            assert(all.len() as int / ti == k);
            assert(self.buf@ =~= all.skip(k * ti));
        }
        chunks
    }
}

/// For every output frame index below the output count, the interpolation's
/// source index lies inside the input.
proof fn lemma_src_index_in_range(n: nat, rate: nat, k: nat)
    requires
        rate > 0,
        n > 0,
        k < out_frame_count(n, rate),
    ensures
        (k * rate) / (SAMPLE_RATE as nat) < n,
{
    let t = SAMPLE_RATE as nat;
    let x: int = n * t + rate - 1;
    let count: int = x / (rate as int);
    assert(count == out_frame_count(n, rate));
    // count * rate <= n * t + rate - 1, so (count - 1) * rate < n * t.
    vstd::arithmetic::div_mod::lemma_fundamental_div_mod(x, rate as int);
    vstd::arithmetic::div_mod::lemma_mod_bound(x, rate as int);
    assert((rate as int) * (count as int) <= n * t + rate - 1);
    assert(k * rate < t * n) by (nonlinear_arith)
        requires
            k < count,
            rate > 0,
            (rate as int) * (count as int) <= n * t + rate - 1,
    ;
    vstd::arithmetic::div_mod::lemma_multiply_divide_lt((k * rate) as int, t as int, n as int);
}

/// The interpolated value stays between the shifted sample bounds, so the
/// shift back down lands inside the signed sample range.
proof fn lemma_lerp_in_range(a: i16, b: i16, num: nat, den: nat)
    requires
        num < den,
        den > 0,
    ensures
        0 <= ((a + 32768) * (den - num) + (b + 32768) * num) / (den as int) <= 65535,
        lerp(a, b, num, den) == ((((a + 32768) * (den - num) + (b + 32768) * num) / (den as int))
            - 32768) as i16,
{
    let au = (a + 32768) as int;
    let bu = (b + 32768) as int;
    let w = au * ((den - num) as int) + bu * (num as int);
    assert(0 <= w <= 65535 * (den as int)) by (nonlinear_arith)
        requires
            0 <= au <= 65535,
            0 <= bu <= 65535,
            num < den,
            w == au * ((den - num) as int) + bu * (num as int),
    ;
    vstd::arithmetic::div_mod::lemma_div_pos_is_pos(w, den as int);
    vstd::arithmetic::div_mod::lemma_div_is_ordered(w, 65535 * (den as int), den as int);
    assert((65535 * (den as int)) / (den as int) == 65535) by {
        vstd::arithmetic::div_mod::lemma_div_multiples_vanish(65535, den as int);
        assert((den as int) * 65535 == 65535 * (den as int)) by (nonlinear_arith);
    }
}

} // verus!
