use srs::sound::{
    channel_layout, AudioChunk, Channels, ChunkAccumulator, Error, Resampler, AUDIO_PTS_STEP_NS,
    FRAME_SIZE,
};

fn ceil_div(a: u64, b: u64) -> u64 {
    (a + b - 1) / b
}

#[test]
fn channel_layout_accepts_mono_and_stereo_only() {
    assert_eq!(channel_layout(1), Ok(Channels::Mono));
    assert_eq!(channel_layout(2), Ok(Channels::Stereo));
    assert_eq!(channel_layout(0), Err(Error::BadChannelCount(0)));
    assert_eq!(channel_layout(3), Err(Error::BadChannelCount(3)));
    assert_eq!(channel_layout(6), Err(Error::BadChannelCount(6)));
}

#[test]
fn resample_output_count_is_ceiling_ratio() {
    // One frame of tolerance is allowed; the implementation hits the
    // ceiling exactly.
    for &(n, rate) in &[(480u64, 24000u32), (441, 44100), (1000, 96000), (1, 8000), (7, 11025)] {
        let r = Resampler { src_rate: rate, channels: Channels::Mono };
        let input = vec![0i16; n as usize];
        let out = r.resample(&input);
        let expect = ceil_div(n * 48000, rate as u64);
        assert!((out.len() as u64).abs_diff(expect) <= 1);
        assert_eq!(out.len() as u64, expect);
    }
}

#[test]
fn resample_at_native_rate_is_identity() {
    let r = Resampler { src_rate: 48000, channels: Channels::Mono };
    let input: Vec<i16> = (0..200).map(|i| (i * 31 - 3000) as i16).collect();
    let out = r.resample(&input);
    assert_eq!(out, input);
}

#[test]
fn resample_doubles_with_midpoints() {
    let r = Resampler { src_rate: 24000, channels: Channels::Mono };
    let input = vec![0i16, 1000];
    let out = r.resample(&input);
    // ceil(2 * 48000 / 24000) = 4 output frames.
    assert_eq!(out, vec![0, 500, 1000, 1000]);
}

#[test]
fn resample_preserves_constant_signal() {
    let r = Resampler { src_rate: 44100, channels: Channels::Mono };
    let input = vec![-123i16; 441];
    let out = r.resample(&input);
    assert_eq!(out.len(), 480);
    assert!(out.iter().all(|&s| s == -123));
}

#[test]
fn resample_keeps_channels_interleaved() {
    let r = Resampler { src_rate: 24000, channels: Channels::Stereo };
    // Left channel constant 100, right channel constant -200.
    let mut input = Vec::new();
    for _ in 0..10 {
        input.push(100i16);
        input.push(-200i16);
    }
    let out = r.resample(&input);
    assert_eq!(out.len(), 2 * 20);
    for frame in out.chunks(2) {
        assert_eq!(frame[0], 100);
        assert_eq!(frame[1], -200);
    }
}

#[test]
fn chunks_are_cut_at_exact_frame_size_with_fixed_pts_step() {
    let mut acc = ChunkAccumulator::new(Channels::Mono);
    let first: Vec<i16> = vec![7; 1500];
    let chunks: Vec<AudioChunk> = acc.push(&first, false);
    assert_eq!(chunks.len(), 1);
    assert_eq!(chunks[0].samples.len(), FRAME_SIZE);
    assert_eq!(chunks[0].pts_ns, 0);

    // 540 samples remain buffered; 420 more complete the second chunk.
    let second: Vec<i16> = vec![8; 420];
    let chunks = acc.push(&second, false);
    assert_eq!(chunks.len(), 1);
    assert_eq!(chunks[0].pts_ns, AUDIO_PTS_STEP_NS);
    assert_eq!(&chunks[0].samples[..540], &vec![7i16; 540][..]);
    assert_eq!(&chunks[0].samples[540..], &vec![8i16; 420][..]);
}

#[test]
fn stereo_chunks_hold_both_channels_worth() {
    let mut acc = ChunkAccumulator::new(Channels::Stereo);
    let chunks = acc.push(&vec![1i16; 2 * FRAME_SIZE], false);
    assert_eq!(chunks.len(), 1);
    assert_eq!(chunks[0].samples.len(), 2 * FRAME_SIZE);
}

#[test]
fn several_chunks_from_one_buffer_step_in_order() {
    let mut acc = ChunkAccumulator::new(Channels::Mono);
    let chunks = acc.push(&vec![0i16; 3 * FRAME_SIZE + 5], false);
    assert_eq!(chunks.len(), 3);
    assert_eq!(chunks[0].pts_ns, 0);
    assert_eq!(chunks[1].pts_ns, AUDIO_PTS_STEP_NS);
    assert_eq!(chunks[2].pts_ns, 2 * AUDIO_PTS_STEP_NS);
}

#[test]
fn stop_discards_partial_chunk_and_is_permanent() {
    let mut acc = ChunkAccumulator::new(Channels::Mono);
    let chunks = acc.push(&vec![1i16; 500], false);
    assert!(chunks.is_empty());
    // The stop signal: the partial 500 samples are discarded, not flushed.
    let chunks = acc.push(&vec![2i16; 500], true);
    assert!(chunks.is_empty());
    // Ever after, buffers are ignored even with the flag low again.
    let chunks = acc.push(&vec![3i16; 5 * FRAME_SIZE], false);
    assert!(chunks.is_empty());
}
