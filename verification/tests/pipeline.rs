use srs::convert::argb_to_i420;
use srs::mux::MuxerBuilder;
use srs::pipeline::{Coordinator, Phase, Poll, TickStep};
use srs::vpx::{Config, Encoder, PacketKind, FRAME_IS_KEY};

#[test]
fn stop_signal_leaves_capturing_at_once() {
    let mut coord = Coordinator::new(30, None);
    coord.start();
    assert_eq!(coord.phase(), Phase::Capturing);
    // The tick that observes the stop signal drains, whatever the poll said.
    let step = coord.tick(100, true, Poll::Frame);
    assert_eq!(step, TickStep::Drain);
    assert_eq!(coord.phase(), Phase::Draining);
}

#[test]
fn duration_limit_ends_the_capture_phase() {
    let mut coord = Coordinator::new(30, Some(2));
    coord.start();
    assert_eq!(coord.tick(2000, false, Poll::Frame), TickStep::Encode { pts_ms: 2000 });
    assert_eq!(coord.tick(2001, false, Poll::Frame), TickStep::Drain);
    assert_eq!(coord.phase(), Phase::Draining);
}

#[test]
fn not_ready_is_benign_and_skips() {
    let mut coord = Coordinator::new(30, None);
    coord.start();
    assert_eq!(coord.tick(5, false, Poll::NotReady), TickStep::Skip);
    assert_eq!(coord.phase(), Phase::Capturing);
    assert_eq!(coord.tick(38, false, Poll::Frame), TickStep::Encode { pts_ms: 38 });
}

#[test]
fn fatal_capture_error_drains() {
    let mut coord = Coordinator::new(30, None);
    coord.start();
    assert_eq!(coord.tick(5, false, Poll::Fatal), TickStep::Drain);
    assert_eq!(coord.phase(), Phase::Draining);
}

#[test]
fn sleep_covers_the_rest_of_the_frame_period() {
    let coord = Coordinator::new(30, None);
    let period = 1_000_000_000 / 30;
    assert_eq!(coord.sleep_ns(0), period);
    assert_eq!(coord.sleep_ns(period - 1), 1);
    // A tick that overran the period does not sleep; timing drifts.
    assert_eq!(coord.sleep_ns(period), 0);
    assert_eq!(coord.sleep_ns(10 * period), 0);
}

#[test]
fn end_to_end_synthetic_recording() {
    // A 64x64 solid-color source at 30 fps for 2 seconds, with a codec that
    // returns one compressed packet per submitted frame.
    let mut coord = Coordinator::new(30, Some(2));
    coord.start();
    let mut enc = Encoder::new(Config {
        width: 64,
        height: 64,
        timebase_num: 1,
        timebase_den: 1000,
        bitrate: 5000,
    })
    .unwrap();
    let mut muxer = MuxerBuilder::new().unwrap().add_video_track(64, 64).unwrap().build();

    let mut raw = Vec::new();
    for _ in 0..64 * 64 {
        raw.extend_from_slice(&[40, 90, 200, 255]);
    }
    let mut yuv = Vec::new();

    let mut tick_index: u64 = 0;
    let mut last_ts_ms: u64 = 0;
    loop {
        let elapsed_ms = tick_index * 33;
        match coord.tick(elapsed_ms, false, Poll::Frame) {
            TickStep::Encode { pts_ms } => {
                argb_to_i420(64, 64, &raw, &mut yuv);
                enc.encode(pts_ms as i64, &yuv);
                let flags = if tick_index == 0 { FRAME_IS_KEY } else { 0 };
                let f = enc.next_packet(PacketKind::CompressedFrame, flags, yuv.clone()).unwrap();
                let ts = f.pts as u64;
                assert!(ts >= last_ts_ms);
                last_ts_ms = ts;
                muxer.add_video_frame(&f.data, ts, f.key).unwrap();
            }
            TickStep::Skip => {}
            TickStep::Drain => break,
        }
        tick_index += 1;
    }

    // Drain the (empty) lookahead: one extra flush nudge, then done.
    let mut fin = enc.finish();
    assert!(fin.next_packet(PacketKind::CompressedFrame, 0, Vec::new()).is_none());
    assert!(fin.on_empty());
    assert!(!fin.on_empty());
    coord.drained();
    assert_eq!(coord.phase(), Phase::Closed);

    let frames = muxer.video_frame_count();
    assert!(59 <= frames && frames <= 61, "got {} frames", frames);
    // The last timestamp stays within the duration plus one frame period.
    assert!(last_ts_ms <= 2000 + 34);

    let bytes = muxer.finalize().expect("finalizing the recording");
    assert!(!bytes.is_empty());
}
