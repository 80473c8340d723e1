use srs::vpx::{Config, Encoder, PacketKind, VpxError, FRAME_IS_KEY};

fn cfg(width: u32, height: u32) -> Config {
    Config { width, height, timebase_num: 1, timebase_den: 1000, bitrate: 5000 }
}

/// A planar buffer of the size `encode` demands for the given dimensions.
fn i420_buf(width: usize, height: usize) -> Vec<u8> {
    vec![128u8; width * height + 2 * ((width / 2) * (height / 2))]
}

#[test]
fn odd_dimensions_are_rejected() {
    assert!(matches!(Encoder::new(cfg(641, 480)), Err(VpxError::OddDimensions)));
    assert!(matches!(Encoder::new(cfg(640, 481)), Err(VpxError::OddDimensions)));
    assert!(Encoder::new(cfg(640, 480)).is_ok());
}

#[test]
fn packets_carry_submission_timestamps_in_order() {
    let mut enc = Encoder::new(cfg(4, 4)).unwrap();
    let buf = i420_buf(4, 4);
    enc.encode(0, &buf);
    enc.encode(33, &buf);
    enc.encode(66, &buf);
    assert_eq!(enc.pending_count(), 3);

    let f0 = enc.next_packet(PacketKind::CompressedFrame, FRAME_IS_KEY, vec![1, 2]).unwrap();
    assert_eq!(f0.pts, 0);
    assert!(f0.key);
    assert_eq!(f0.data, vec![1, 2]);

    let f1 = enc.next_packet(PacketKind::CompressedFrame, 0, vec![3]).unwrap();
    assert_eq!(f1.pts, 33);
    assert!(!f1.key);
    assert!(f1.pts >= f0.pts);
    assert_eq!(enc.pending_count(), 1);
}

#[test]
fn auxiliary_packets_are_skipped() {
    let mut enc = Encoder::new(cfg(4, 4)).unwrap();
    let buf = i420_buf(4, 4);
    enc.encode(10, &buf);
    assert!(enc.next_packet(PacketKind::Other, 0, vec![9, 9]).is_none());
    assert_eq!(enc.pending_count(), 1);
    let f = enc.next_packet(PacketKind::CompressedFrame, 0, vec![1]).unwrap();
    assert_eq!(f.pts, 10);
}

#[test]
fn keyframe_flag_follows_bitmask() {
    let mut enc = Encoder::new(cfg(4, 4)).unwrap();
    let buf = i420_buf(4, 4);
    enc.encode(0, &buf);
    enc.encode(1, &buf);
    // Other bits of the frame-type mask do not make a keyframe.
    let f = enc.next_packet(PacketKind::CompressedFrame, 0xE, vec![]).unwrap();
    assert!(!f.key);
    let g = enc.next_packet(PacketKind::CompressedFrame, 0xF, vec![]).unwrap();
    assert!(g.key);
}

#[test]
fn frame_packet_without_submission_is_dropped() {
    let mut enc = Encoder::new(cfg(4, 4)).unwrap();
    assert!(enc.next_packet(PacketKind::CompressedFrame, 1, vec![5]).is_none());
}

#[test]
fn finish_reissues_flush_exactly_once() {
    let enc = Encoder::new(cfg(4, 4)).unwrap();
    let mut fin = enc.finish();
    // First empty probe: nudge the codec once more.
    assert!(fin.on_empty());
    // Second empty probe: the stream is exhausted.
    assert!(!fin.on_empty());
    assert!(!fin.on_empty());
}

#[test]
fn drain_emits_leftover_lookahead_in_order() {
    let mut enc = Encoder::new(cfg(4, 4)).unwrap();
    let buf = i420_buf(4, 4);
    enc.encode(100, &buf);
    enc.encode(133, &buf);
    let mut fin = enc.finish();
    let a = fin.next_packet(PacketKind::CompressedFrame, 0, vec![1]).unwrap();
    let b = fin.next_packet(PacketKind::CompressedFrame, 0, vec![2]).unwrap();
    assert_eq!(a.pts, 100);
    assert_eq!(b.pts, 133);
    assert!(fin.on_empty());
    assert!(fin.next_packet(PacketKind::CompressedFrame, 0, vec![3]).is_none());
    assert!(!fin.on_empty());
}
