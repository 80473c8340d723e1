use srs::mux::{MuxError, Muxer, MuxerBuilder};

fn video_only_muxer() -> Muxer {
    MuxerBuilder::new().unwrap().add_video_track(64, 64).unwrap().build()
}

#[test]
fn video_only_container_has_one_track_and_finalizes() {
    let mut muxer = video_only_muxer();
    assert!(muxer.video_track_present());
    assert!(!muxer.audio_track_present());

    muxer.add_video_frame(&vec![1, 2, 3], 0, true).unwrap();
    muxer.add_video_frame(&vec![4, 5], 33, false).unwrap();
    assert_eq!(muxer.video_frame_count(), 2);
    assert_eq!(muxer.audio_frame_count(), 0);

    let bytes = muxer.finalize().expect("finalizing a video-only container");
    assert!(!bytes.is_empty());
    // The EBML magic of a Matroska/WebM file.
    assert_eq!(&bytes[..4], &[0x1A, 0x45, 0xDF, 0xA3]);
}

#[test]
fn zero_video_dimensions_are_rejected() {
    let b = MuxerBuilder::new().unwrap();
    assert!(matches!(b.add_video_track(0, 64), Err(MuxError::BadParam)));
}

#[test]
fn zero_audio_parameters_are_rejected() {
    let b = MuxerBuilder::new().unwrap();
    assert!(matches!(b.add_audio_track(48000, 0), Err(MuxError::BadParam)));
}

#[test]
fn both_tracks_can_be_added_once_each() {
    let mut muxer = MuxerBuilder::new()
        .unwrap()
        .add_video_track(640, 480)
        .unwrap()
        .add_audio_track(48000, 2)
        .unwrap()
        .build();
    assert!(muxer.video_track_present());
    assert!(muxer.audio_track_present());

    muxer.add_video_frame(&vec![9; 10], 0, true).unwrap();
    muxer.add_audio_frame(&vec![7; 20], 0).unwrap();
    muxer.add_audio_frame(&vec![7; 20], 20_000_000).unwrap();
    assert_eq!(muxer.video_frame_count(), 1);
    assert_eq!(muxer.audio_frame_count(), 2);

    let bytes = muxer.finalize().expect("finalizing a two-track container");
    assert!(!bytes.is_empty());
}

#[test]
fn video_timestamps_are_scaled_to_nanoseconds_once() {
    // Frames 33 ms apart must land 33,000,000 ns apart in the container;
    // the muxer accepts the whole non-decreasing run.
    let mut muxer = video_only_muxer();
    for i in 0..5u64 {
        muxer.add_video_frame(&vec![0; 4], i * 33, i == 0).unwrap();
    }
    assert_eq!(muxer.video_frame_count(), 5);
    assert!(muxer.finalize().is_ok());
}
