use cyb_ffmpeg_core::config::DecoderConfig;
use cyb_ffmpeg_core::decoder::Decoder;
use cyb_ffmpeg_core::decoder::FrameLookup;
use cyb_ffmpeg_core::decoder::PreciseSeekScan;
use cyb_ffmpeg_core::decoder::pts_to_us;
use cyb_ffmpeg_core::decoder::us_to_pts;
use cyb_ffmpeg_core::error::Error;
use cyb_ffmpeg_core::frame::PixelFormat;
use cyb_ffmpeg_core::frame::VideoFrame;
use cyb_ffmpeg_core::info::MediaInfo;

fn frame(pts_us: i64, is_keyframe: bool) -> VideoFrame {
    VideoFrame::new(
        vec![0u8; 800],
        100,
        100,
        400,
        pts_us,
        33333,
        is_keyframe,
        pts_us / 33333,
        PixelFormat::Bgra,
    )
}

#[test]
fn test_pts_conversion() {
    // 90000 pts @ 1/90000 = 1 second = 1000000 us
    let us = pts_to_us(90000, 1, 90000);
    assert_eq!(us, 1_000_000);

    // Round trip
    let pts = us_to_pts(us, 1, 90000);
    assert_eq!(pts, 90000);
}

#[test]
fn pts_conversion_handles_negative_timestamps() {
    // timestamps are signed: a stream may carry pts before zero
    assert_eq!(pts_to_us(-90000, 1, 90000), -1_000_000);
    assert_eq!(us_to_pts(-1_000_000, 1, 90000), -90000);
    // the machine division truncates toward zero
    assert_eq!(pts_to_us(-1, 1, 3_000_000), 0);
}

#[test]
fn degenerate_time_bases_pass_positions_through() {
    // a zero denominator leaves a pts untouched
    assert_eq!(pts_to_us(5, 1, 0), 5);
    // a zero numerator leaves a position untouched
    assert_eq!(us_to_pts(7, 0, 90000), 7);
}

#[test]
fn unprepared_decoder_refuses_work() {
    let mut decoder = Decoder::new("/media/clip.mp4".to_owned(), DecoderConfig::default());
    assert!(!decoder.is_prepared());
    assert!(matches!(decoder.start_decoding(), Err(Error::NotPrepared)));
    assert!(matches!(decoder.check_prepared(), Err(Error::NotPrepared)));
    assert!(matches!(decoder.begin_get_frame_at(0, 0), FrameLookup::NotPrepared));
    assert!(matches!(decoder.start_prefetch(1, 100), Err(Error::NotPrepared)));
}

#[test]
fn prepare_installs_media_info_once() {
    let mut decoder = Decoder::new("/media/clip.mp4".to_owned(), DecoderConfig::default());
    decoder.prepare(MediaInfo::placeholder("/media/clip.mp4"));
    assert!(decoder.is_prepared());
    assert!(decoder.media_info().is_some());
    assert!(decoder.has_audio());

    assert!(decoder.start_decoding().is_ok());
    assert!(decoder.is_decoding());
    decoder.stop_decoding();
    assert!(!decoder.is_decoding());
}

#[test]
fn lookup_is_cache_first() {
    let mut decoder = Decoder::new("/media/clip.mp4".to_owned(), DecoderConfig::default());
    decoder.prepare(MediaInfo::placeholder("/media/clip.mp4"));

    // nothing cached, playhead at 0, target right there: no seek needed
    match decoder.begin_get_frame_at(0, 1000) {
        FrameLookup::Decode { seek_first } => assert!(!seek_first),
        _ => panic!("expected a miss on the empty cache"),
    }

    // a distant target asks for a seek first (distance > 10 * tolerance)
    match decoder.begin_get_frame_at(500_000, 1000) {
        FrameLookup::Decode { seek_first } => assert!(seek_first),
        _ => panic!("expected a miss on the empty cache"),
    }

    // the engine decodes a frame within tolerance: the scan ends with it,
    // the frame is cached and the playhead moves
    let done = decoder.on_foreground_frame(frame(500, false), 0, 1000);
    assert!(done.is_some());
    assert_eq!(decoder.current_time_us(), 500);

    // the same lookup is now served from the cache
    match decoder.begin_get_frame_at(500, 0) {
        FrameLookup::Hit(f) => assert_eq!(f.pts_us, 500),
        _ => panic!("expected a cache hit"),
    }
}

#[test]
fn foreground_scan_continues_before_the_target() {
    let mut decoder = Decoder::new("/media/clip.mp4".to_owned(), DecoderConfig::default());
    decoder.prepare(MediaInfo::placeholder("/media/clip.mp4"));

    // a frame long before the target, outside tolerance: keep decoding
    let step = decoder.on_foreground_frame(frame(10_000, true), 200_000, 1000);
    assert!(step.is_none());

    // a frame past the target ends the scan even though it missed the window
    let step = decoder.on_foreground_frame(frame(250_000, false), 200_000, 1000);
    assert!(step.is_some());

    // a keyframe scanned on the way was indexed into L2 and L1
    let stats = decoder.cache_statistics();
    assert_eq!(stats.l2_entries, 1);
    assert_eq!(stats.l1_entries, 2);
}

#[test]
fn record_miss_counts_once_per_final_miss() {
    let mut decoder = Decoder::new("/media/clip.mp4".to_owned(), DecoderConfig::default());
    decoder.prepare(MediaInfo::placeholder("/media/clip.mp4"));
    decoder.record_miss();
    assert_eq!(decoder.cache_statistics().miss_count, 1);
}

#[test]
fn sequential_decoding_gates_and_indexes_keyframes() {
    let mut decoder = Decoder::new("/media/clip.mp4".to_owned(), DecoderConfig::default());
    assert!(decoder.can_decode_sequentially().is_err());

    decoder.prepare(MediaInfo::placeholder("/media/clip.mp4"));
    assert_eq!(decoder.can_decode_sequentially().unwrap(), false);

    decoder.start_decoding().unwrap();
    assert_eq!(decoder.can_decode_sequentially().unwrap(), true);

    let out = decoder.on_sequential_frame(frame(0, true));
    assert_eq!(out.pts_us, 0);
    assert_eq!(decoder.current_time_us(), 0);
    let stats = decoder.cache_statistics();
    assert_eq!(stats.l2_entries, 1, "keyframes are indexed into L2");
    assert_eq!(stats.l1_entries, 0, "sequential frames are not forced into L1");
}

#[test]
fn precise_seek_lands_on_covering_frame() {
    let mut decoder = Decoder::new("/media/clip.mp4".to_owned(), DecoderConfig::default());
    decoder.prepare(MediaInfo::placeholder("/media/clip.mp4"));
    decoder.record_seek(100_000);
    assert_eq!(decoder.current_time_us(), 100_000);

    // 30 fps: frames every 33333 us; target 100000
    let mut scan = PreciseSeekScan::begin(100_000, 30_000);
    assert!(scan.wants_more());
    scan.offer_frame(frame(0, true));
    assert!(scan.wants_more(), "frame 0 does not cover the target yet");
    scan.offer_frame(frame(33_333, false));
    assert!(scan.wants_more());
    scan.offer_frame(frame(66_666, false));
    assert!(scan.wants_more(), "66666 + 33333 is just short of the target");
    scan.offer_frame(frame(99_999, false));
    assert!(!scan.wants_more(), "99999 + 33333 covers 100000");
    let best = scan.best.expect("a frame was found");
    assert_eq!(best.pts_us, 99_999);

    decoder.record_precise_seek_frame(&best);
    assert_eq!(decoder.current_time_us(), 99_999);
    assert_eq!(decoder.cache_statistics().l1_entries, 1);
}

#[test]
fn precise_seek_takes_first_frame_past_an_early_target() {
    let mut scan = PreciseSeekScan::begin(5_000, 30_000);
    // the first decodable frame is already past the target
    scan.offer_frame(frame(40_000, true));
    assert!(!scan.wants_more());
    assert_eq!(scan.best.unwrap().pts_us, 40_000);
}

#[test]
fn precise_seek_survives_end_of_stream() {
    let mut scan = PreciseSeekScan::begin(10_000_000, 30_000);
    scan.offer_frame(frame(0, true));
    scan.end_of_stream();
    assert!(!scan.wants_more());
    assert_eq!(scan.best.unwrap().pts_us, 0, "the last frame before the end stands");
}

#[test]
fn prefetch_lifecycle_through_the_facade() {
    let mut decoder = Decoder::new("/media/clip.mp4".to_owned(), DecoderConfig::default());
    decoder.prepare(MediaInfo::placeholder("/media/clip.mp4"));

    let plan = decoder.start_prefetch(1, 150).unwrap().expect("prefetch is enabled");
    assert!(!plan.join_previous);
    assert_eq!(plan.spawn_workers, 2);
    assert!(decoder.is_prefetching());
    decoder.announce_prefetch_start(1, 150);

    // the manager was created lazily with the fixed pool size and the
    // workers' context
    {
        let manager = decoder.prefetch_manager().as_ref().expect("created on first start");
        assert_eq!(manager.thread_count(), 2);
        assert_eq!(manager.live_workers(), 2);
        let context = manager.context().as_ref().expect("workers get a context");
        assert_eq!(context.path, "/media/clip.mp4");
        assert_eq!(context.duration_us, 0, "placeholder media info");
    }

    // starting again stops the previous generation first and reuses the
    // manager: still one generation of exactly thread_count workers
    let plan = decoder.start_prefetch(-1, 100).unwrap().unwrap();
    assert!(plan.join_previous);
    assert_eq!(plan.spawn_workers, 2);
    {
        let manager = decoder.prefetch_manager().as_ref().expect("retained and reused");
        assert_eq!(manager.thread_count(), 2);
        assert_eq!(manager.live_workers(), 2);
        assert_eq!(manager.direction(), -1);
    }

    let stop = decoder.stop_prefetch();
    assert!(stop.join_workers);
    assert!(!decoder.is_prefetching());
}

#[test]
fn disabled_prefetch_is_a_quiet_no_op() {
    let config = DecoderConfig { enable_prefetch: false, ..DecoderConfig::default() };
    let mut decoder = Decoder::new("/media/clip.mp4".to_owned(), config);
    decoder.prepare(MediaInfo::placeholder("/media/clip.mp4"));

    let plan = decoder.start_prefetch(1, 100).unwrap();
    assert!(plan.is_none());
    assert!(!decoder.is_prefetching());
    assert!(decoder.prefetch_manager().is_none(), "no manager is created");
}

#[test]
fn clear_cache_keeps_counters() {
    let mut decoder = Decoder::new("/media/clip.mp4".to_owned(), DecoderConfig::default());
    decoder.prepare(MediaInfo::placeholder("/media/clip.mp4"));
    let _ = decoder.on_foreground_frame(frame(0, true), 0, 0);
    match decoder.begin_get_frame_at(0, 0) {
        FrameLookup::Hit(_) => {},
        _ => panic!("expected a hit"),
    }

    decoder.clear_cache();
    let stats = decoder.cache_statistics();
    assert_eq!(stats.l1_entries + stats.l2_entries + stats.l3_entries, 0);
    assert_eq!(stats.l1_hit_count, 1, "counters are cumulative");
    assert_eq!(decoder.path(), "/media/clip.mp4");
}
