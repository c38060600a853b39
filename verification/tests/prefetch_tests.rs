use cyb_ffmpeg_core::cache::Cache;
use cyb_ffmpeg_core::cache::CacheConfig;
use cyb_ffmpeg_core::frame::PixelFormat;
use cyb_ffmpeg_core::frame::VideoFrame;
use cyb_ffmpeg_core::prefetch::PrefetchCommand;
use cyb_ffmpeg_core::prefetch::PrefetchManager;
use cyb_ffmpeg_core::prefetch::PrefetchResult;
use cyb_ffmpeg_core::prefetch::WorkerCycle;
use cyb_ffmpeg_core::prefetch::frame_duration_us;
use cyb_ffmpeg_core::prefetch::store_prefetched_frame;
use cyb_ffmpeg_core::prefetch::throttle_sleep_ms;

fn frame(pts_us: i64, is_keyframe: bool) -> VideoFrame {
    VideoFrame::new(
        vec![0u8; 500],
        100,
        100,
        400,
        pts_us,
        33333,
        is_keyframe,
        pts_us / 33333,
        PixelFormat::Bgra,
    )
}

#[test]
fn test_prefetch_manager_creation() {
    let manager = PrefetchManager::new(4);
    assert!(!manager.is_running());
    assert_eq!(manager.direction(), 0);
}

#[test]
fn start_and_stop_track_one_generation() {
    let mut manager = PrefetchManager::new(2);

    let plan = manager.start(1, 100, 0);
    assert!(!plan.join_previous);
    assert_eq!(plan.spawn_workers, 2);
    assert!(manager.is_running());
    assert_eq!(manager.direction(), 1);
    assert_eq!(manager.live_workers(), 2);

    let stop = manager.stop();
    assert!(stop.join_workers);
    assert!(!manager.is_running());
    assert_eq!(manager.direction(), 0);
    assert_eq!(manager.live_workers(), 0);

    // stop is idempotent
    let stop = manager.stop();
    assert!(!stop.join_workers);
    assert!(!manager.is_running());
}

#[test]
fn starting_twice_keeps_one_generation() {
    // Starting prefetch twice in succession must leave exactly thread_count
    // live workers, never double that: the second start joins the first
    // generation before spawning.
    let mut manager = PrefetchManager::new(2);

    let first = manager.start(1, 100, 0);
    assert!(!first.join_previous);
    assert_eq!(manager.live_workers(), 2);

    let second = manager.start(-1, 200, 50_000);
    assert!(second.join_previous, "old generation is joined before the new spawn");
    assert_eq!(second.spawn_workers, 2);
    assert_eq!(manager.live_workers(), 2, "exactly thread_count workers, never 2x");
    assert_eq!(manager.direction(), -1);
}

#[test]
fn announce_start_reaches_worker_receivers() {
    let manager = PrefetchManager::new(1);
    let worker_rx = manager.worker_receiver();

    manager.announce_start(1, 150, 42);

    let cmd = worker_rx.try_recv().expect("the command is queued");
    assert_eq!(
        cmd,
        PrefetchCommand::Start { direction: 1, velocity_hundredths: 150, current_time_us: 42 },
    );
}

#[test]
fn stop_broadcasts_one_command_per_worker() {
    let mut manager = PrefetchManager::new(2);
    let worker_rx = manager.worker_receiver();
    manager.start(1, 100, 0);
    // consume the stop-free start state: nothing queued by start itself
    let _ = manager.stop();

    assert_eq!(worker_rx.try_recv().expect("first stop"), PrefetchCommand::Stop);
    assert_eq!(worker_rx.try_recv().expect("second stop"), PrefetchCommand::Stop);
    assert!(worker_rx.try_recv().is_err(), "exactly thread_count stop commands");
}

#[test]
fn results_flow_from_worker_handles() {
    let manager = PrefetchManager::new(1);
    let tx = manager.result_sender();
    tx.send(PrefetchResult::Frame { pts_us: 7 }).unwrap();

    let got = manager.results().try_recv().expect("the result is queued");
    assert!(matches!(got, PrefetchResult::Frame { pts_us: 7 }));
}

#[test]
fn forward_cycle_targets_stay_within_stream_bounds() {
    // direction = +1, duration_us = 1_000_000, frame rate 30 fps: every
    // target the cycle asks to decode lies in [0, 1_000_000].
    let mut cycle = WorkerCycle::start_cycle(1, 30_000, 1_000_000, 0);
    let mut targets: Vec<i64> = Vec::new();
    loop {
        match cycle.advance() {
            Some(t) => {
                assert!(0 <= t && t <= 1_000_000, "target out of stream bounds: {}", t);
                targets.push(t);
            },
            None => break,
        }
    }
    assert_eq!(targets.len(), 30, "33333 us steps fit 30 times into 1 s");
    assert_eq!(*targets.last().unwrap(), 999_990);
}

#[test]
fn backward_cycle_clamps_at_zero() {
    let mut cycle = WorkerCycle::start_cycle(-1, 30_000, 1_000_000, 70_000);
    assert_eq!(cycle.advance(), Some(36_667));
    assert_eq!(cycle.advance(), Some(3_334));
    assert_eq!(cycle.advance(), None, "the next step would leave [0, duration]");
}

#[test]
fn cycle_ceiling_bounds_decoded_frames() {
    let mut cycle = WorkerCycle::start_cycle(1, 0, i64::MAX, 0);
    let mut decoded = 0;
    while !cycle.exhausted() {
        cycle.record_decoded();
        decoded += 1;
    }
    assert_eq!(decoded, 30, "one activation decodes at most the ceiling");
}

#[test]
fn probe_tolerance_is_half_a_frame() {
    let cycle = WorkerCycle::start_cycle(1, 30_000, 1_000_000, 0);
    assert_eq!(cycle.probe_tolerance_us(), 33_333 / 2);
}

#[test]
fn prefetched_keyframe_lands_in_l2_and_l3() {
    let mut cache = Cache::new(CacheConfig::default());
    let result = store_prefetched_frame(&mut cache, &frame(66_666, true));
    assert!(matches!(result, PrefetchResult::Frame { pts_us: 66_666 }));

    let stats = cache.statistics();
    assert_eq!(stats.l2_entries, 1);
    assert_eq!(stats.l3_entries, 1);
    assert_eq!(stats.l1_entries, 0);
}

#[test]
fn prefetched_delta_frame_lands_only_in_l3() {
    let mut cache = Cache::new(CacheConfig::default());
    let result = store_prefetched_frame(&mut cache, &frame(99_999, false));
    assert!(matches!(result, PrefetchResult::Frame { pts_us: 99_999 }));

    let stats = cache.statistics();
    assert_eq!(stats.l2_entries, 0);
    assert_eq!(stats.l3_entries, 1);

    let hit = cache.get(99_999, 0);
    assert!(hit.is_some(), "the stored frame is retrievable");
}

#[test]
fn frame_duration_follows_the_rate() {
    assert_eq!(frame_duration_us(30_000), 33_333);
    assert_eq!(frame_duration_us(60_000), 16_666);
    assert_eq!(frame_duration_us(29_970), 33_366);
    assert_eq!(frame_duration_us(0), 33_333, "fallback when the rate is unknown");
}

#[test]
fn throttle_is_inverse_to_velocity() {
    // 1.0x: 10000 / 100 = 100 ms, not under the ceiling: no sleep
    assert_eq!(throttle_sleep_ms(100), None);
    // 1.5x: 10000 / 150 = 66 ms
    assert_eq!(throttle_sleep_ms(150), Some(66));
    // slow scrubbing floors the divisor: 10000 / 50 = 200 ms, over the ceiling
    assert_eq!(throttle_sleep_ms(25), None);
    // direction does not matter, only speed
    assert_eq!(throttle_sleep_ms(-200), Some(50));
}
