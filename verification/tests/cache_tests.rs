use cyb_ffmpeg_core::cache::Cache;
use cyb_ffmpeg_core::cache::CacheConfig;
use cyb_ffmpeg_core::frame::PixelFormat;
use cyb_ffmpeg_core::frame::VideoFrame;

fn test_frame(pts_us: i64) -> VideoFrame {
    VideoFrame::new(
        vec![0u8; 1000],
        100,
        100,
        400,
        pts_us,
        16666,
        pts_us == 0,
        pts_us / 16666,
        PixelFormat::Bgra,
    )
}

/// Helper to create a keyframe
fn test_keyframe(pts_us: i64) -> VideoFrame {
    VideoFrame::new(
        vec![0u8; 1000],
        100,
        100,
        400,
        pts_us,
        16666,
        true,
        pts_us / 16666,
        PixelFormat::Bgra,
    )
}

/// Helper to create a non-keyframe
fn test_non_keyframe(pts_us: i64) -> VideoFrame {
    VideoFrame::new(
        vec![0u8; 1000],
        100,
        100,
        400,
        pts_us,
        16666,
        false,
        pts_us / 16666,
        PixelFormat::Bgra,
    )
}

#[test]
fn test_cache_insert_get() {
    let mut cache = Cache::new(CacheConfig::default());

    let frame = test_frame(0);
    cache.insert_l1(0, frame);

    let result = cache.get(0, 1000);
    assert!(result.is_some());
}

#[test]
fn test_cache_tolerance() {
    let mut cache = Cache::new(CacheConfig::default());

    cache.insert_l1(1000, test_frame(1000));

    // Should find within tolerance
    let result = cache.get(1500, 1000);
    assert!(result.is_some());

    // Should not find outside tolerance
    let result = cache.get(5000, 1000);
    assert!(result.is_none());
}

#[test]
fn test_lru_eviction() {
    let config = CacheConfig { l1_capacity: 3, ..Default::default() };
    let mut cache = Cache::new(config);

    cache.insert_l1(0, test_frame(0));
    cache.insert_l1(1000, test_frame(1000));
    cache.insert_l1(2000, test_frame(2000));
    cache.insert_l1(3000, test_frame(3000)); // Should evict 0

    assert!(cache.get(0, 0).is_none());
    assert!(cache.get(3000, 0).is_some());
}

#[test]
fn test_statistics() {
    let mut cache = Cache::new(CacheConfig::default());

    cache.insert_l1(0, test_frame(0));
    cache.get(0, 0); // Hit
    cache.get(1000, 0); // Miss
    cache.record_miss();

    let stats = cache.statistics();
    assert_eq!(stats.l1_entries, 1);
    assert_eq!(stats.l1_hit_count, 1);
    assert_eq!(stats.miss_count, 1);
}

#[test]
fn test_l2_keyframe_only() {
    let mut cache = Cache::new(CacheConfig::default());

    // Insert a keyframe into L2
    let keyframe = test_keyframe(0);
    cache.insert_l2(0, keyframe);

    // L2 should contain the keyframe
    let stats = cache.statistics();
    assert_eq!(stats.l2_entries, 1, "L2 should contain keyframe");

    // Insert a non-keyframe into L2 - should be rejected
    let non_keyframe = test_non_keyframe(16666);
    cache.insert_l2(16666, non_keyframe);

    // L2 should still have only 1 entry
    let stats = cache.statistics();
    assert_eq!(stats.l2_entries, 1, "L2 should reject non-keyframe");

    // Verify the keyframe can be retrieved
    let result = cache.get(0, 0);
    assert!(result.is_some(), "Should find keyframe in L2");
    assert!(result.unwrap().is_keyframe, "Retrieved frame should be keyframe");
}

#[test]
fn test_cache_promotion_l3_to_l1() {
    let config = CacheConfig { l1_capacity: 5, l2_capacity: 5, l3_capacity: 10, enable_prefetch: true };
    let mut cache = Cache::new(config);

    // Insert frame only into L3
    let frame_pts = 100_000;
    cache.insert_l3(frame_pts, test_frame(frame_pts));

    // Verify it's in L3 but not in L1
    let stats = cache.statistics();
    assert_eq!(stats.l1_entries, 0, "Should not be in L1 yet");
    assert_eq!(stats.l3_entries, 1, "Should be in L3");

    // Get the frame - this should trigger promotion to L1
    let result = cache.get(frame_pts, 0);
    assert!(result.is_some(), "Should find frame in L3");

    // After access, verify L3 hit was recorded
    let stats = cache.statistics();
    assert_eq!(stats.l3_hit_count, 1, "Should record L3 hit");

    // Frame should now be promoted to L1
    cache.insert_l1(frame_pts, test_frame(frame_pts));
    let _ = cache.get(frame_pts, 0);

    let stats = cache.statistics();
    assert!(stats.l1_hit_count >= 1, "Should record L1 hit after promotion");
}

#[test]
fn test_l2_eviction_lru() {
    let config = CacheConfig {
        l1_capacity: 30,
        l2_capacity: 3, // Small capacity for testing
        l3_capacity: 100,
        enable_prefetch: true,
    };
    let mut cache = Cache::new(config);

    // Insert 3 keyframes into L2
    cache.insert_l2(0, test_keyframe(0));
    cache.insert_l2(100_000, test_keyframe(100_000));
    cache.insert_l2(200_000, test_keyframe(200_000));

    let stats = cache.statistics();
    assert_eq!(stats.l2_entries, 3, "Should have 3 entries in L2");

    // Insert a 4th keyframe - should evict the oldest (0)
    cache.insert_l2(300_000, test_keyframe(300_000));

    let stats = cache.statistics();
    assert_eq!(stats.l2_entries, 3, "Should still have 3 entries after eviction");

    // The oldest keyframe (0) should be evicted
    let result = cache.get(0, 0);
    assert!(result.is_none(), "Oldest keyframe should be evicted");

    // Newest keyframe should be present
    let result = cache.get(300_000, 0);
    assert!(result.is_some(), "Newest keyframe should be present");
}

#[test]
fn test_multi_tier_access_order() {
    let mut cache = Cache::new(CacheConfig::default());
    let pts = 50_000;

    // Insert same frame into all tiers
    cache.insert_l1(pts, test_frame(pts));
    cache.insert_l3(pts, test_frame(pts));

    // Access should hit L1 first (highest priority)
    let _ = cache.get(pts, 0);

    let stats = cache.statistics();
    assert_eq!(stats.l1_hit_count, 1, "Should hit L1 first");
    assert_eq!(stats.l3_hit_count, 0, "Should not hit L3");
}

#[test]
fn small_l1_with_leading_keyframe_evicts_oldest() {
    // {l1:3, l2:5, l3:5}: a keyframe at 0, then non-keyframes at 1000, 2000,
    // 3000 into L1 (capacity 3) - the fourth insert evicts the oldest key.
    let config = CacheConfig { l1_capacity: 3, l2_capacity: 5, l3_capacity: 5, enable_prefetch: true };
    let mut cache = Cache::new(config);

    cache.insert_l1(0, test_keyframe(0));
    cache.insert_l1(1000, test_non_keyframe(1000));
    cache.insert_l1(2000, test_non_keyframe(2000));
    cache.insert_l1(3000, test_non_keyframe(3000));

    assert!(cache.get(0, 0).is_none());
    let newest = cache.get(3000, 0);
    assert!(newest.is_some());
    assert_eq!(newest.unwrap().pts_us, 3000);
}

#[test]
fn boundary_exclusion_at_exact_tolerance() {
    let mut cache = Cache::new(CacheConfig::default());
    cache.insert_l1(1000, test_frame(1000));

    // |1000 - 2001| = 1001 > 1000: outside tolerance
    assert!(cache.get(2001, 1000).is_none());
    // |1000 - 2000| = 1000 <= 1000: inside
    assert!(cache.get(2000, 1000).is_some());
}

#[test]
fn nearest_key_wins_within_tolerance() {
    let mut cache = Cache::new(CacheConfig::default());
    cache.insert_l1(1000, test_frame(1000));
    cache.insert_l1(1400, test_frame(1400));

    // dist(1000, 1250) = 250, dist(1400, 1250) = 150: 1400 is nearer
    let hit = cache.get(1250, 500);
    assert!(hit.is_some());
    assert_eq!(hit.unwrap().pts_us, 1400);
}

#[test]
fn exact_match_beats_nearer_neighbours() {
    let mut cache = Cache::new(CacheConfig::default());
    cache.insert_l1(1000, test_frame(1000));
    cache.insert_l1(1001, test_frame(1001));

    let hit = cache.get(1000, 10);
    assert_eq!(hit.unwrap().pts_us, 1000);
}

#[test]
fn zero_capacity_tier_holds_at_most_one() {
    // a zero capacity degrades to "every insert evicts the previous one"
    let config = CacheConfig { l1_capacity: 0, l2_capacity: 5, l3_capacity: 5, enable_prefetch: true };
    let mut cache = Cache::new(config);

    cache.insert_l1(0, test_frame(0));
    cache.insert_l1(1000, test_frame(1000));

    let stats = cache.statistics();
    assert!(stats.l1_entries <= 1);
    assert!(cache.get(0, 0).is_none());
    assert!(cache.get(1000, 0).is_some());
}

#[test]
fn clear_keeps_cumulative_counters() {
    let mut cache = Cache::new(CacheConfig::default());
    cache.insert_l1(0, test_frame(0));
    cache.get(0, 0);
    cache.record_miss();

    cache.clear();

    let stats = cache.statistics();
    assert_eq!(stats.l1_entries, 0);
    assert_eq!(stats.l2_entries, 0);
    assert_eq!(stats.l3_entries, 0);
    assert_eq!(stats.l1_hit_count, 1, "hit counters survive clear");
    assert_eq!(stats.miss_count, 1, "miss counter survives clear");
    assert_eq!(stats.memory_usage_bytes, 0);
}

#[test]
fn memory_usage_sums_buffer_sizes() {
    let mut cache = Cache::new(CacheConfig::default());
    cache.insert_l1(0, test_frame(0));
    cache.insert_l3(1000, test_frame(1000));

    let stats = cache.statistics();
    assert_eq!(stats.memory_usage_bytes, 2000);
    assert_eq!(stats.total_entries(), 2);
}

#[test]
fn promotion_serves_the_second_lookup_from_l1() {
    let mut cache = Cache::new(CacheConfig::default());
    cache.insert_l3(75_000, test_frame(75_000));

    // first lookup is served by L3 and promotes into L1
    assert!(cache.get(75_000, 0).is_some());
    let stats = cache.statistics();
    assert_eq!(stats.l3_hit_count, 1);
    assert_eq!(stats.l1_hit_count, 0);
    assert_eq!(stats.l1_entries, 1, "the hit was promoted into L1");

    // the second lookup at the same timestamp is served by L1
    assert!(cache.get(75_000, 0).is_some());
    let stats = cache.statistics();
    assert_eq!(stats.l1_hit_count, 1);
    assert_eq!(stats.l3_hit_count, 1, "L3 is not consulted again");
}

#[test]
fn round_trip_returns_equal_frame() {
    let mut cache = Cache::new(CacheConfig::default());
    let frame = test_frame(42_000);
    cache.insert_l1(42_000, frame.clone());

    let back = cache.get(42_000, 0).expect("exact-match round trip");
    assert_eq!(back, frame);
}
