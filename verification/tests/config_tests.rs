use cyb_ffmpeg_core::config::DecoderConfig;

#[test]
fn test_default_config() {
    let config = DecoderConfig::default();
    assert!(config.prefer_hardware_decoding);
    assert_eq!(config.l1_cache_capacity, 30);
    assert!(config.enable_prefetch);
}

#[test]
fn test_presets() {
    let perf = DecoderConfig::performance();
    assert_eq!(perf.l1_cache_capacity, 60);

    let low = DecoderConfig::low_memory();
    assert!(!low.enable_prefetch);
}

#[test]
fn scrubbing_preset_values() {
    let scrub = DecoderConfig::scrubbing();
    assert_eq!(scrub.l1_cache_capacity, 45);
    assert_eq!(scrub.l2_cache_capacity, 200);
    assert_eq!(scrub.l3_cache_capacity, 800);
    assert!(scrub.enable_prefetch);
}
