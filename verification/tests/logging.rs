use bevy_xilem::plugin::DEFAULT_LOG_FILTER;

#[test]
fn default_filter_suppresses_noisy_targets() {
    assert!(DEFAULT_LOG_FILTER.contains("wgpu_core=warn"));
    assert!(DEFAULT_LOG_FILTER.contains("wgpu_hal=warn"));
    assert!(DEFAULT_LOG_FILTER.contains("bevy_render=warn"));
}

#[test]
fn default_filter_keeps_info_level_and_quiets_app_loop() {
    assert!(DEFAULT_LOG_FILTER.starts_with("info,"));
    assert!(DEFAULT_LOG_FILTER.contains("bevy_app=warn"));
}
