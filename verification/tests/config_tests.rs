use rust_helper::config::{get_current_timestamp, timestamp_or_zero, AppConfig, ScanCache};

#[test]
fn config_test_get_current_timestamp() {
    let ts = get_current_timestamp();
    // Should be after 2024
    assert!(ts > 1700000000);
}

#[test]
fn test_app_config_default() {
    let config = AppConfig::default();
    assert!(config.favorites.is_empty());
    assert!(config.hidden.is_empty());
    assert!(config.scan_root.is_none());
    assert!(config.recent_projects.is_empty());
    assert!(config.preferred_ide.is_none());
}

#[test]
fn test_scan_cache_default() {
    let cache = ScanCache::default();
    assert!(cache.outdated_results.is_none());
    assert!(cache.outdated_timestamp.is_none());
    assert!(cache.audit_results.is_none());
    assert!(cache.audit_timestamp.is_none());
}

#[test]
fn timestamp_is_zero_before_the_epoch() {
    assert_eq!(timestamp_or_zero(None), 0);
    assert_eq!(timestamp_or_zero(Some(1700000000)), 1700000000);
}

#[test]
fn favorites_are_switched_on_and_off() {
    let mut config = AppConfig::default();
    config.set_favorite("/a".to_string(), true);
    config.set_favorite("/b".to_string(), true);
    config.set_favorite("/a".to_string(), true);
    assert_eq!(config.favorites, vec!["/a", "/b"]);
    config.set_favorite("/a".to_string(), false);
    assert_eq!(config.favorites, vec!["/b"]);
    config.set_hidden("/c".to_string(), true);
    config.set_hidden("/d".to_string(), false);
    assert_eq!(config.hidden, vec!["/c"]);
}

#[test]
fn recent_projects_keep_the_last_five() {
    let mut config = AppConfig::default();
    for p in ["/1", "/2", "/3", "/4", "/5", "/6", "/3"] {
        config.add_recent_project(p.to_string());
    }
    assert_eq!(config.recent_projects, vec!["/3", "/6", "/5", "/4", "/2"]);
}

#[test]
fn cache_records_results_with_their_time() {
    let mut cache = ScanCache::default();
    cache.record_outdated(Vec::new(), 42);
    assert_eq!(cache.outdated_timestamp, Some(42));
    assert!(cache.outdated_results.is_some());
    assert!(cache.audit_results.is_none());
}
