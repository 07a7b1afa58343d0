use readtext::config::{default_search_paths, default_true, Config, Features, InstanceMode};

#[test]
fn default_config_has_no_search_paths() {
    let config = Config::default();
    assert!(config.search_paths.is_empty());
    assert!(default_search_paths().is_empty());
}

#[test]
fn default_instance_mode_is_off() {
    let mode = InstanceMode::default();
    assert!(!mode.enabled);
    assert!(!mode.allow_multiple_windows);
    let config = Config::default();
    assert!(!config.instance_mode.enabled);
    assert!(!config.instance_mode.allow_multiple_windows);
}

#[test]
fn default_features_are_all_on() {
    let features = Features::default();
    assert!(features.vim_navigation);
    assert!(features.live_reload);
    assert!(features.auto_index);
    assert!(default_true());
}
