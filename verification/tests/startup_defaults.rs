use learning::startup::{log_filter_to_install, DEFAULT_LOG_FILTER};

#[test]
fn default_log_filter_installed_when_unset() {
    assert_eq!(log_filter_to_install(false), Some("actix_web=info".to_string()));
    assert_eq!(DEFAULT_LOG_FILTER, "actix_web=info");
}

#[test]
fn configured_log_filter_left_alone() {
    assert_eq!(log_filter_to_install(true), None);
}
