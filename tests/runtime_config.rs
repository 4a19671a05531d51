use rmm_agent::config::{default_data_dir, join_path, Config, Platform};
use rmm_agent::runtime_config::RuntimeConfig;

#[test]
fn test_default_config() {
    let config = RuntimeConfig::default();
    assert!(config.server_url.is_none());
    assert!(config.netdata_url.is_none());
    assert!(config.metrics_interval.is_none());
}

#[test]
fn test_effective_values() {
    let config = RuntimeConfig {
        server_url: Some("https://custom.example.com".to_string()),
        netdata_url: None,
        metrics_interval: Some(120),
    };

    assert_eq!(
        config.effective_server_url("https://default.example.com"),
        "https://custom.example.com"
    );
    assert_eq!(
        config.effective_netdata_url("http://localhost:19999"),
        "http://localhost:19999"
    );
    assert_eq!(config.effective_metrics_interval(60), 120);
}

#[test]
fn config_path_per_platform() {
    assert_eq!(RuntimeConfig::config_path(Platform::Linux), "/var/lib/rmm/config.json");
    assert_eq!(
        RuntimeConfig::config_path(Platform::MacOs),
        "/Library/Application Support/RMM/config.json"
    );
    assert_eq!(RuntimeConfig::config_path(Platform::Windows), "C:\\ProgramData\\RMM\\config.json");
}

#[test]
fn url_change_requires_reenrollment() {
    let mut rc = RuntimeConfig { server_url: Some("https://a.example".to_string()), netdata_url: None, metrics_interval: None };
    assert!(rc.set_server_url("https://b.example".to_string(), "{BASE_URL}"));
    assert_eq!(rc.server_url.as_deref(), Some("https://b.example"));
    assert!(!rc.set_server_url("https://b.example".to_string(), "{BASE_URL}"));
}

#[test]
fn url_same_as_default_is_no_change() {
    let mut rc = RuntimeConfig::default();
    assert!(!rc.set_server_url("https://d.example".to_string(), "https://d.example"));
    assert!(rc.set_server_url("https://e.example".to_string(), "https://d.example"));
}

#[test]
fn config_defaults_and_overrides() {
    let c = Config::new("https://x.example".to_string(), Platform::Linux, "/var/lib/rmm");
    assert_eq!(c.key_file, "/var/lib/rmm/agent.key");
    assert_eq!(c.log_file, "/var/lib/rmm/agent.log");
    assert_eq!(c.metrics_interval, 60);
    assert_eq!(c.status_check_interval, 60);
    assert_eq!(c.enrollment_poll_interval, 30);
    assert_eq!(c.netdata_url, "http://127.0.0.1:19999");

    let rc = RuntimeConfig {
        server_url: Some("https://b.example".to_string()),
        netdata_url: Some("http://10.0.0.1:19999".to_string()),
        metrics_interval: Some(15),
    };
    let c = Config::with_runtime_config(&rc, Platform::Windows, "C:\\ProgramData\\RMM");
    assert_eq!(c.base_url, "https://b.example");
    assert_eq!(c.netdata_url, "http://10.0.0.1:19999");
    assert_eq!(c.metrics_interval, 15);
    assert_eq!(c.key_file, "C:\\ProgramData\\RMM\\agent.key");

    let c = Config::with_runtime_config(&RuntimeConfig::default(), Platform::Linux, "/d");
    assert_eq!(c.base_url, "{BASE_URL}");
    assert_eq!(c.metrics_interval, 60);
}

#[test]
fn data_dir_defaults() {
    assert_eq!(default_data_dir(Platform::Linux, None), "/var/lib/rmm");
    assert_eq!(default_data_dir(Platform::Windows, None), "C:\\ProgramData\\RMM");
    assert_eq!(default_data_dir(Platform::MacOs, None), "/tmp/RMM");
    assert_eq!(
        default_data_dir(Platform::MacOs, Some("/Users/a/Library/Application Support")),
        "/Users/a/Library/Application Support/RMM"
    );
    assert_eq!(join_path("/a/", "b", Platform::Linux), "/a/b");
    assert_eq!(join_path("", "b", Platform::Linux), "b");
}
