use macos_resource_monitor::config::{
    default_base_dir, default_config_path, default_log_file_path, plist_path, Config, Thresholds,
};
use macos_resource_monitor::fixed_point::Milli;

#[test]
fn base_dir_below_home() {
    assert_eq!(
        default_base_dir(Some("/Users/alice")),
        "/Users/alice/Library/Application Support/MacResourceMonitor"
    );
}

#[test]
fn base_dir_without_home_is_below_tmp() {
    assert_eq!(default_base_dir(None), "/tmp/MacResourceMonitor");
}

#[test]
fn home_with_trailing_separator_gets_no_second_one() {
    assert_eq!(
        default_base_dir(Some("/Users/alice/")),
        "/Users/alice/Library/Application Support/MacResourceMonitor"
    );
    assert_eq!(default_base_dir(Some("/")), "/Library/Application Support/MacResourceMonitor");
}

#[test]
fn empty_home_gives_a_relative_directory() {
    assert_eq!(default_base_dir(Some("")), "Library/Application Support/MacResourceMonitor");
}

#[test]
fn config_file_lies_in_the_base_dir() {
    assert_eq!(
        default_config_path(Some("/Users/alice")),
        "/Users/alice/Library/Application Support/MacResourceMonitor/config.toml"
    );
    assert_eq!(default_config_path(None), "/tmp/MacResourceMonitor/config.toml");
}

#[test]
fn log_file_is_named_after_the_day() {
    assert_eq!(
        default_log_file_path("/tmp/MacResourceMonitor", "20240131"),
        "/tmp/MacResourceMonitor/logs/metrics-20240131.log"
    );
    assert_eq!(default_log_file_path("", "19991231"), "logs/metrics-19991231.log");
}

#[test]
fn standard_thresholds() {
    assert_eq!(
        Thresholds::standard(),
        Thresholds {
            cpu_usage_percent: Milli { thousandths: 80_000 },
            memory_usage_percent: Milli { thousandths: 80_000 },
            disk_usage_percent: Milli { thousandths: 90_000 },
            net_in_kbps: Milli { thousandths: 1_000_000_000 },
            net_out_kbps: Milli { thousandths: 1_000_000_000 },
        }
    );
}

#[test]
fn fresh_configuration() {
    let config = Config::with_defaults(String::from("/var/log/monitor.log"));
    assert_eq!(config.service.collection_interval_secs, 5);
    assert_eq!(config.service.log_file_path, "/var/log/monitor.log");
    assert_eq!(config.thresholds, Thresholds::standard());
}

#[test]
fn launch_agent_definition_lies_below_home() {
    assert_eq!(
        plist_path("/Users/alice"),
        "/Users/alice/Library/LaunchAgents/com.example.macresourcemonitor.plist"
    );
    assert_eq!(
        plist_path("/Users/alice/"),
        "/Users/alice/Library/LaunchAgents/com.example.macresourcemonitor.plist"
    );
}
