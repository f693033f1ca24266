use macos_resource_monitor::alert::check_thresholds;
use macos_resource_monitor::config::{Config, Thresholds};
use macos_resource_monitor::fixed_point::Milli;
use macos_resource_monitor::metrics::ResourceSnapshot;
use macos_resource_monitor::time::Timestamp;

fn m(thousandths: u128) -> Milli {
    Milli { thousandths }
}

fn config() -> Config {
    Config::with_defaults(String::from("/tmp/monitor.log"))
}

fn snapshot(cpu: u128, memory: u128, disk: u128, net_in: u128, net_out: u128) -> ResourceSnapshot {
    ResourceSnapshot {
        timestamp: Timestamp { secs: 1_700_000_000, nanos: 0 },
        cpu_usage_percent: m(cpu),
        memory_used_mb: 2048,
        memory_usage_percent: m(memory),
        disk_usage_percent: m(disk),
        net_in_kbps: m(net_in),
        net_out_kbps: m(net_out),
        total_net_in_bytes: 1,
        total_net_out_bytes: 2,
    }
}

#[test]
fn value_equal_to_threshold_raises_no_alert() {
    let alerts = check_thresholds(&snapshot(80_000, 0, 0, 0, 0), &config());
    assert!(alerts.is_empty());
}

#[test]
fn value_one_unit_above_threshold_raises_one_alert() {
    let alerts = check_thresholds(&snapshot(81_000, 0, 0, 0, 0), &config());
    assert_eq!(alerts, vec![String::from("CPU usage 81.0% exceeded threshold 80.0%")]);
    assert!(alerts[0].contains("81.0"));
    assert!(alerts[0].contains("80.0"));
}

#[test]
fn smallest_excess_raises_an_alert() {
    let alerts = check_thresholds(&snapshot(80_001, 0, 0, 0, 0), &config());
    assert_eq!(alerts, vec![String::from("CPU usage 80.0% exceeded threshold 80.0%")]);
}

#[test]
fn every_threshold_at_its_limit_raises_nothing() {
    let alerts = check_thresholds(
        &snapshot(80_000, 80_000, 90_000, 1_000_000_000, 1_000_000_000),
        &config(),
    );
    assert_eq!(alerts, Vec::<String>::new());
}

#[test]
fn nothing_exceeded_raises_nothing() {
    let alerts = check_thresholds(&snapshot(0, 0, 0, 0, 0), &config());
    assert!(alerts.is_empty());
}

#[test]
fn all_five_exceeded_in_fixed_order() {
    let alerts = check_thresholds(
        &snapshot(95_500, 81_250, 99_900, 1_000_000_100, 2_500_000_000),
        &config(),
    );
    assert_eq!(
        alerts,
        vec![
            String::from("CPU usage 95.5% exceeded threshold 80.0%"),
            String::from("Memory usage 81.2% exceeded threshold 80.0%"),
            String::from("Disk usage 99.9% exceeded threshold 90.0%"),
            String::from("Inbound network 1000000.1 kbit/s exceeded threshold 1000000.0 kbit/s"),
            String::from("Outbound network 2500000.0 kbit/s exceeded threshold 1000000.0 kbit/s"),
        ]
    );
}

#[test]
fn alerts_keep_their_order_when_some_are_missing() {
    let alerts = check_thresholds(&snapshot(10_000, 90_000, 0, 0, 1_000_000_001), &config());
    assert_eq!(
        alerts,
        vec![
            String::from("Memory usage 90.0% exceeded threshold 80.0%"),
            String::from("Outbound network 1000000.0 kbit/s exceeded threshold 1000000.0 kbit/s"),
        ]
    );
}

#[test]
fn each_metric_is_held_against_its_own_limit() {
    let cfg = Config {
        service: config().service,
        thresholds: Thresholds {
            cpu_usage_percent: m(10_000),
            memory_usage_percent: m(20_000),
            disk_usage_percent: m(30_000),
            net_in_kbps: m(40_000),
            net_out_kbps: m(50_000),
        },
    };
    assert!(check_thresholds(&snapshot(10_000, 20_000, 30_000, 40_000, 50_000), &cfg).is_empty());
    assert_eq!(
        check_thresholds(&snapshot(5_000, 5_000, 30_500, 5_000, 5_000), &cfg),
        vec![String::from("Disk usage 30.5% exceeded threshold 30.0%")]
    );
    assert_eq!(
        check_thresholds(&snapshot(5_000, 5_000, 5_000, 45_000, 5_000), &cfg),
        vec![String::from("Inbound network 45.0 kbit/s exceeded threshold 40.0 kbit/s")]
    );
}

#[test]
fn checking_twice_gives_the_same_alerts() {
    let snap = snapshot(99_000, 99_000, 0, 0, 0);
    let cfg = config();
    assert_eq!(check_thresholds(&snap, &cfg), check_thresholds(&snap, &cfg));
}
