use gemcore::risk::{
    abuse_patterns, calculate_max_signals_in_window, distinct_devices, distinct_fingerprints_and_ips, AbusePatterns,
    RiskSignalRecord,
};
use gemcore::time::Timestamp;

fn signal(device_id: i32, fingerprint: &str, ip: &str, seconds: i64) -> RiskSignalRecord {
    RiskSignalRecord {
        device_id,
        fingerprint: fingerprint.to_string(),
        ip_address: ip.to_string(),
        created_at: Timestamp::from_seconds(seconds),
    }
}

#[test]
fn test_no_signals_have_no_window() {
    assert_eq!(calculate_max_signals_in_window(&vec![], 60), 0);
}

#[test]
fn test_the_longest_run_within_the_window() {
    let signals = vec![
        signal(1, "f", "ip", 100),
        signal(1, "f", "ip", 0),
        signal(1, "f", "ip", 30),
        signal(1, "f", "ip", 160),
        signal(1, "f", "ip", 61),
    ];
    // Sorted: 0, 30, 61, 100, 160; within 60 seconds: [30, 61], [61, 100], [100, 160] and [0, 30].
    assert_eq!(calculate_max_signals_in_window(&signals, 60), 2);
    assert_eq!(calculate_max_signals_in_window(&signals, 70), 3);
    assert_eq!(calculate_max_signals_in_window(&signals, 0), 1);
    assert_eq!(calculate_max_signals_in_window(&signals, 1_000), 5);
}

#[test]
fn test_whole_seconds_count_for_the_window() {
    let mut late = signal(1, "f", "ip", 10);
    late.created_at = Timestamp { seconds: 10, nanos: 999_999_999 };
    let signals = vec![signal(1, "f", "ip", 0), late];
    assert_eq!(calculate_max_signals_in_window(&signals, 10), 2);
    assert_eq!(calculate_max_signals_in_window(&signals, 9), 1);
}

#[test]
fn test_abuse_patterns() {
    assert_eq!(abuse_patterns(&vec![], &vec![5], &vec![5], &vec![5], &vec![5], 60), AbusePatterns::default());
    let signals = vec![signal(1, "f", "ip", 0), signal(2, "g", "ip", 10)];
    let patterns = abuse_patterns(&signals, &vec![1, 3], &vec![2, 1], &vec![4], &vec![2], 60);
    assert_eq!(
        patterns,
        AbusePatterns {
            max_countries_per_device: 3,
            max_referrers_per_device: 2,
            max_referrers_per_fingerprint: 4,
            max_devices_per_ip: 2,
            signals_in_velocity_window: 2,
        }
    );
    let none_counted = abuse_patterns(&signals, &vec![], &vec![], &vec![], &vec![], 5);
    assert_eq!(none_counted.max_countries_per_device, 0);
    assert_eq!(none_counted.signals_in_velocity_window, 1);
}

#[test]
fn test_distinct_keys_of_signals() {
    let signals = vec![signal(2, "f", "a", 0), signal(1, "g", "a", 1), signal(2, "f", "b", 2)];
    assert_eq!(distinct_devices(&signals), vec![2, 1]);
    let (fingerprints, ips) = distinct_fingerprints_and_ips(&signals);
    assert_eq!(fingerprints, vec!["f".to_string(), "g".to_string()]);
    assert_eq!(ips, vec!["a".to_string(), "b".to_string()]);
}
