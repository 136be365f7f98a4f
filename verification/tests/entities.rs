use spider_stats::default_host_test_port;
use spider_stats::entity::OutRespInfo;
use spider_stats::resources::{get_system_resources, system_resources_from_sample, RawSystemSample};

#[test]
fn default_port_is_https() {
    assert_eq!(default_host_test_port(), 443);
}

#[test]
fn out_resp_info_from_name_accepts_both_spellings() {
    assert_eq!(OutRespInfo::from_name("None"), Some(OutRespInfo::Silent));
    assert_eq!(OutRespInfo::from_name("none"), Some(OutRespInfo::Silent));
    assert_eq!(OutRespInfo::from_name("Url"), Some(OutRespInfo::Url));
    assert_eq!(OutRespInfo::from_name("url"), Some(OutRespInfo::Url));
    assert_eq!(OutRespInfo::from_name("Head"), Some(OutRespInfo::Head));
    assert_eq!(OutRespInfo::from_name("head"), Some(OutRespInfo::Head));
    assert_eq!(OutRespInfo::from_name("Body"), Some(OutRespInfo::Body));
    assert_eq!(OutRespInfo::from_name("body"), Some(OutRespInfo::Body));
    assert_eq!(OutRespInfo::from_name("NONE"), None);
    assert_eq!(OutRespInfo::from_name(""), None);
}

#[test]
fn out_resp_info_from_flag() {
    assert_eq!(OutRespInfo::from_flag(true), OutRespInfo::Url);
    assert_eq!(OutRespInfo::from_flag(false), OutRespInfo::Silent);
}

#[test]
fn sample_is_converted_to_megabytes() {
    let sample = RawSystemSample {
        cpu_usage: "12.34%".to_string(),
        total_memory_bytes: 8 * 1048576,
        used_memory_bytes: 3 * 1048576 + 524288,
        disks: vec![
            (10 * 1048576, 4 * 1048576),
            (5 * 1048576, 5 * 1048576),
        ],
    };
    let r = system_resources_from_sample(&sample);
    assert_eq!(r.cpu_usage, "12.34%");
    assert_eq!(r.memory_usage.total, 8);
    assert_eq!(r.memory_usage.used, 3);
    assert_eq!(r.disk_usage.total, 15);
    assert_eq!(r.disk_usage.used, 6);
}

#[test]
fn live_sample_reports_consistent_disk_usage() {
    let r = get_system_resources();
    assert!(r.disk_usage.used <= r.disk_usage.total);
    assert!(r.cpu_usage.ends_with('%'));
}
