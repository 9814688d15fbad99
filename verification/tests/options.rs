use tp_lite_stats::{DnsServerIp, TpLiteStatsOptions};

#[test]
fn unset_options_take_every_default() {
    let options = TpLiteStatsOptions::default();
    assert!(options.dns_server_ips.is_empty());
    assert_eq!(options.blocked_domains_buffer_size, None);
    assert_eq!(options.callback_interval_s, None);
    assert_eq!(options.cache_size, None);
    assert_eq!(options.max_open_requests, None);

    assert!(!options.collection_enabled());
    assert_eq!(options.blocked_domains_buffer_size_or_default(), 100);
    assert_eq!(options.callback_interval_s_or_default(), 5);
    assert_eq!(options.cache_size_or_default(), 512);
    assert_eq!(options.max_open_requests_or_default(), 100);
}

#[test]
fn max_open_requests_follows_the_buffer_size() {
    let options = TpLiteStatsOptions {
        blocked_domains_buffer_size: Some(42),
        ..TpLiteStatsOptions::default()
    };
    assert_eq!(options.blocked_domains_buffer_size_or_default(), 42);
    assert_eq!(options.max_open_requests_or_default(), 42);
    assert_eq!(options.callback_interval_s_or_default(), 5);
    assert_eq!(options.cache_size_or_default(), 512);
}

#[test]
fn explicit_values_are_kept() {
    let options = TpLiteStatsOptions {
        dns_server_ips: vec![DnsServerIp::V4([10, 0, 0, 1])],
        blocked_domains_buffer_size: Some(42),
        callback_interval_s: Some(0),
        cache_size: Some(u64::MAX),
        max_open_requests: Some(7),
    };
    assert!(options.collection_enabled());
    assert_eq!(options.blocked_domains_buffer_size_or_default(), 42);
    assert_eq!(options.callback_interval_s_or_default(), 0);
    assert_eq!(options.cache_size_or_default(), u64::MAX);
    assert_eq!(options.max_open_requests_or_default(), 7);
}

#[test]
fn explicit_max_open_requests_ignores_the_buffer_size() {
    let options = TpLiteStatsOptions {
        max_open_requests: Some(7),
        ..TpLiteStatsOptions::default()
    };
    assert_eq!(options.blocked_domains_buffer_size_or_default(), 100);
    assert_eq!(options.max_open_requests_or_default(), 7);
}

#[test]
fn any_server_address_switches_collection_on() {
    let mut options = TpLiteStatsOptions::default();
    assert!(!options.collection_enabled());
    options.dns_server_ips.push(DnsServerIp::V6([0, 0, 0, 0, 0, 0, 0, 0, 0, 0, 0, 0, 0, 0, 0, 1]));
    assert!(options.collection_enabled());
    assert_eq!(options.clone(), options);
}
