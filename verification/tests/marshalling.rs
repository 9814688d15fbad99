use std::collections::HashMap;

use tp_lite_stats::{
    decode_text, marshal_domains, BlockedDomain, DnsMetrics, RawBlockedDomain, RawDnsMetrics,
    TypeCount,
};

fn metrics_with<'a>(
    record_types: &'a [TypeCount<u16>],
    response_codes: &'a [TypeCount<u8>],
) -> RawDnsMetrics<'a> {
    RawDnsMetrics {
        num_requests: 0,
        num_responses: 0,
        num_malformed_requests: 0,
        num_malformed_responses: 0,
        num_cache_hits: 0,
        record_type_distribution: record_types,
        response_code_distribution: response_codes,
    }
}

#[test]
fn unique_keys_give_exactly_their_associations() {
    let record_types = [
        TypeCount { rr_type: 1u16, count: 7 },
        TypeCount { rr_type: 28u16, count: 3 },
        TypeCount { rr_type: 65u16, count: 0 },
        TypeCount { rr_type: u16::MAX, count: u32::MAX },
    ];
    let response_codes = [
        TypeCount { rr_type: 0u8, count: 11 },
        TypeCount { rr_type: 3u8, count: 2 },
        TypeCount { rr_type: u8::MAX, count: 1 },
    ];
    let metrics = DnsMetrics::from(metrics_with(&record_types, &response_codes));

    let mut expected_types = HashMap::new();
    expected_types.insert(1u16, 7u32);
    expected_types.insert(28u16, 3u32);
    expected_types.insert(65u16, 0u32);
    expected_types.insert(u16::MAX, u32::MAX);
    assert_eq!(metrics.record_type_distribution, expected_types);

    let mut expected_codes = HashMap::new();
    expected_codes.insert(0u8, 11u32);
    expected_codes.insert(3u8, 2u32);
    expected_codes.insert(u8::MAX, 1u32);
    assert_eq!(metrics.response_type_distribution, expected_codes);
}

#[test]
fn repeated_key_keeps_the_last_count() {
    let record_types = [
        TypeCount { rr_type: 1u16, count: 10 },
        TypeCount { rr_type: 28u16, count: 4 },
        TypeCount { rr_type: 1u16, count: 20 },
        TypeCount { rr_type: 1u16, count: 5 },
    ];
    let response_codes = [
        TypeCount { rr_type: 2u8, count: 9 },
        TypeCount { rr_type: 2u8, count: 8 },
    ];
    let metrics = DnsMetrics::from(metrics_with(&record_types, &response_codes));

    assert_eq!(metrics.record_type_distribution.len(), 2);
    assert_eq!(metrics.record_type_distribution.get(&1), Some(&5));
    assert_eq!(metrics.record_type_distribution.get(&28), Some(&4));
    assert_eq!(metrics.response_type_distribution.len(), 1);
    assert_eq!(metrics.response_type_distribution.get(&2), Some(&8));
}

#[test]
fn counters_are_copied_by_value() {
    let metrics = DnsMetrics::from(RawDnsMetrics {
        num_requests: 1,
        num_responses: 2,
        num_malformed_requests: 3,
        num_malformed_responses: 4,
        num_cache_hits: u32::MAX,
        record_type_distribution: &[],
        response_code_distribution: &[],
    });
    assert_eq!(metrics.num_requests, 1);
    assert_eq!(metrics.num_responses, 2);
    assert_eq!(metrics.num_malformed_requests, 3);
    assert_eq!(metrics.num_malformed_responses, 4);
    assert_eq!(metrics.num_cache_hits, u32::MAX);
}

#[test]
fn empty_report_gives_empty_values() {
    let domains = marshal_domains(&[]);
    assert!(domains.is_empty());
    let metrics = DnsMetrics::from(metrics_with(&[], &[]));
    assert!(metrics.record_type_distribution.is_empty());
    assert!(metrics.response_type_distribution.is_empty());
}

#[test]
fn valid_utf8_decodes_to_itself() {
    assert_eq!(decode_text(b"example.com"), "example.com");
    assert_eq!(decode_text(b""), "");
    let text = "b\u{fc}cher.example \u{2603} \u{1f600}";
    assert_eq!(decode_text(text.as_bytes()), text);
    assert_eq!(decode_text(text.as_bytes()).as_bytes(), text.as_bytes());
}

#[test]
fn invalid_utf8_decodes_to_the_substitution_form() {
    assert_eq!(decode_text(b"ab\xffcd"), "ab\u{fffd}cd");
    assert_eq!(decode_text(b"\xc3"), "\u{fffd}");
    assert_eq!(decode_text(b"\xf0\x9f\x98"), "\u{fffd}");
    assert_eq!(decode_text(b"\xed\xa0\x80"), "\u{fffd}\u{fffd}\u{fffd}");
    assert_eq!(decode_text(b"\x80\x80a"), "\u{fffd}\u{fffd}a");
}

#[test]
fn decoding_is_deterministic() {
    let bytes = b"ads.\xfe\xfe.example";
    assert_eq!(decode_text(bytes), decode_text(bytes));
}

#[test]
fn blocked_domain_is_marshalled_field_by_field() {
    let raw = RawBlockedDomain {
        domain_name: b"tracker.example",
        record_type: 28,
        timestamp: 1_700_000_000,
        category: b"ads\xff",
    };
    let domain = BlockedDomain::from(&raw);
    assert_eq!(domain.domain_name, "tracker.example");
    assert_eq!(domain.record_type, 28);
    assert_eq!(domain.timestamp, 1_700_000_000);
    assert_eq!(domain.category, "ads\u{fffd}");
}

#[test]
fn domains_keep_their_count_and_order() {
    let record = |domain_name, record_type, timestamp, category| RawBlockedDomain {
        domain_name,
        record_type,
        timestamp,
        category,
    };
    let raw = [
        record(b"a.example", 1, 3, b"x"),
        record(b"b.example", 28, 2, b"y"),
        record(b"a.example", 1, 1, b"x"),
    ];
    let domains = marshal_domains(&raw);
    assert_eq!(domains.len(), 3);
    let names: Vec<&str> = domains.iter().map(|d| d.domain_name.as_str()).collect();
    assert_eq!(names, vec!["a.example", "b.example", "a.example"]);
    let stamps: Vec<u64> = domains.iter().map(|d| d.timestamp).collect();
    assert_eq!(stamps, vec![3, 2, 1]);
    assert_eq!(domains[1].record_type, 28);
    assert_eq!(domains[1].category, "y");
}
