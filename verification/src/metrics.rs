//! Aggregate DNS metrics: the engine's report and its owned form.

use crate::distribution::{collect_distribution, distribution, TypeCount};
use std::collections::HashMap;
use vstd::prelude::*;
use vstd::std_specs::convert::FromSpecImpl;

verus! {

/// The metrics of one report as the engine hands them over. The two tables
/// are borrowed from the engine for the length of the report.
#[derive(Debug)]
pub struct RawDnsMetrics<'a> {
    pub num_requests: u32,
    pub num_responses: u32,
    pub num_malformed_requests: u32,
    pub num_malformed_responses: u32,
    pub num_cache_hits: u32,
    /// How often each record type was seen.
    pub record_type_distribution: &'a [TypeCount<u16>],
    /// How often each response code was seen.
    pub response_code_distribution: &'a [TypeCount<u8>],
}

/// The metrics of one report, owned.
#[derive(Debug)]
pub struct DnsMetrics {
    pub num_requests: u32,
    pub num_responses: u32,
    pub num_malformed_requests: u32,
    pub num_malformed_responses: u32,
    pub num_cache_hits: u32,
    /// Record type to how often it was seen.
    pub record_type_distribution: HashMap<u16, u32>,
    /// Response code to how often it was seen.
    pub response_type_distribution: HashMap<u8, u32>,
}

/// What a `DnsMetrics` holds, as plain values.
pub struct DnsMetricsView {
    pub num_requests: u32,
    pub num_responses: u32,
    pub num_malformed_requests: u32,
    pub num_malformed_responses: u32,
    pub num_cache_hits: u32,
    pub record_type_distribution: Map<u16, u32>,
    pub response_type_distribution: Map<u8, u32>,
}

impl View for DnsMetrics {
    type V = DnsMetricsView;

    open spec fn view(&self) -> DnsMetricsView {
        DnsMetricsView {
            num_requests: self.num_requests,
            num_responses: self.num_responses,
            num_malformed_requests: self.num_malformed_requests,
            num_malformed_responses: self.num_malformed_responses,
            num_cache_hits: self.num_cache_hits,
            record_type_distribution: self.record_type_distribution@,
            response_type_distribution: self.response_type_distribution@,
        }
    }
}

impl<'a> RawDnsMetrics<'a> {
    /// The owned metrics that these are marshalled into: the five counters as
    /// they are, each table as the mapping it stands for.
    pub open spec fn marshalled(&self) -> DnsMetricsView {
        DnsMetricsView {
            num_requests: self.num_requests,
            num_responses: self.num_responses,
            num_malformed_requests: self.num_malformed_requests,
            num_malformed_responses: self.num_malformed_responses,
            num_cache_hits: self.num_cache_hits,
            record_type_distribution: distribution(self.record_type_distribution@),
            response_type_distribution: distribution(self.response_code_distribution@),
        }
    }
}

/// The value that `from` returns is stated through its view, by the `ensures`
/// of `from` itself: two maps with the same entries need not be the same value.
impl<'a> FromSpecImpl<RawDnsMetrics<'a>> for DnsMetrics {
    open spec fn obeys_from_spec() -> bool {
        false
    }

    open spec fn from_spec(metrics: RawDnsMetrics<'a>) -> DnsMetrics {
        arbitrary()
    }
}

impl<'a> From<RawDnsMetrics<'a>> for DnsMetrics {
    /// Copies the metrics out of the engine's memory.
    fn from(metrics: RawDnsMetrics<'a>) -> (owned: DnsMetrics)
        ensures
            owned@ == metrics.marshalled(),
    {
        DnsMetrics {
            num_requests: metrics.num_requests,
            num_responses: metrics.num_responses,
            num_malformed_requests: metrics.num_malformed_requests,
            num_malformed_responses: metrics.num_malformed_responses,
            num_cache_hits: metrics.num_cache_hits,
            record_type_distribution: collect_distribution(metrics.record_type_distribution),
            response_type_distribution: collect_distribution(metrics.response_code_distribution),
        }
    }
}

/// A report without table entries yields two empty mappings.
pub proof fn lemma_empty_tables(metrics: RawDnsMetrics<'_>)
    requires
        metrics.record_type_distribution@.len() == 0,
        metrics.response_code_distribution@.len() == 0,
    ensures
        metrics.marshalled().record_type_distribution == Map::<u16, u32>::empty(),
        metrics.marshalled().response_type_distribution == Map::<u8, u32>::empty(),
{
}

} // verus!
