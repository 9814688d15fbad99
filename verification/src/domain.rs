//! Blocked-domain events: the engine's records and their owned form.

use crate::text::{decode_text, decoded_text};
use vstd::prelude::*;
use vstd::std_specs::convert::FromSpecImpl;

verus! {

/// One blocked-domain record as the engine hands it over. The two byte
/// strings are borrowed from the engine for the length of one report.
#[derive(Clone, Copy, Debug)]
pub struct RawBlockedDomain<'a> {
    /// The domain name, without its terminator.
    pub domain_name: &'a [u8],
    pub record_type: u16,
    /// Seconds since the epoch.
    pub timestamp: u64,
    /// The category that got the domain blocked, without its terminator.
    pub category: &'a [u8],
}

/// One blocked DNS record, owned.
#[derive(Debug)]
pub struct BlockedDomain {
    pub domain_name: String,
    pub record_type: u16,
    /// Seconds since the epoch.
    pub timestamp: u64,
    pub category: String,
}

/// What a `BlockedDomain` holds, as plain values.
pub struct BlockedDomainView {
    pub domain_name: Seq<char>,
    pub record_type: u16,
    pub timestamp: u64,
    pub category: Seq<char>,
}

impl View for BlockedDomain {
    type V = BlockedDomainView;

    open spec fn view(&self) -> BlockedDomainView {
        BlockedDomainView {
            domain_name: self.domain_name@,
            record_type: self.record_type,
            timestamp: self.timestamp,
            category: self.category@,
        }
    }
}

impl<'a> RawBlockedDomain<'a> {
    /// The owned record that this one is marshalled into: both texts decoded,
    /// both numbers as they are.
    pub open spec fn marshalled(&self) -> BlockedDomainView {
        BlockedDomainView {
            domain_name: decoded_text(self.domain_name@),
            record_type: self.record_type,
            timestamp: self.timestamp,
            category: decoded_text(self.category@),
        }
    }
}

/// The value that `from` returns is stated through its view, by the `ensures`
/// of `from` itself: two strings with the same characters need not be the
/// same value.
impl<'a> FromSpecImpl<&RawBlockedDomain<'a>> for BlockedDomain {
    open spec fn obeys_from_spec() -> bool {
        false
    }

    open spec fn from_spec(domain: &RawBlockedDomain<'a>) -> BlockedDomain {
        arbitrary()
    }
}

impl<'a> From<&RawBlockedDomain<'a>> for BlockedDomain {
    /// Copies a record out of the engine's memory.
    fn from(domain: &RawBlockedDomain<'a>) -> (owned: BlockedDomain)
        ensures
            owned@ == domain.marshalled(),
    {
        BlockedDomain {
            domain_name: decode_text(domain.domain_name),
            record_type: domain.record_type,
            timestamp: domain.timestamp,
            category: decode_text(domain.category),
        }
    }
}

/// The owned records of a whole report, in the engine's order.
pub open spec fn marshalled_domains(domains: Seq<RawBlockedDomain<'_>>) -> Seq<BlockedDomainView> {
    Seq::new(domains.len(), |i: int| domains[i].marshalled())
}

/// What a list of owned records holds, as plain values.
pub open spec fn domain_views(domains: Seq<BlockedDomain>) -> Seq<BlockedDomainView> {
    Seq::new(domains.len(), |i: int| domains[i]@)
}

/// Copies every record of a report out of the engine's memory: as many
/// records as the engine supplied, each marshalled, in the same order.
pub fn marshal_domains(domains: &[RawBlockedDomain<'_>]) -> (owned: Vec<BlockedDomain>)
    ensures
        owned.len() == domains.len(),
        forall|i: int|
            0 <= i < domains.len() ==> (#[trigger] owned@[i])@ == domains@[i].marshalled(),
        domain_views(owned@) == marshalled_domains(domains@),
{
    let mut owned: Vec<BlockedDomain> = Vec::with_capacity(domains.len());
    let mut i: usize = 0;
    while i < domains.len()
        invariant
            i <= domains.len(),
            owned.len() == i,
            forall|j: int| 0 <= j < i ==> (#[trigger] owned@[j])@ == domains@[j].marshalled(),
        decreases domains.len() - i,
    {
        owned.push(BlockedDomain::from(&domains[i]));
        i = i + 1;
    }
    proof {
        assert(domain_views(owned@) =~= marshalled_domains(domains@));
    }
    owned
}

/// A report without records yields no owned records.
pub proof fn lemma_no_domains(domains: Seq<RawBlockedDomain<'_>>)
    requires
        domains.len() == 0,
    ensures
        marshalled_domains(domains) == Seq::<BlockedDomainView>::empty(),
{
    assert(marshalled_domains(domains) =~= Seq::<BlockedDomainView>::empty());
}

} // verus!
