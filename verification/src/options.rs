//! The options of stats collection, and the values that stand in for the
//! ones that were left unset.

use vstd::prelude::*;

verus! {

/// How many blocked domains the engine buffers where no size is set.
pub const DEFAULT_BLOCKED_DOMAINS_BUFFER_SIZE: u64 = 100;

/// After how many seconds the engine reports where no interval is set.
pub const DEFAULT_CALLBACK_INTERVAL_S: u64 = 5;

/// How many entries the engine's DNS cache holds where no size is set.
pub const DEFAULT_CACHE_SIZE: u64 = 512;

/// The address of a DNS server, as its octets in network order.
#[derive(Clone, Copy, Debug, PartialEq, Eq, Hash)]
pub enum DnsServerIp {
    V4([u8; 4]),
    V6([u8; 16]),
}

/// Options of the stats collection. Every field may be left out.
#[derive(Clone, Debug, PartialEq, Eq)]
pub struct TpLiteStatsOptions {
    /// The DNS servers whose responses are analysed. With none configured,
    /// stats collection counts as switched off.
    pub dns_server_ips: Vec<DnsServerIp>,
    /// How many blocked domains, repeated ones included, are buffered
    /// between two reports. When the buffer is full the oldest are
    /// overwritten.
    pub blocked_domains_buffer_size: Option<u64>,
    /// After how many seconds the stats are passed to the callback, counted
    /// from the moment they stop being empty.
    pub callback_interval_s: Option<u64>,
    /// How many entries the engine's own DNS cache for blocked domains holds.
    pub cache_size: Option<u64>,
    /// How many open DNS requests the engine keeps track of.
    pub max_open_requests: Option<u64>,
}

impl Default for TpLiteStatsOptions {
    /// The options with nothing set: no DNS server, so collection is off.
    fn default() -> (options: TpLiteStatsOptions)
        ensures
            options.dns_server_ips@.len() == 0,
            options.blocked_domains_buffer_size is None,
            options.callback_interval_s is None,
            options.cache_size is None,
            options.max_open_requests is None,
    {
        TpLiteStatsOptions {
            dns_server_ips: Vec::new(),
            blocked_domains_buffer_size: None,
            callback_interval_s: None,
            cache_size: None,
            max_open_requests: None,
        }
    }
}

impl TpLiteStatsOptions {
    /// Whether stats are collected: at least one DNS server is configured.
    pub open spec fn spec_collection_enabled(&self) -> bool {
        self.dns_server_ips@.len() > 0
    }

    /// The buffer size in force: the one set, else the default.
    pub open spec fn spec_blocked_domains_buffer_size_or_default(&self) -> u64 {
        match self.blocked_domains_buffer_size {
            Some(size) => size,
            None => DEFAULT_BLOCKED_DOMAINS_BUFFER_SIZE,
        }
    }

    /// The report interval in force: the one set, else the default.
    pub open spec fn spec_callback_interval_s_or_default(&self) -> u64 {
        match self.callback_interval_s {
            Some(seconds) => seconds,
            None => DEFAULT_CALLBACK_INTERVAL_S,
        }
    }

    /// The cache size in force: the one set, else the default.
    pub open spec fn spec_cache_size_or_default(&self) -> u64 {
        match self.cache_size {
            Some(size) => size,
            None => DEFAULT_CACHE_SIZE,
        }
    }

    /// The limit on open requests in force: the one set, else the buffer
    /// size in force.
    pub open spec fn spec_max_open_requests_or_default(&self) -> u64 {
        match self.max_open_requests {
            Some(limit) => limit,
            None => self.spec_blocked_domains_buffer_size_or_default(),
        }
    }

    /// Whether stats are collected: at least one DNS server is configured.
    #[verifier::when_used_as_spec(spec_collection_enabled)]
    pub fn collection_enabled(&self) -> (enabled: bool)
        ensures
            enabled == self.spec_collection_enabled(),
    {
        self.dns_server_ips.len() > 0
    }

    /// The buffer size in force: the one set, else 100.
    #[verifier::when_used_as_spec(spec_blocked_domains_buffer_size_or_default)]
    pub fn blocked_domains_buffer_size_or_default(&self) -> (size: u64)
        ensures
            size == self.spec_blocked_domains_buffer_size_or_default(),
    {
        match self.blocked_domains_buffer_size {
            Some(size) => size,
            None => DEFAULT_BLOCKED_DOMAINS_BUFFER_SIZE,
        }
    }

    /// The report interval in force, in seconds: the one set, else 5.
    #[verifier::when_used_as_spec(spec_callback_interval_s_or_default)]
    pub fn callback_interval_s_or_default(&self) -> (seconds: u64)
        ensures
            seconds == self.spec_callback_interval_s_or_default(),
    {
        match self.callback_interval_s {
            Some(seconds) => seconds,
            None => DEFAULT_CALLBACK_INTERVAL_S,
        }
    }

    /// The cache size in force: the one set, else 512.
    #[verifier::when_used_as_spec(spec_cache_size_or_default)]
    pub fn cache_size_or_default(&self) -> (size: u64)
        ensures
            size == self.spec_cache_size_or_default(),
    {
        match self.cache_size {
            Some(size) => size,
            None => DEFAULT_CACHE_SIZE,
        }
    }

    /// The limit on open requests in force: the one set, else the buffer
    /// size in force.
    #[verifier::when_used_as_spec(spec_max_open_requests_or_default)]
    pub fn max_open_requests_or_default(&self) -> (limit: u64)
        ensures
            limit == self.spec_max_open_requests_or_default(),
    {
        match self.max_open_requests {
            Some(limit) => limit,
            None => self.blocked_domains_buffer_size_or_default(),
        }
    }
}

/// With nothing set, every default is in force, collection is off, and the
/// limit on open requests is the default buffer size.
pub proof fn lemma_unset_options(options: TpLiteStatsOptions)
    requires
        options.dns_server_ips@.len() == 0,
        options.blocked_domains_buffer_size is None,
        options.callback_interval_s is None,
        options.cache_size is None,
        options.max_open_requests is None,
    ensures
        !options.collection_enabled(),
        options.blocked_domains_buffer_size_or_default() == 100,
        options.callback_interval_s_or_default() == 5,
        options.cache_size_or_default() == 512,
        options.max_open_requests_or_default() == 100,
{
}

/// Where no limit on open requests is set, it follows the buffer size, set or
/// not; where one is set, the buffer size has no say.
pub proof fn lemma_max_open_requests_follows_buffer_size(options: TpLiteStatsOptions)
    ensures
        options.max_open_requests is None ==> options.max_open_requests_or_default()
            == options.blocked_domains_buffer_size_or_default(),
        options.max_open_requests matches Some(limit) ==> options.max_open_requests_or_default()
            == limit,
{
}

} // verus!
