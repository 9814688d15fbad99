//! Telemetry bridge between a DNS-filtering engine and its stats consumer:
//! marshalling of the engine's reports into owned values, the hot-swappable
//! callback slot they are dispatched to, and the collection options.

pub mod callback;
pub mod distribution;
pub mod domain;
pub mod metrics;
pub mod options;
pub mod text;

pub use callback::{
    collect_stats, CallbackHandle, CallbackManager, NoopCallback, SharedCallback,
    TpLiteStatsCallback,
};
pub use distribution::TypeCount;
pub use domain::{marshal_domains, BlockedDomain, RawBlockedDomain};
pub use metrics::{DnsMetrics, RawDnsMetrics};
pub use options::{DnsServerIp, TpLiteStatsOptions};
pub use text::decode_text;
