//! Service discovery over mDNS/DNS-SD: the bookkeeping that decides what the
//! discovery component reports, which services it keeps, and which names it
//! ignores, with its contracts proved by Verus.

pub mod details;
pub mod discovery;
pub mod error;
pub mod filter;
pub mod keyed;
pub mod laws;
pub mod names;
pub mod registry;
pub mod service_info;
pub mod state;
pub mod types;

pub use discovery::create_discovery_state;
pub use error::{HiveDiscoError, Result};
pub use service_info::{AnnouncedRecord, Announcement};
pub use state::{build_service_info, DiscoveryState, StartAction};
pub use types::{
    DiscoveryEvent, DiscoveryImplementation, DiscoveryServiceDetails, DiscoveryServiceStatus,
    IpAddress, LocalServiceConfig, MdnsEvent, ResolvedService, SocketAddress,
};
