//! The values that the discovery component takes and reports.

use std::collections::HashMap;
use vstd::prelude::*;

use crate::keyed::{keyed_map, unique_keys};

verus! {

/// Operational status of the discovery component.
#[derive(Debug, Clone, Copy, PartialEq, Eq, Structural)]
pub enum DiscoveryServiceStatus {
    /// Neither discovering nor about to.
    Stopped,
    /// Discovering services on the network.
    Running,
    /// Discovery was asked to stop and the event loop has not finished yet.
    Stopping,
}

/// The mechanism a discovery component is built on.
#[derive(Debug, Clone, Copy, PartialEq, Eq, Structural)]
pub enum DiscoveryImplementation {
    /// mDNS/DNS-SD based service discovery.
    Mdns,
    /// UDP multicast based service discovery (not available).
    Multicast,
}

/// An IP address: an IPv4 address as its 32-bit value, or an IPv6 address
/// as its 128-bit value.
#[derive(Debug, Clone, Copy, PartialEq, Eq, Structural)]
pub enum IpAddress {
    V4(u32),
    V6(u128),
}

/// An IP address with a port.
#[derive(Debug, Clone, Copy, PartialEq, Eq, Structural)]
pub struct SocketAddress {
    pub ip: IpAddress,
    pub port: u16,
}

/// Details of a discovered remote service.
///
/// `addresses` and `socket_addresses` are sets (no element twice) and
/// `properties` is a map (no key twice); `wf` states this.
#[derive(Debug, Clone)]
pub struct DiscoveryServiceDetails {
    /// Service type, e.g. `"_http._tcp.local."`.
    pub service_type: String,
    /// Full instance name, e.g. `"My Server._http._tcp.local."`.
    pub instance_name: String,
    /// Domain of the service, `".local."` for services found by mDNS.
    pub domain_name: String,
    /// Host that provides the service, where known.
    pub host_name: Option<String>,
    /// IP addresses of the service.
    pub addresses: Vec<IpAddress>,
    /// Each address of the service paired with its port.
    pub socket_addresses: Vec<SocketAddress>,
    /// Port the service listens on.
    pub port: u16,
    /// TXT record properties, as key/value pairs with distinct keys.
    pub properties: Vec<(String, String)>,
    /// Seconds since the UNIX epoch at which the service was last seen.
    pub last_seen: Option<u64>,
}

/// Mathematical model of `DiscoveryServiceDetails`.
pub struct DetailsView {
    pub service_type: Seq<char>,
    pub instance_name: Seq<char>,
    pub domain_name: Seq<char>,
    pub host_name: Option<Seq<char>>,
    pub addresses: Set<IpAddress>,
    pub socket_addresses: Set<SocketAddress>,
    pub port: u16,
    pub properties: Map<Seq<char>, Seq<char>>,
    pub last_seen: Option<u64>,
}

impl DetailsView {
    /// Equal in everything but `last_seen`: what decides whether a service
    /// changed.
    pub open spec fn same_content(self, other: DetailsView) -> bool {
        &&& self.service_type == other.service_type
        &&& self.instance_name == other.instance_name
        &&& self.domain_name == other.domain_name
        &&& self.host_name == other.host_name
        &&& self.addresses == other.addresses
        &&& self.socket_addresses == other.socket_addresses
        &&& self.port == other.port
        &&& self.properties == other.properties
    }
}

/// The model of an optional string.
pub open spec fn opt_str_view(s: Option<String>) -> Option<Seq<char>> {
    match s {
        Some(t) => Some(t@),
        None => None,
    }
}

/// Key/value string pairs as pairs of character sequences.
pub open spec fn pairs_view(s: Seq<(String, String)>) -> Seq<(Seq<char>, Seq<char>)> {
    s.map_values(|p: (String, String)| (p.0@, p.1@))
}

impl View for DiscoveryServiceDetails {
    type V = DetailsView;

    open spec fn view(&self) -> DetailsView {
        DetailsView {
            service_type: self.service_type@,
            instance_name: self.instance_name@,
            domain_name: self.domain_name@,
            host_name: opt_str_view(self.host_name),
            addresses: self.addresses@.to_set(),
            socket_addresses: self.socket_addresses@.to_set(),
            port: self.port,
            properties: keyed_map(pairs_view(self.properties@)),
            last_seen: self.last_seen,
        }
    }
}

impl DiscoveryServiceDetails {
    /// Addresses and socket addresses hold no element twice, properties no
    /// key twice.
    pub open spec fn wf(&self) -> bool {
        &&& self.addresses@.no_duplicates()
        &&& self.socket_addresses@.no_duplicates()
        &&& unique_keys(pairs_view(self.properties@))
    }
}

/// Events that the discovery component reports to its subscribers.
#[derive(Debug, Clone)]
pub enum DiscoveryEvent {
    /// A service was found, or its details changed, or it is reported again
    /// on a refresh.
    ServiceFound(DiscoveryServiceDetails),
    /// The service with this full instance name is gone.
    ServiceLost(String),
    /// Discovery has started.
    DiscoveryStarted,
    /// Discovery has stopped.
    DiscoveryStopped,
}

/// Mathematical model of `DiscoveryEvent`.
pub enum DiscoveryEventView {
    ServiceFound(DetailsView),
    ServiceLost(Seq<char>),
    DiscoveryStarted,
    DiscoveryStopped,
}

impl View for DiscoveryEvent {
    type V = DiscoveryEventView;

    open spec fn view(&self) -> DiscoveryEventView {
        match self {
            DiscoveryEvent::ServiceFound(d) => DiscoveryEventView::ServiceFound(d@),
            DiscoveryEvent::ServiceLost(n) => DiscoveryEventView::ServiceLost(n@),
            DiscoveryEvent::DiscoveryStarted => DiscoveryEventView::DiscoveryStarted,
            DiscoveryEvent::DiscoveryStopped => DiscoveryEventView::DiscoveryStopped,
        }
    }
}

/// A service instance as the mDNS daemon resolved it.
#[derive(Debug, Clone)]
pub struct ResolvedService {
    /// Service type and domain, e.g. `"_http._tcp.local."`.
    pub ty_domain: String,
    /// Full instance name, e.g. `"my-service._http._tcp.local."`.
    pub fullname: String,
    /// Host name, e.g. `"my-server1.local."`.
    pub host: String,
    /// Port of the service.
    pub port: u16,
    /// Addresses of the service; the same address may occur more than once.
    pub addresses: Vec<IpAddress>,
    /// TXT record properties in record order; where a key occurs more than
    /// once, the last occurrence counts.
    pub properties: Vec<(String, String)>,
}

/// Mathematical model of `ResolvedService`.
pub struct ResolvedView {
    pub ty_domain: Seq<char>,
    pub fullname: Seq<char>,
    pub host: Seq<char>,
    pub port: u16,
    pub addresses: Set<IpAddress>,
    pub properties: Map<Seq<char>, Seq<char>>,
}

impl View for ResolvedService {
    type V = ResolvedView;

    open spec fn view(&self) -> ResolvedView {
        ResolvedView {
            ty_domain: self.ty_domain@,
            fullname: self.fullname@,
            host: self.host@,
            port: self.port,
            addresses: self.addresses@.to_set(),
            properties: keyed_map(pairs_view(self.properties@)),
        }
    }
}

/// Events from the mDNS daemon about the browsed service type.
#[derive(Debug, Clone)]
pub enum MdnsEvent {
    /// An instance `(service type, full name)` was found but not resolved yet.
    ServiceFound(String, String),
    /// An instance was resolved.
    ServiceResolved(ResolvedService),
    /// The instance `(service type, full name)` was removed.
    ServiceRemoved(String, String),
    /// Any other event of the daemon (search started or stopped).
    Other,
}

/// Mathematical model of `MdnsEvent`.
pub enum MdnsEventView {
    ServiceFound(Seq<char>, Seq<char>),
    ServiceResolved(ResolvedView),
    ServiceRemoved(Seq<char>, Seq<char>),
    Other,
}

impl View for MdnsEvent {
    type V = MdnsEventView;

    open spec fn view(&self) -> MdnsEventView {
        match self {
            MdnsEvent::ServiceFound(t, n) => MdnsEventView::ServiceFound(t@, n@),
            MdnsEvent::ServiceResolved(r) => MdnsEventView::ServiceResolved(r@),
            MdnsEvent::ServiceRemoved(t, n) => MdnsEventView::ServiceRemoved(t@, n@),
            MdnsEvent::Other => MdnsEventView::Other,
        }
    }
}

/// Configuration of the local service and of discovery.
#[derive(Debug)]
pub struct LocalServiceConfig {
    /// Type of the service to announce and to discover, e.g.
    /// `"_my-service._tcp.local."`.
    pub service_type: String,
    /// Port on which the local service listens.
    pub port: u16,
    /// Instance name of the local service.
    pub instance_name: String,
    /// Properties (TXT records) announced with the local service.
    pub properties: Option<HashMap<String, String>>,
    /// Seconds after which a service that was not seen again is dropped.
    pub service_ttl: u64,
    /// Range of the mDNS response delay in milliseconds, `(min, max)`.
    pub mdns_response_delay_ms: (u64, u64),
    /// Discovery refresh interval in seconds.
    pub refresh_interval: u64,
}

impl Clone for LocalServiceConfig {
    fn clone(&self) -> (res: Self)
        ensures
            res.service_type@ == self.service_type@,
            res.port == self.port,
            res.instance_name@ == self.instance_name@,
            res.service_ttl == self.service_ttl,
            res.mdns_response_delay_ms == self.mdns_response_delay_ms,
            res.refresh_interval == self.refresh_interval,
            match (res.properties, self.properties) {
                (Some(a), Some(b)) => a@ == b@,
                (None, None) => true,
                _ => false,
            },
    {
        let properties = match &self.properties {
            Some(p) => Some(p.clone()),
            None => None,
        };
        LocalServiceConfig {
            service_type: self.service_type.clone(),
            port: self.port,
            instance_name: self.instance_name.clone(),
            properties,
            service_ttl: self.service_ttl,
            mdns_response_delay_ms: self.mdns_response_delay_ms,
            refresh_interval: self.refresh_interval,
        }
    }
}

} // verus!
