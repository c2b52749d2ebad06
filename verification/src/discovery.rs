//! Choosing the discovery mechanism.

use vstd::prelude::*;

use crate::error::HiveDiscoError;
use crate::state::{DiscoveryState, DiscoveryStateView};
use crate::types::{DiscoveryImplementation, LocalServiceConfig};

verus! {

/// Builds the state of a discovery component of the given kind for `config`.
/// Only mDNS is available: multicast fails with a configuration error, and
/// mDNS fails as `DiscoveryState::new` does.
pub fn create_discovery_state(implementation: DiscoveryImplementation, config: LocalServiceConfig) -> (res:
    Result<DiscoveryState, HiveDiscoError>)
    ensures
        implementation == DiscoveryImplementation::Multicast ==> (res matches Err(HiveDiscoError::ConfigError(m))
            && m@ == "Multicast implementation is not yet complete"@),
        implementation == DiscoveryImplementation::Mdns && config.service_type@.len() == 0 ==> (res matches Err(
            HiveDiscoError::ConfigError(m),
        ) && m@ == "Service type cannot be empty"@),
        implementation == DiscoveryImplementation::Mdns && config.service_type@.len() > 0
            && config.instance_name@.len() == 0 ==> (res matches Err(HiveDiscoError::ConfigError(m)) && m@
            == "Instance name cannot be empty"@),
        implementation == DiscoveryImplementation::Mdns && config.service_type@.len() > 0
            && config.instance_name@.len() > 0 ==> (res matches Ok(s) && s.wf() && s@
            == DiscoveryStateView::initial(config) && s.configuration() == config),
{
    match implementation {
        DiscoveryImplementation::Mdns => DiscoveryState::new(config),
        DiscoveryImplementation::Multicast => Err(
            HiveDiscoError::ConfigError("Multicast implementation is not yet complete".to_owned()),
        ),
    }
}

} // verus!
