//! What the tunnel is configured with.

use vstd::prelude::*;
use crate::address::NetworkPrefix;
use crate::default_announce_freq_secs;
use crate::identity::DestinationId;
use crate::registry::{ConfigError, PeerRegistry};

verus! {

/// The configuration of a tunnel client.
#[derive(Clone, Debug, PartialEq, Eq)]
pub struct Config {
    /// The address space of the tunnel.
    pub network: NetworkPrefix,
    /// The peers, each the hexadecimal text of its identifier.
    pub peers: Vec<String>,
    /// Seconds between two announces of the local endpoint.
    pub announce_freq_secs: u32,
}

impl Config {
    /// A configuration with the default announce interval.
    pub fn new(network: NetworkPrefix, peers: Vec<String>) -> (c: Config)
        ensures
            c.network == network,
            c.peers == peers,
            c.announce_freq_secs == 1,
    {
        Config { network, peers, announce_freq_secs: default_announce_freq_secs() }
    }

    /// The registry of this configuration for the local endpoint `local`, or
    /// the reason why the configuration is refused.
    pub fn registry(&self, local: DestinationId) -> (r: Result<PeerRegistry, ConfigError>)
        ensures
            match r {
                Ok(reg) => reg.is_built_from(local, self.network, self.peers@),
                Err(e) => e.is_refusal_of(local, self.network, self.peers@),
            },
    {
        PeerRegistry::build(local, self.network, &self.peers)
    }
}

} // verus!
