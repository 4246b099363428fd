//! The settings that the agent runs with.

use vstd::prelude::*;

verus! {

/// Where the remote collector is.
#[derive(Debug, Clone, PartialEq, Eq)]
pub struct Server {
    pub url: String,
}

/// The certificate and key files for the connection to the collector.
#[derive(Debug, Clone, PartialEq, Eq)]
pub struct Security {
    pub server_cert_path: String,
    pub agent_cert_path: String,
    pub agent_key_path: String,
}

/// The agent's settings.
#[derive(Debug, Clone, PartialEq, Eq)]
pub struct Settings {
    pub agent_id: String,
    pub server: Server,
    pub security: Security,
}

impl Settings {
    /// Settings made of the given parts.
    pub fn new(agent_id: String, server: Server, security: Security) -> (settings: Settings)
        ensures
            settings.agent_id == agent_id,
            settings.server == server,
            settings.security == security,
    {
        Settings { agent_id, server, security }
    }
}

} // verus!
