//! How the transport under the client is to be set up.

use vstd::prelude::*;

verus! {

/// Settings of the transport: time limits, in milliseconds, and how often the
/// transport tries again on its own after a failure of the network.
#[derive(Debug, Clone, Copy, PartialEq, Eq)]
pub struct ClientConfig {
    pub timeout_ms: u64,
    pub connect_timeout_ms: u64,
    pub max_retries: u32,
}

impl ClientConfig {
    /// The settings of a client that was given none.
    pub open spec fn standard() -> ClientConfig {
        ClientConfig {
            timeout_ms: 30000,
            connect_timeout_ms: 10000,
            max_retries: 3,
        }
    }
}

impl Default for ClientConfig {
    fn default() -> (r: ClientConfig)
        ensures
            r == ClientConfig::standard(),
    {
        ClientConfig {
            timeout_ms: 30000,
            connect_timeout_ms: 10000,
            max_retries: 3,
        }
    }
}

} // verus!
