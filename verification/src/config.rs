//! Connection settings and the lazily built client that serves them.

use vstd::prelude::*;
use vstd::string::StringExecFns;

verus! {

/// Timeout applied when a configuration replacement names none.
pub const DEFAULT_TIMEOUT_SECS: u64 = 30;

/// Connection settings for the upstream backend: where requests go and
/// how long each round trip may take.
pub struct OllamaConfig {
    pub base_url: String,
    pub timeout_secs: u64,
}

impl OllamaConfig {
    /// The settings a fresh process starts from.
    pub open spec fn is_initial(self) -> bool {
        self.base_url@ == "http://localhost:11434"@ && self.timeout_secs == DEFAULT_TIMEOUT_SECS
    }
}

impl Default for OllamaConfig {
    fn default() -> (c: Self)
        ensures
            c.is_initial(),
    {
        OllamaConfig {
            base_url: String::from_str("http://localhost:11434"),
            timeout_secs: DEFAULT_TIMEOUT_SECS,
        }
    }
}

/// What the bridge remembers of a built HTTP client.  The client is
/// constructed from the configuration current at build time; a request
/// carries these settings to the transport layer outside the library.
#[derive(Clone, Copy, PartialEq, Eq, Structural, Debug)]
pub struct ClientSettings {
    pub timeout_secs: u64,
}

/// The client that a given configuration builds.
pub open spec fn built_client(config: OllamaConfig) -> ClientSettings {
    ClientSettings { timeout_secs: config.timeout_secs }
}

/// The timeout that a configuration replacement installs: the named
/// value, or the default when none is named.
pub open spec fn spec_timeout(timeout_secs: Option<u64>) -> u64 {
    match timeout_secs {
        Some(t) => t,
        None => DEFAULT_TIMEOUT_SECS,
    }
}

} // verus!
