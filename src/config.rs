//! Client settings.

use vstd::prelude::*;

verus! {

/// Relies on `Duration`'s `Clone`: a `Copy` type, so a clone is the same value.
pub assume_specification[ <std::time::Duration as std::clone::Clone>::clone ](
    d: &std::time::Duration,
) -> (r: std::time::Duration)
    ensures
        r == *d,
;

/// Settings of the sandbox client: the API key of the control plane, its
/// base URL, the per-request timeout, and whether the agent is reached on
/// the local machine.
#[derive(Debug, Clone)]
pub struct Config {
    pub api_key: String,
    /// Absolute URL of the control plane, such as `https://api.e2b.dev`.
    pub domain: String,
    pub timeout: std::time::Duration,
    pub debug: bool,
}

impl Config {
    /// These settings with another API key.
    pub fn with_api_key(self, api_key: &str) -> (r: Self)
        ensures
            r.api_key@ == api_key@,
            r.domain == self.domain,
            r.timeout == self.timeout,
            r.debug == self.debug,
    {
        Config { api_key: String::from_str(api_key), ..self }
    }

    /// These settings with another control-plane URL.
    pub fn with_domain(self, domain: &str) -> (r: Self)
        ensures
            r.domain@ == domain@,
            r.api_key == self.api_key,
            r.timeout == self.timeout,
            r.debug == self.debug,
    {
        Config { domain: String::from_str(domain), ..self }
    }

    /// These settings with another request timeout.
    pub fn with_timeout(self, timeout: std::time::Duration) -> (r: Self)
        ensures
            r.timeout == timeout,
            r.api_key == self.api_key,
            r.domain == self.domain,
            r.debug == self.debug,
    {
        Config { timeout, ..self }
    }

    /// These settings with debug mode on or off.
    pub fn with_debug(self, debug: bool) -> (r: Self)
        ensures
            r.debug == debug,
            r.api_key == self.api_key,
            r.domain == self.domain,
            r.timeout == self.timeout,
    {
        Config { debug, ..self }
    }
}

} // verus!
