use std::time::Duration;
use vstd::prelude::*;

verus! {

/// The settings a solve run reads.
///
/// `num_threads` is an optional override of the worker count; it only has an
/// effect when multithreaded solving is requested.
#[derive(Debug)]
pub struct ClientConfig {
    /// The protected endpoint this client works against.
    pub endpoint: String,
    /// Base URL of the challenge service.
    pub api_base_url: String,
    /// Time limit for one HTTP exchange.
    pub timeout: Duration,
    /// Whether diagnostic output is printed.
    pub verbose: bool,
    /// Explicit worker count, if any.
    pub num_threads: Option<usize>,
}

} // verus!

verus! {

/// Applies command-line overrides to a loaded configuration.
pub struct ConfigManager;

impl ConfigManager {
    /// The configuration with the verbose override applied, if there is one;
    /// every other setting is kept.
    pub fn apply_overrides(config: ClientConfig, verbose_override: Option<bool>) -> (r: ClientConfig)
        ensures
            r.verbose == match verbose_override {
                Some(v) => v,
                None => config.verbose,
            },
            r.endpoint == config.endpoint,
            r.api_base_url == config.api_base_url,
            r.timeout == config.timeout,
            r.num_threads == config.num_threads,
    {
        let mut config = config;
        if let Some(v) = verbose_override {
            config.verbose = v;
        }
        config
    }
}

} // verus!

verus! {

/// Why a configuration is unusable.
#[derive(Debug, Clone, Copy, PartialEq, Eq, Structural)]
pub enum ConfigError {
    /// The challenge service's base URL is empty.
    EmptyApiBaseUrl,
    /// The HTTP timeout is zero.
    ZeroTimeout,
}

/// Whether a duration is zero.
pub uninterp spec fn zero_duration(d: Duration) -> bool;

/// Relies on Duration::is_zero: whether the duration is zero, which depends
/// on the duration alone.
#[verifier::external_body]
fn duration_is_zero(d: &Duration) -> (r: bool)
    ensures
        r == zero_duration(*d),
{
    d.is_zero()
}

impl ClientConfig {
    /// Checks that the configuration can be used: the service's base URL is
    /// not empty and the timeout is not zero.
    pub fn validate(&self) -> (r: Result<(), ConfigError>)
        ensures
            r is Ok <==> self.api_base_url@.len() > 0 && !zero_duration(self.timeout),
            r == Err::<(), ConfigError>(ConfigError::EmptyApiBaseUrl) <==> self.api_base_url@.len() == 0,
            r == Err::<(), ConfigError>(ConfigError::ZeroTimeout) <==> self.api_base_url@.len() > 0
                && zero_duration(self.timeout),
    {
        if self.api_base_url.as_str().is_empty() {
            return Err(ConfigError::EmptyApiBaseUrl);
        }
        if duration_is_zero(&self.timeout) {
            return Err(ConfigError::ZeroTimeout);
        }
        Ok(())
    }
}

} // verus!
