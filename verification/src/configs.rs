//! The configuration values that the logging setup reads.

use std::time::Duration;
use vstd::prelude::*;
use vstd::string::StringExecFns;

verus! {

/// Where the process is deployed.
#[derive(Debug, Clone, Copy, PartialEq, Eq, Structural)]
pub enum Environment {
    Local,
    Dev,
    Staging,
    Prod,
}

impl Environment {
    /// The name under which the environment is reported.
    pub open spec fn label(self) -> Seq<char> {
        match self {
            Environment::Local => "local"@,
            Environment::Dev => "dev"@,
            Environment::Staging => "staging"@,
            Environment::Prod => "prod"@,
        }
    }

    /// Whether the process runs on a developer's machine.
    pub fn is_local(&self) -> (r: bool)
        ensures
            r == (*self == Environment::Local),
    {
        match self {
            Environment::Local => true,
            _ => false,
        }
    }

    /// The name under which the environment is reported.
    pub fn name(&self) -> (r: String)
        ensures
            r@ == self.label(),
    {
        match self {
            Environment::Local => String::from_str("local"),
            Environment::Dev => String::from_str("dev"),
            Environment::Staging => String::from_str("staging"),
            Environment::Prod => String::from_str("prod"),
        }
    }
}

/// What the logging setup reads of the application's configuration.
#[derive(Debug)]
pub struct AppConfigs {
    /// The name of the service.
    pub name: String,
    /// The namespace that the service belongs to.
    pub namespace: String,
    /// Where the process is deployed.
    pub env: Environment,
    /// The level at which the service logs, as text.
    pub log_level: String,
    /// Whether the noisy dependencies log at the service's own level.
    pub enable_external_creates_logging: bool,
}

impl Default for AppConfigs {
    /// The configuration of a service that was given none: a local process
    /// that logs at `debug` and keeps its noisy dependencies quiet.
    fn default() -> (r: AppConfigs)
        ensures
            r.name@ == "default-name"@,
            r.namespace@ == "local"@,
            r.env == Environment::Local,
            r.log_level@ == "debug"@,
            !r.enable_external_creates_logging,
    {
        AppConfigs {
            name: String::from_str("default-name"),
            namespace: String::from_str("local"),
            env: Environment::Local,
            log_level: String::from_str("debug"),
            enable_external_creates_logging: false,
        }
    }
}

/// What the logging setup reads of the collector's configuration.
#[derive(Debug)]
pub struct OtlpConfigs {
    /// The collector's address.
    pub endpoint: String,
    /// How long one export may take.
    pub exporter_timeout: Duration,
}

} // verus!
