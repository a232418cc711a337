//! The configuration that both roles run on, already validated and in memory.

use vstd::prelude::*;

verus! {

/// The port that a target uses where its configuration names none.
pub const DEFAULT_PORT: u16 = 7878;

/// What is watched, and how.
#[derive(Debug, Clone, PartialEq, Eq)]
pub struct GeneralConfig {
    pub watch_dir: String,
    pub method: String,
}

/// One receiving endpoint.
#[derive(Debug, Clone, PartialEq, Eq)]
pub struct TargetConfig {
    pub host: String,
    pub port: Option<u16>,
    pub path: String,
}

/// The glob patterns of the paths that are never sent.
#[derive(Debug, Clone, PartialEq, Eq)]
pub struct IgnoreConfig {
    pub ignore_patterns: Vec<String>,
}

/// The whole configuration.
#[derive(Debug, Clone, PartialEq, Eq)]
pub struct AppConfig {
    pub general: GeneralConfig,
    pub targets: Vec<TargetConfig>,
    pub ignore: IgnoreConfig,
}

impl TargetConfig {
    /// The configured port, or the default one.
    pub open spec fn spec_port(&self) -> u16 {
        match self.port {
            Some(port) => port,
            None => DEFAULT_PORT,
        }
    }

    /// The port to connect to or to listen on.
    pub fn effective_port(&self) -> (r: u16)
        ensures
            r == self.spec_port(),
    {
        match self.port {
            Some(port) => port,
            None => DEFAULT_PORT,
        }
    }
}

/// Where a receiving node listens and stores.
#[derive(Debug, Clone, PartialEq, Eq)]
pub struct ReceiverSettings {
    pub port: u16,
    pub root: String,
}

impl AppConfig {
    /// The settings of a receiving node: those of the first target.
    /// `None` exactly when no target is configured.
    pub fn receiver_settings(&self) -> (r: Option<ReceiverSettings>)
        ensures
            self.targets@.len() == 0 <==> r is None,
            r matches Some(settings) ==> settings.port == self.targets@[0].spec_port()
                && settings.root@ == self.targets@[0].path@,
    {
        if self.targets.len() == 0 {
            None
        } else {
            let first = &self.targets[0];
            Some(ReceiverSettings { port: first.effective_port(), root: first.path.clone() })
        }
    }
}

} // verus!
