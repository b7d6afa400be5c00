//! The immutable configuration snapshot read once at startup.
//!
//! All filesystem paths are expected to be absolutized (relative to the
//! configuration file's own location) before the snapshot is built; the
//! well-formedness predicate records that expectation. The host endpoint's
//! configuration is the base endpoint target overlaid with the `host_api`
//! section, computed by an explicit value transform.

use vstd::prelude::*;

verus! {

/// Supervisor daemon settings: where its executable, control socket, pid
/// file and log file live, and how it is launched when absent.
pub struct SupervisorSettings {
    /// Path of the supervisor executable.
    pub exe: String,
    /// Path of the supervisor's listening socket.
    pub sock: String,
    /// Path of the supervisor's pid file.
    pub pid_file: String,
    /// Path of the log file the spawned supervisor's stdio is redirected to.
    pub log_file: String,
    /// Whether a spawned supervisor is fully detached from this process.
    pub detached: bool,
    /// Whether a missing supervisor may be spawned at startup.
    pub auto_start: bool,
}

/// Auto-restart settings for the periodic reconciliation loop.
pub struct AutoRestartSettings {
    /// Whether the loop does any work at all; decided once at startup.
    pub enabled: bool,
    /// Seconds between reconciliation passes.
    pub interval_secs: u64,
}

/// API authentication settings.
pub struct AuthSettings {
    /// Whether token checking is enabled.
    pub enabled: bool,
    /// The accepted tokens.
    pub tokens: Vec<String>,
}

/// The ordinary network bind target of an API endpoint.
#[derive(Debug)]
pub struct EndpointTarget {
    pub address: String,
    pub port: u16,
}

/// The `host_api` configuration section: a partial overlay on the base
/// endpoint target. An absent key inherits the base value.
pub struct HostApiOverlay {
    pub address: Option<String>,
    pub port: Option<u16>,
}

/// The configuration snapshot, loaded once and never mutated.
pub struct Config {
    pub supervisor: SupervisorSettings,
    pub auto_restart: AutoRestartSettings,
    pub auth: AuthSettings,
    /// The external endpoint's bind target (the configured default).
    pub external_target: EndpointTarget,
    /// The `host_api` section, when the configuration has one: the
    /// overlay applied to the base target to form the host endpoint's
    /// target. A configuration without the section cannot run the host
    /// endpoint at all; that is not the same as a present section that
    /// carries no keys.
    pub host_api: Option<HostApiOverlay>,
}

/// Why the host endpoint's configuration could not be formed.
#[derive(Clone, Copy, PartialEq, Eq, Structural, Debug)]
pub enum ConfigError {
    /// The configuration has no `host_api` section.
    MissingHostApiSection,
}

impl ConfigError {
    /// The context the error surfaces with.
    pub fn describe(&self) -> (r: String)
        ensures
            r@ == "missing host_api section"@,
    {
        String::from_str("missing host_api section")
    }
}

/// A path is absolute when it starts at the filesystem root.
pub open spec fn is_absolute_path(p: Seq<char>) -> bool {
    p.len() > 0 && p[0] == '/'
}

impl SupervisorSettings {
    /// All supervisor paths have been absolutized.
    pub open spec fn paths_absolutized(&self) -> bool {
        &&& is_absolute_path(self.exe@)
        &&& is_absolute_path(self.sock@)
        &&& is_absolute_path(self.pid_file@)
        &&& is_absolute_path(self.log_file@)
    }
}

/// Whether a path string is absolute.
pub fn path_is_absolute(p: &str) -> (r: bool)
    ensures
        r == is_absolute_path(p@),
{
    if p.unicode_len() == 0 {
        false
    } else {
        p.get_char(0) == '/'
    }
}

impl SupervisorSettings {
    /// Check that every supervisor path has been absolutized; the startup
    /// code refuses to proceed otherwise.
    pub fn check_paths_absolutized(&self) -> (r: bool)
        ensures
            r == self.paths_absolutized(),
    {
        path_is_absolute(self.exe.as_str()) && path_is_absolute(self.sock.as_str())
            && path_is_absolute(self.pid_file.as_str()) && path_is_absolute(
            self.log_file.as_str(),
        )
    }
}

impl EndpointTarget {
    /// The explicit overlay transform: every key present in the overlay
    /// replaces the base value, every absent key inherits it.
    pub fn override_with(&self, overlay: &HostApiOverlay) -> (r: EndpointTarget)
        ensures
            r.address@ == (match overlay.address {
                Some(a) => a@,
                None => self.address@,
            }),
            r.port == (match overlay.port {
                Some(p) => p,
                None => self.port,
            }),
    {
        let address = match &overlay.address {
            Some(a) => a.clone(),
            None => self.address.clone(),
        };
        let port = match &overlay.port {
            Some(p) => *p,
            None => self.port,
        };
        EndpointTarget { address, port }
    }
}

impl Config {
    /// The host endpoint's bind target: the base target overlaid with the
    /// `host_api` section. A configuration without that section fails
    /// here, before any bind is ever attempted.
    pub fn host_target(&self) -> (r: Result<EndpointTarget, ConfigError>)
        ensures
            match r {
                Ok(t) => {
                    &&& self.host_api is Some
                    &&& t.address@ == (match self.host_api->0.address {
                        Some(a) => a@,
                        None => self.external_target.address@,
                    })
                    &&& t.port == (match self.host_api->0.port {
                        Some(p) => p,
                        None => self.external_target.port,
                    })
                },
                Err(e) => self.host_api is None && e == ConfigError::MissingHostApiSection,
            },
    {
        match &self.host_api {
            Some(overlay) => Ok(self.external_target.override_with(overlay)),
            None => Err(ConfigError::MissingHostApiSection),
        }
    }
}

} // verus!
