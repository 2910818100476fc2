//! Value types exchanged with the surrounding program: the consolidated
//! environment snapshot, the outcome record of every install, uninstall
//! and update operation, update information, and plain status records.

use vstd::prelude::*;

verus! {

/// Consolidated snapshot of the host environment, rebuilt fresh on every
/// detection pass and never cached.
#[derive(Debug, Clone)]
pub struct EnvironmentStatus {
    /// The Node.js interpreter was found.
    pub node_installed: bool,
    /// The interpreter version string, when one was found.
    pub node_version: Option<String>,
    /// The interpreter version satisfies the minimum major version.
    pub node_version_ok: bool,
    /// The managed application was found.
    pub openclaw_installed: bool,
    /// The application version string, when one was found.
    pub openclaw_version: Option<String>,
    /// The configuration directory exists.
    pub config_dir_exists: bool,
    /// Derived readiness; see `spec_status_wf`.
    pub ready: bool,
    /// Host operating system name.
    pub os: String,
}

impl EnvironmentStatus {
    /// The internal coherence of a snapshot: the presence booleans mirror
    /// the version fields and readiness is exactly the three-way
    /// conjunction of the spec.
    pub open spec fn wf(self) -> bool {
        &&& self.node_installed == self.node_version is Some
        &&& self.openclaw_installed == self.openclaw_version is Some
        &&& self.ready == (self.node_installed && self.node_version_ok
            && self.openclaw_installed)
    }
}

/// One step of a running installation, as reported to the user interface.
#[derive(Debug, Clone)]
pub struct InstallProgress {
    pub step: String,
    pub progress: u8,
    pub message: String,
    pub error: Option<String>,
}

/// Terminal outcome of an install, uninstall or update operation. Never
/// partially filled: a successful result carries no error.
#[derive(Debug, Clone)]
pub struct InstallResult {
    pub success: bool,
    pub message: String,
    pub error: Option<String>,
}

impl InstallResult {
    /// Success implies the absence of an error payload.
    pub open spec fn wf(self) -> bool {
        self.success ==> self.error is None
    }
}

/// Outcome of an update check. `update_available` is meaningful only when
/// both versions are present; the absence of either forces it to false.
#[derive(Debug, Clone)]
pub struct UpdateInfo {
    pub update_available: bool,
    pub current_version: Option<String>,
    pub latest_version: Option<String>,
    pub error: Option<String>,
}

impl UpdateInfo {
    /// An available update implies both versions are present.
    pub open spec fn wf(self) -> bool {
        self.update_available ==> self.current_version is Some && self.latest_version is Some
    }
}

/// Plain record of the host system, for display.
#[derive(Debug, Clone)]
pub struct SystemInfo {
    pub os: String,
    pub os_version: String,
    pub arch: String,
    pub openclaw_installed: bool,
    pub openclaw_version: Option<String>,
    pub node_version: Option<String>,
    pub config_dir: String,
}

/// One line of a diagnostic report.
#[derive(Debug, Clone)]
pub struct DiagnosticResult {
    pub name: String,
    pub passed: bool,
    pub message: String,
    pub suggestion: Option<String>,
}

/// Outcome of a connectivity test against a model provider.
#[derive(Debug, Clone)]
pub struct AITestResult {
    pub success: bool,
    pub provider: String,
    pub model: String,
    pub response: Option<String>,
    pub error: Option<String>,
    pub latency_ms: Option<u64>,
}

/// Outcome of a connectivity test against a notification channel.
#[derive(Debug, Clone)]
pub struct ChannelTestResult {
    pub success: bool,
    pub channel: String,
    pub message: String,
    pub error: Option<String>,
}

} // verus!
