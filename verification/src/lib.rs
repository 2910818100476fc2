//! Provisioning core for a desktop application manager: probes the host for a
//! Node.js interpreter and the managed application, ranks locally bundled
//! offline installers, drives a layered install strategy chain, compares
//! versions for update detection, and plans the idempotent bootstrap of the
//! configuration directory tree.
//!
//! All command execution and filesystem access is left to the surrounding
//! program; this crate holds the decision logic, verified.

pub mod config;
pub mod detect;
pub mod model;
pub mod orchestrate;
pub mod probe;
pub mod score;
pub mod scripts;
pub mod strutil;
pub mod update;
pub mod version;

use vstd::prelude::*;

verus! {

/// Derived readiness: the environment is ready exactly when the interpreter
/// is present, its version complies, and the application is present.
pub open spec fn spec_ready(
    node_installed: bool,
    node_version_ok: bool,
    openclaw_installed: bool,
) -> bool {
    node_installed && node_version_ok && openclaw_installed
}

/// Readiness holds iff all three inputs hold; any single false input
/// forces readiness to be false.
pub proof fn lemma_ready_requires_all(
    node_installed: bool,
    node_version_ok: bool,
    openclaw_installed: bool,
)
    ensures
        spec_ready(node_installed, node_version_ok, openclaw_installed) <==> (node_installed
            && node_version_ok && openclaw_installed),
        !node_installed || !node_version_ok || !openclaw_installed ==> !spec_ready(
            node_installed,
            node_version_ok,
            openclaw_installed,
        ),
{
}

} // verus!
