//! Idempotent bootstrap of the application's configuration directory
//! tree. The plan is a fixed list of directories under the root; the
//! surrounding program creates each recursively (a no-op when it already
//! exists), restricts the root to owner-only access where the platform
//! supports permission bits, and then issues one configuration command.

use vstd::prelude::*;

use crate::model::InstallResult;
use crate::strutil::concat2;

verus! {

/// Owner-only access, applied to the configuration root where POSIX
/// permission bits are supported.
pub const CONFIG_DIR_MODE: u32 = 0o700;

/// The subdirectories of the configuration root, in creation order.
pub fn bootstrap_subdirs() -> (r: Vec<String>)
    ensures
        r.deep_view() == seq!["agents/main/sessions"@, "agents/main/agent"@, "credentials"@],
{
    let mut r: Vec<String> = Vec::new();
    r.push(String::from_str("agents/main/sessions"));
    r.push(String::from_str("agents/main/agent"));
    r.push(String::from_str("credentials"));
    assert(r.deep_view() =~~= seq!["agents/main/sessions"@, "agents/main/agent"@, "credentials"@]);
    r
}

/// The full paths the bootstrap creates, root first.
pub open spec fn spec_bootstrap_dirs(root: Seq<char>) -> Seq<Seq<char>> {
    seq![
        root,
        root + "/agents/main/sessions"@,
        root + "/agents/main/agent"@,
        root + "/credentials"@,
    ]
}

/// The creation plan for a configuration root: the root itself, then
/// each subdirectory, every one created recursively and tolerant of
/// already existing.
pub fn bootstrap_dirs(root: &str) -> (r: Vec<String>)
    ensures
        r.deep_view() == spec_bootstrap_dirs(root@),
{
    let mut r: Vec<String> = Vec::new();
    r.push(String::from_str(root));
    r.push(concat2(root, "/agents/main/sessions"));
    r.push(concat2(root, "/agents/main/agent"));
    r.push(concat2(root, "/credentials"));
    assert(r.deep_view() =~~= spec_bootstrap_dirs(root@));
    r
}

/// Every directory recursive creation of the plan brings into
/// existence, intermediate levels and all.
pub open spec fn spec_required_dirs(root: Seq<char>) -> Set<Seq<char>> {
    set![
        root,
        root + "/agents"@,
        root + "/agents/main"@,
        root + "/agents/main/sessions"@,
        root + "/agents/main/agent"@,
        root + "/credentials"@,
    ]
}

/// The directories on disk after one bootstrap pass over a filesystem
/// that already holds `existing`: recursive creation adds the required
/// set and touches nothing else.
pub open spec fn spec_apply_bootstrap(existing: Set<Seq<char>>, root: Seq<char>) -> Set<
    Seq<char>,
> {
    existing.union(spec_required_dirs(root))
}

/// Bootstrap is idempotent: a second pass over the same root changes
/// nothing, so running it twice in succession produces no error and an
/// identical directory tree.
pub proof fn lemma_bootstrap_idempotent(existing: Set<Seq<char>>, root: Seq<char>)
    ensures
        spec_apply_bootstrap(spec_apply_bootstrap(existing, root), root) =~= spec_apply_bootstrap(
            existing,
            root,
        ),
{
}

/// One bootstrap pass creates every directory of the plan, whatever was
/// there before.
pub proof fn lemma_bootstrap_complete(existing: Set<Seq<char>>, root: Seq<char>)
    ensures
        forall|i: int|
            0 <= i < spec_bootstrap_dirs(root).len() ==> spec_apply_bootstrap(
                existing,
                root,
            ).contains(#[trigger] spec_bootstrap_dirs(root)[i]),
{
    let plan = spec_bootstrap_dirs(root);
    let req = spec_required_dirs(root);
    assert(req.contains(plan[0]));
    assert(req.contains(plan[1]));
    assert(req.contains(plan[2]));
    assert(req.contains(plan[3]));
}

/// The one configuration command issued after the directories exist: it
/// sets the fixed operating mode.
pub fn gateway_mode_args() -> (r: Vec<String>)
    ensures
        r.deep_view() == seq!["config"@, "set"@, "gateway.mode"@, "local"@],
{
    let mut r: Vec<String> = Vec::new();
    r.push(String::from_str("config"));
    r.push(String::from_str("set"));
    r.push(String::from_str("gateway.mode"));
    r.push(String::from_str("local"));
    assert(r.deep_view() =~~= seq!["config"@, "set"@, "gateway.mode"@, "local"@]);
    r
}

/// The failure reported when creating one directory of the plan fails:
/// the operation aborts and hands the filesystem error through verbatim.
pub fn create_dir_failure_result(path: &str, err: &str) -> (r: InstallResult)
    ensures
        !r.success,
        r.message@ == "Failed to create directory: "@ + path@,
        match r.error {
            Option::Some(e) => e@ == err@,
            Option::None => false,
        },
        r.wf(),
{
    InstallResult {
        success: false,
        message: concat2("Failed to create directory: ", path),
        error: Some(String::from_str(err)),
    }
}

/// Outcome of the closing configuration command: success reports the
/// bootstrap as initialized; failure reports it as failed and carries
/// the command's error, while the created directories stay.
pub fn config_command_result(command: &Result<String, String>) -> (r: InstallResult)
    ensures
        r.success == command is Ok,
        command is Ok ==> r.message@ == "Configuration initialized"@ && r.error is None,
        match command {
            Result::Err(e) => r.message@ == "Configuration command failed"@ && match r.error {
                Option::Some(re) => re@ == e@,
                Option::None => false,
            },
            Result::Ok(_) => true,
        },
        r.wf(),
{
    match command {
        Result::Ok(_) => InstallResult {
            success: true,
            message: String::from_str("Configuration initialized"),
            error: None,
        },
        Result::Err(e) => InstallResult {
            success: false,
            message: String::from_str("Configuration command failed"),
            error: Some(String::from_str(e.as_str())),
        },
    }
}

} // verus!
