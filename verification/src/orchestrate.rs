//! The installation strategy chain, per dependency: an offline package
//! when one is bundled, then a primary and a secondary online method,
//! strictly sequential and terminal on the first verified success. An
//! attempt counts as successful only when a fresh detection pass reports
//! the dependency present (and, for the interpreter, version-compliant);
//! the exit status of the installation command alone is not trusted.

use vstd::prelude::*;

use crate::model::EnvironmentStatus;
use crate::model::InstallResult;
use crate::strutil::chars_of;
use crate::strutil::concat2;
use crate::strutil::concat3;
use crate::strutil::string_of_chars;

verus! {

/// The dependency an operation provisions.
#[derive(Clone, Copy, Debug, PartialEq, Eq, Structural)]
pub enum InstallTarget {
    Interpreter,
    Application,
}

/// The host operating system, as dispatch decisions need it.
#[derive(Clone, Copy, Debug, PartialEq, Eq, Structural)]
pub enum HostOs {
    Windows,
    Macos,
    Linux,
    Other,
}

/// One ranked attempt of the installation fallback chain.
#[derive(Clone, Copy, Debug, PartialEq, Eq, Structural)]
pub enum StrategyTier {
    OfflinePackage,
    PrimaryOnline,
    SecondaryOnline,
}

/// Where the chain stands: attempting a tier, or terminal.
#[derive(Clone, Copy, Debug, PartialEq, Eq, Structural)]
pub enum InstallPhase {
    Attempting(StrategyTier),
    Succeeded,
    Failed,
}

/// The operating system names the detector reports.
pub open spec fn spec_host_os(s: Seq<char>) -> HostOs {
    if s == "windows"@ {
        HostOs::Windows
    } else if s == "macos"@ {
        HostOs::Macos
    } else if s == "linux"@ {
        HostOs::Linux
    } else {
        HostOs::Other
    }
}

pub fn parse_host_os(s: &str) -> (r: HostOs)
    ensures
        r == spec_host_os(s@),
{
    if crate::strutil::str_eq(s, "windows") {
        HostOs::Windows
    } else if crate::strutil::str_eq(s, "macos") {
        HostOs::Macos
    } else if crate::strutil::str_eq(s, "linux") {
        HostOs::Linux
    } else {
        HostOs::Other
    }
}

/// Where the chain starts: an unsupported host fails without attempting
/// any tier; a bundled offline package is tried first when one was
/// found, the primary online method otherwise.
pub open spec fn spec_initial_phase(os_supported: bool, offline_available: bool) -> InstallPhase {
    if !os_supported {
        InstallPhase::Failed
    } else if offline_available {
        InstallPhase::Attempting(StrategyTier::OfflinePackage)
    } else {
        InstallPhase::Attempting(StrategyTier::PrimaryOnline)
    }
}

pub fn initial_phase(os_supported: bool, offline_available: bool) -> (r: InstallPhase)
    ensures
        r == spec_initial_phase(os_supported, offline_available),
{
    if !os_supported {
        InstallPhase::Failed
    } else if offline_available {
        InstallPhase::Attempting(StrategyTier::OfflinePackage)
    } else {
        InstallPhase::Attempting(StrategyTier::PrimaryOnline)
    }
}

/// Where the chain goes after one attempt: verified success is terminal;
/// anything else advances to the next tier, and past the last tier the
/// chain fails.
pub open spec fn spec_advance_phase(tier: StrategyTier, verified: bool) -> InstallPhase {
    if verified {
        InstallPhase::Succeeded
    } else {
        match tier {
            StrategyTier::OfflinePackage => InstallPhase::Attempting(StrategyTier::PrimaryOnline),
            StrategyTier::PrimaryOnline => InstallPhase::Attempting(
                StrategyTier::SecondaryOnline,
            ),
            StrategyTier::SecondaryOnline => InstallPhase::Failed,
        }
    }
}

pub fn advance_phase(tier: StrategyTier, verified: bool) -> (r: InstallPhase)
    ensures
        r == spec_advance_phase(tier, verified),
{
    if verified {
        InstallPhase::Succeeded
    } else {
        match tier {
            StrategyTier::OfflinePackage => InstallPhase::Attempting(StrategyTier::PrimaryOnline),
            StrategyTier::PrimaryOnline => InstallPhase::Attempting(
                StrategyTier::SecondaryOnline,
            ),
            StrategyTier::SecondaryOnline => InstallPhase::Failed,
        }
    }
}

/// What a fresh detection pass must report for an attempt on this
/// dependency to count as successful.
pub open spec fn spec_attempt_verified(target: InstallTarget, status: EnvironmentStatus) -> bool {
    match target {
        InstallTarget::Interpreter => status.node_installed && status.node_version_ok,
        InstallTarget::Application => status.openclaw_installed,
    }
}

pub fn attempt_verified(target: InstallTarget, status: &EnvironmentStatus) -> (r: bool)
    ensures
        r == spec_attempt_verified(target, *status),
{
    match target {
        InstallTarget::Interpreter => status.node_installed && status.node_version_ok,
        InstallTarget::Application => status.openclaw_installed,
    }
}

/// Terminal outcome of a finished chain; an unfinished chain has none.
pub fn install_outcome(phase: InstallPhase, last_error: Option<String>) -> (r: Option<
    InstallResult,
>)
    ensures
        match phase {
            InstallPhase::Succeeded => match r {
                Option::Some(o) => o.success && o.message@ == "Installation succeeded"@
                    && o.error is None && o.wf(),
                Option::None => false,
            },
            InstallPhase::Failed => match r {
                Option::Some(o) => !o.success && o.message@
                    == "All installation strategies failed"@ && o.error == last_error && o.wf(),
                Option::None => false,
            },
            InstallPhase::Attempting(_) => r is None,
        },
{
    match phase {
        InstallPhase::Succeeded => Some(
            InstallResult {
                success: true,
                message: String::from_str("Installation succeeded"),
                error: None,
            },
        ),
        InstallPhase::Failed => Some(
            InstallResult {
                success: false,
                message: String::from_str("All installation strategies failed"),
                error: last_error,
            },
        ),
        InstallPhase::Attempting(_) => None,
    }
}

/// The failure reported when the detected operating system has no
/// install handler: no tier is attempted.
pub fn unsupported_os_result(os: &str) -> (r: InstallResult)
    ensures
        !r.success,
        r.message@ == "Unsupported operating system"@,
        match r.error {
            Option::Some(e) => e@ == "Unsupported operating system: "@ + os@,
            Option::None => false,
        },
        r.wf(),
{
    InstallResult {
        success: false,
        message: String::from_str("Unsupported operating system"),
        error: Some(concat2("Unsupported operating system: ", os)),
    }
}

/// Outcome of an uninstall: the command must have run and a fresh probe
/// must no longer find the application; a command that ran but left the
/// application behind is reported as a failure carrying the command
/// output, a command that could not run as a failure carrying its error.
pub fn uninstall_result(command_ok: bool, output: &str, still_present: bool) -> (r: InstallResult)
    ensures
        r.success == (command_ok && !still_present),
        command_ok && !still_present ==> r.message@ == "The application was uninstalled"@
            && r.error is None,
        command_ok && still_present ==> r.message@
            == "The uninstall command ran but the application is still present"@ && match r
            .error {
            Option::Some(e) => e@ == output@,
            Option::None => false,
        },
        !command_ok ==> r.message@ == "Uninstall failed"@ && match r.error {
            Option::Some(e) => e@ == output@,
            Option::None => false,
        },
        r.wf(),
{
    if command_ok && !still_present {
        InstallResult {
            success: true,
            message: String::from_str("The application was uninstalled"),
            error: None,
        }
    } else if command_ok {
        InstallResult {
            success: false,
            message: String::from_str(
                "The uninstall command ran but the application is still present",
            ),
            error: Some(String::from_str(output)),
        }
    } else {
        InstallResult {
            success: false,
            message: String::from_str("Uninstall failed"),
            error: Some(String::from_str(output)),
        }
    }
}

/// Outcome of a source-repository sync with a mirror-then-direct
/// fallback: the direct attempt exists exactly when the mirror attempt
/// failed, and failure of both reports both errors.
pub fn sync_result(
    mirror: &Result<String, String>,
    direct: &Option<Result<String, String>>,
) -> (r: InstallResult)
    requires
        mirror is Err <==> direct is Some,
    ensures
        r.success == !(mirror is Err && match direct {
            Option::Some(d) => d is Err,
            Option::None => false,
        }),
        r.success ==> r.message@ == "Synced from the source repository"@ && r.error is None,
        !r.success ==> r.message@ == "Sync failed"@ && match (mirror, direct) {
            (Result::Err(e1), Option::Some(Result::Err(e2))) => match r.error {
                Option::Some(e) => e@ == "mirror error: "@ + e1@ + "; direct error: "@ + e2@,
                Option::None => false,
            },
            _ => false,
        },
        r.wf(),
{
    match mirror {
        Result::Ok(_) => InstallResult {
            success: true,
            message: String::from_str("Synced from the source repository"),
            error: None,
        },
        Result::Err(e1) => match direct {
            Option::Some(Result::Ok(_)) => InstallResult {
                success: true,
                message: String::from_str("Synced from the source repository"),
                error: None,
            },
            Option::Some(Result::Err(e2)) => {
                let head = concat2("mirror error: ", e1.as_str());
                let detail = concat3(head.as_str(), "; direct error: ", e2.as_str());
                InstallResult {
                    success: false,
                    message: String::from_str("Sync failed"),
                    error: Some(detail),
                }
            },
            Option::None => {
                proof {
                    assert(false);
                }
                InstallResult {
                    success: false,
                    message: String::from_str("Sync failed"),
                    error: None,
                }
            },
        },
    }
}

/// The errors among a list of best-effort step results, in order.
pub open spec fn spec_collect_errors(rs: Seq<Result<String, String>>) -> Seq<Seq<char>>
    decreases rs.len(),
{
    if rs.len() == 0 {
        Seq::empty()
    } else {
        let rest = spec_collect_errors(rs.drop_first());
        match rs[0] {
            Result::Ok(_) => rest,
            Result::Err(e) => seq![e@] + rest,
        }
    }
}

/// Collects the failures of a list of best-effort side steps (the
/// post-install hook, optional feature modules): each failure is kept
/// for logging, and none of them changes the parent operation's
/// outcome.
pub fn best_effort_failures(results: &Vec<Result<String, String>>) -> (r: Vec<String>)
    ensures
        r.deep_view() == spec_collect_errors(results@),
{
    let ghost rv = results@;
    let mut r: Vec<String> = Vec::new();
    let mut i: usize = 0;
    proof {
        assert(rv.skip(0) =~= rv);
        assert(r.deep_view() =~~= Seq::<Seq<char>>::empty());
        assert(r.deep_view() + spec_collect_errors(rv) =~= spec_collect_errors(rv));
    }
    while i < results.len()
        invariant
            rv == results@,
            i <= rv.len(),
            spec_collect_errors(rv) == r.deep_view() + spec_collect_errors(rv.skip(i as int)),
        decreases rv.len() - i,
    {
        let ghost tail = rv.skip(i as int);
        proof {
            assert(tail[0] == rv[i as int]);
            assert(tail.drop_first() =~= rv.skip(i + 1));
        }
        match &results[i] {
            Result::Ok(_) => {
                proof {
                    assert(spec_collect_errors(tail) == spec_collect_errors(tail.drop_first()));
                }
            },
            Result::Err(e) => {
                let ghost prev = r.deep_view();
                r.push(String::from_str(e.as_str()));
                proof {
                    assert(spec_collect_errors(tail) == seq![e@] + spec_collect_errors(
                        tail.drop_first(),
                    ));
                    assert(r.deep_view() =~~= prev + seq![e@]);
                    assert(r.deep_view() + spec_collect_errors(tail.drop_first()) =~= prev
                        + spec_collect_errors(tail));
                }
            },
        }
        i = i + 1;
    }
    proof {
        assert(spec_collect_errors(rv.skip(i as int)) == Seq::<Seq<char>>::empty());
        assert(r.deep_view() + spec_collect_errors(rv.skip(i as int)) =~= r.deep_view());
    }
    r
}

/// The optional feature modules installed best-effort after the
/// application itself.
pub fn default_feature_modules() -> (r: Vec<String>)
    ensures
        r.deep_view() == seq!["browser"@, "files"@, "shell"@],
{
    let mut r: Vec<String> = Vec::new();
    r.push(String::from_str("browser"));
    r.push(String::from_str("files"));
    r.push(String::from_str("shell"));
    assert(r.deep_view() =~~= seq!["browser"@, "files"@, "shell"@]);
    r
}

/// A character escaped for interpolation into an AppleScript string
/// literal: backslashes and double quotes get a backslash in front.
pub open spec fn spec_escape_char(c: char) -> Seq<char> {
    if c == '\\' || c == '"' {
        seq!['\\', c]
    } else {
        seq![c]
    }
}

/// A string escaped for interpolation into an AppleScript string
/// literal.
pub open spec fn spec_escape(s: Seq<char>) -> Seq<char>
    decreases s.len(),
{
    if s.len() == 0 {
        Seq::empty()
    } else {
        spec_escape(s.drop_last()) + spec_escape_char(s.last())
    }
}

pub fn escape_applescript_string(s: &str) -> (r: String)
    ensures
        r@ == spec_escape(s@),
{
    let cs = chars_of(s);
    let mut out: Vec<char> = Vec::new();
    let mut i: usize = 0;
    while i < cs.len()
        invariant
            cs@ == s@,
            i <= cs@.len(),
            out@ == spec_escape(s@.take(i as int)),
        decreases cs@.len() - i,
    {
        let c = cs[i];
        if c == '\\' || c == '"' {
            out.push('\\');
            out.push(c);
        } else {
            out.push(c);
        }
        proof {
            assert(s@.take(i + 1).drop_last() =~= s@.take(i as int));
            assert(s@.take(i + 1).last() == s@[i as int]);
            assert(out@ =~= spec_escape(s@.take(i + 1)));
        }
        i = i + 1;
    }
    proof {
        assert(s@.take(s@.len() as int) =~= s@);
    }
    string_of_chars(&out)
}

/// The AppleScript expression that installs a macOS package with an
/// interactive elevation prompt; the surrounding program hands it to
/// the script runner.
pub fn install_macos_pkg_with_admin(pkg_path: &str) -> (r: String)
    ensures
        r@ == "do shell script \"installer -pkg \\\""@ + spec_escape(pkg_path@)
            + "\\\" -target /\" with administrator privileges"@,
{
    let escaped = escape_applescript_string(pkg_path);
    concat3(
        "do shell script \"installer -pkg \\\"",
        escaped.as_str(),
        "\\\" -target /\" with administrator privileges",
    )
}

} // verus!
