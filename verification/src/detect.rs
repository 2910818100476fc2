//! Consolidation of probe results into one environment snapshot. Version
//! queries are command invocations the surrounding program performs; this
//! module decides which outputs count as a well-formed version, which
//! probe wins, and how the snapshot's derived fields are computed.

use vstd::prelude::*;

use crate::model::EnvironmentStatus;
use crate::spec_ready;
use crate::strutil::chars_of;
use crate::strutil::spec_trim;
use crate::strutil::string_of_chars;
use crate::strutil::trim_chars;
use crate::version::check_node_version_requirement;
use crate::version::spec_version_compliant;

verus! {

/// Command output that has the expected version shape: non-empty after
/// trimming and carrying the leading version marker.
pub open spec fn spec_version_shaped(out: Seq<char>) -> bool {
    spec_trim(out).len() > 0 && spec_trim(out)[0] == 'v'
}

/// The version a probe outcome yields: the trimmed output when the probe
/// ran and its output is version-shaped, nothing otherwise.
pub open spec fn spec_accept_version(out: Option<Seq<char>>) -> Option<Seq<char>> {
    match out {
        Option::Some(o) => if spec_version_shaped(o) {
            Option::Some(spec_trim(o))
        } else {
            Option::None
        },
        Option::None => Option::None,
    }
}

/// The first probe outcome that yields a version, in order.
pub open spec fn spec_first_accepted(outs: Seq<Option<Seq<char>>>) -> Option<Seq<char>>
    decreases outs.len(),
{
    if outs.len() == 0 {
        Option::None
    } else if spec_accept_version(outs[0]) is Some {
        spec_accept_version(outs[0])
    } else {
        spec_first_accepted(outs.drop_first())
    }
}

/// The interpreter version a full detection pass reports: the direct
/// invocation wins, then the first accepted candidate-path probe, then
/// the shell-startup fallback.
pub open spec fn spec_node_version(
    direct: Option<Seq<char>>,
    probed: Seq<Option<Seq<char>>>,
    shell_fallback: Option<Seq<char>>,
) -> Option<Seq<char>> {
    if spec_accept_version(direct) is Some {
        spec_accept_version(direct)
    } else if spec_first_accepted(probed) is Some {
        spec_first_accepted(probed)
    } else {
        spec_accept_version(shell_fallback)
    }
}

/// Accepts a probe's captured output when it is version-shaped, handing
/// back the trimmed version.
pub fn accept_version_output(out: &Option<String>) -> (r: Option<String>)
    ensures
        r.deep_view() == spec_accept_version(out.deep_view()),
{
    match out {
        Option::Some(o) => {
            let t = trim_chars(&chars_of(o.as_str()));
            if t.len() > 0 && t[0] == 'v' {
                Some(string_of_chars(&t))
            } else {
                None
            }
        },
        Option::None => None,
    }
}

/// Picks the interpreter version out of the probe outputs of one
/// detection pass: `direct` from invoking the bare command, `probed`
/// from invoking each candidate path in order, `shell_fallback` from a
/// final invocation after sourcing the interactive shell startup files.
pub fn get_node_version(
    direct: &Option<String>,
    probed: &Vec<Option<String>>,
    shell_fallback: &Option<String>,
) -> (r: Option<String>)
    ensures
        r.deep_view() == spec_node_version(
            direct.deep_view(),
            probed.deep_view(),
            shell_fallback.deep_view(),
        ),
{
    let d = accept_version_output(direct);
    if d.is_some() {
        return d;
    }
    let ghost pv = probed.deep_view();
    proof {
        assert(pv.skip(0) =~= pv);
    }
    let mut i: usize = 0;
    while i < probed.len()
        invariant
            pv == probed.deep_view(),
            probed@.len() == pv.len(),
            i <= pv.len(),
            spec_first_accepted(pv) == spec_first_accepted(pv.skip(i as int)),
            spec_accept_version(direct.deep_view()) is None,
        decreases pv.len() - i,
    {
        let a = accept_version_output(&probed[i]);
        proof {
            assert(pv.skip(i as int)[0] == pv[i as int]);
            assert(pv[i as int] == probed@[i as int].deep_view());
            assert(pv.skip(i as int).drop_first() =~= pv.skip(i + 1));
        }
        if a.is_some() {
            return a;
        }
        i = i + 1;
    }
    proof {
        assert(pv.skip(i as int).len() == 0);
    }
    accept_version_output(shell_fallback)
}

/// The application version: the captured output of its version command,
/// trimmed; nothing when the command could not run.
pub fn get_openclaw_version(raw: &Option<String>) -> (r: Option<String>)
    ensures
        match raw {
            Option::Some(o) => r.deep_view() == Option::Some(spec_trim(o@)),
            Option::None => r is None,
        },
{
    match raw {
        Option::Some(o) => {
            let t = trim_chars(&chars_of(o.as_str()));
            Some(string_of_chars(&t))
        },
        Option::None => None,
    }
}

/// Assembles the environment snapshot from this pass's detected
/// versions and configuration-directory probe. Every derived field is
/// pinned: presence mirrors the version options, compliance follows the
/// minimum-major rule, and readiness is their three-way conjunction.
pub fn check_environment(
    node_version: Option<String>,
    openclaw_version: Option<String>,
    config_dir_exists: bool,
    os: String,
) -> (r: EnvironmentStatus)
    ensures
        r.node_version == node_version,
        r.openclaw_version == openclaw_version,
        r.config_dir_exists == config_dir_exists,
        r.os == os,
        r.node_installed == (node_version is Some),
        r.node_version_ok == spec_version_compliant(node_version.deep_view()),
        r.openclaw_installed == (openclaw_version is Some),
        r.ready == spec_ready(r.node_installed, r.node_version_ok, r.openclaw_installed),
        r.wf(),
{
    let node_installed = node_version.is_some();
    let node_version_ok = check_node_version_requirement(&node_version);
    let openclaw_installed = openclaw_version.is_some();
    let ready = node_installed && node_version_ok && openclaw_installed;
    EnvironmentStatus {
        node_installed,
        node_version,
        node_version_ok,
        openclaw_installed,
        openclaw_version,
        config_dir_exists,
        ready,
        os,
    }
}

} // verus!
