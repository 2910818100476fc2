//! Update detection for the installed application: the installed version
//! against the latest version the package registry publishes, compared
//! with the dotted-version order. When either version cannot be
//! obtained, the check reports "no update" with an explicit error
//! rather than guessing.

use vstd::prelude::*;

use crate::model::InstallResult;
use crate::model::UpdateInfo;
use crate::strutil::chars_of;
use crate::strutil::concat2;
use crate::strutil::spec_trim;
use crate::strutil::string_of_chars;
use crate::strutil::trim_chars;
use crate::version::compare_versions;
use crate::version::spec_version_newer;

verus! {

/// The latest published version, read off the registry query's captured
/// output: the output trimmed, or nothing when the query failed or
/// printed nothing.
pub fn get_latest_openclaw_version(raw: &Result<String, String>) -> (r: Option<String>)
    ensures
        match raw {
            Result::Ok(v) => if spec_trim(v@).len() > 0 {
                r.deep_view() == Option::Some(spec_trim(v@))
            } else {
                r is None
            },
            Result::Err(_) => r is None,
        },
{
    match raw {
        Result::Ok(v) => {
            let t = trim_chars(&chars_of(v.as_str()));
            if t.len() > 0 {
                Some(string_of_chars(&t))
            } else {
                None
            }
        },
        Result::Err(_) => None,
    }
}

/// Compares the installed version against the registry's latest. An
/// update is available exactly when both versions are present and the
/// latest is strictly newer; a missing version forces "no update" with
/// the reason in the error field.
pub fn check_openclaw_update(current: &Option<String>, latest: &Option<String>) -> (r: UpdateInfo)
    ensures
        match (current, latest) {
            (Option::None, _) => !r.update_available && r.current_version is None
                && r.latest_version is None && match r.error {
                Option::Some(e) => e@ == "The application is not installed"@,
                Option::None => false,
            },
            (Option::Some(_), Option::None) => !r.update_available && r.current_version
                == *current && r.latest_version is None && match r.error {
                Option::Some(e) => e@ == "Could not determine the latest version"@,
                Option::None => false,
            },
            (Option::Some(c), Option::Some(l)) => r.update_available == spec_version_newer(
                c@,
                l@,
            ) && r.current_version == *current && r.latest_version == *latest
                && r.error is None,
        },
        r.wf(),
{
    match current {
        Option::None => UpdateInfo {
            update_available: false,
            current_version: None,
            latest_version: None,
            error: Some(String::from_str("The application is not installed")),
        },
        Option::Some(c) => match latest {
            Option::None => UpdateInfo {
                update_available: false,
                current_version: Some(c.clone()),
                latest_version: None,
                error: Some(String::from_str("Could not determine the latest version")),
            },
            Option::Some(l) => {
                let update_available = compare_versions(c.as_str(), l.as_str());
                UpdateInfo {
                    update_available,
                    current_version: Some(c.clone()),
                    latest_version: Some(l.clone()),
                    error: None,
                }
            },
        },
    }
}

/// Outcome of an update command: success reports the version now
/// installed (or a generic phrase when none could be read back);
/// failure hands the command's error through.
pub fn update_result(command: &Result<String, String>, new_version: &Option<String>) -> (r:
    InstallResult)
    ensures
        r.success == command is Ok,
        command is Ok ==> r.error is None && match new_version {
            Option::Some(v) => r.message@ == "The application was updated to "@ + v@,
            Option::None => r.message@ == "The application was updated to the latest version"@,
        },
        match command {
            Result::Err(e) => r.message@ == "Update failed"@ && match r.error {
                Option::Some(re) => re@ == e@,
                Option::None => false,
            },
            Result::Ok(_) => true,
        },
        r.wf(),
{
    match command {
        Result::Ok(_) => {
            let message = match new_version {
                Option::Some(v) => concat2("The application was updated to ", v.as_str()),
                Option::None => String::from_str("The application was updated to the latest version"),
            };
            InstallResult { success: true, message, error: None }
        },
        Result::Err(e) => InstallResult {
            success: false,
            message: String::from_str("Update failed"),
            error: Some(String::from_str(e.as_str())),
        },
    }
}

} // verus!
