//! The single-APK install flow: resolve the candidate, reconcile against
//! the device, then skip or install.
//!
//! The flow is linear. The badging dump of the local APK yields the
//! package name and the candidate version; reconciliation decides whether
//! the device already holds that version; only then does the bridge's
//! install subcommand run. Every step here is a pure decision over the
//! raw tool outputs the caller fetched; the caller performs the commands
//! in between and propagates any failure undiminished.

use crate::error::AppError;
use crate::parser::{find_package_name, get_apk_package_version, parsed_fields};
use vstd::prelude::*;
use vstd::string::*;

verus! {

/// The name and candidate version a local APK's badging dump resolves to.
#[derive(Debug, PartialEq, Eq)]
pub struct CandidatePackage {
    pub name: String,
    pub version: String,
}

/// Resolves the candidate package from the badging dump.
///
/// A dump that yields no name fails with [`AppError::PackageNameNotFound`];
/// one that yields a name but no version fails with an install error; any
/// other dump resolves to its name and version.
pub fn resolve_candidate(badging: &str) -> (r: Result<CandidatePackage, AppError>)
    ensures
        parsed_fields(badging@).name.len() == 0 ==> r == Err::<CandidatePackage, AppError>(
            AppError::PackageNameNotFound,
        ),
        parsed_fields(badging@).name.len() > 0 && parsed_fields(badging@).version_name.len()
            == 0 ==> (r matches Err(AppError::InstallError(m)) && m@
            == "Package Version not found"@),
        parsed_fields(badging@).name.len() > 0 && parsed_fields(badging@).version_name.len()
            > 0 ==> (r matches Ok(c) && c.name@ == parsed_fields(badging@).name && c.version@
            == parsed_fields(badging@).version_name),
{
    let name = match find_package_name(badging) {
        Some(n) => n,
        None => {
            return Err(AppError::PackageNameNotFound);
        },
    };
    let version = match get_apk_package_version(badging) {
        Some(v) => v,
        None => {
            return Err(AppError::InstallError("Package Version not found".to_owned()));
        },
    };
    Ok(CandidatePackage { name, version })
}

/// The success message reported when the install is skipped because the
/// device already holds the candidate version.
pub open spec fn already_installed_message_spec(name: Seq<char>, version: Seq<char>) -> Seq<
    char,
> {
    "Package already installed: "@ + name + " version: "@ + version
}

/// Builds the skip message, as [`already_installed_message_spec`]
/// describes: it names both the package and the version.
pub fn already_installed_message(name: &str, version: &str) -> (m: String)
    ensures
        m@ == already_installed_message_spec(name@, version@),
{
    let mut m = "Package already installed: ".to_owned();
    m.append(name);
    m.append(" version: ");
    m.append(version);
    proof {
        assert(m@ =~= already_installed_message_spec(name@, version@));
    }
    m
}

/// What the flow does once reconciliation has spoken.
#[derive(Debug, PartialEq, Eq)]
pub enum InstallDecision {
    /// The device already holds the candidate version: no install runs,
    /// and the carried message is the operation's success payload.
    SkipAlreadyInstalled(String),
    /// The bridge's install subcommand must run with the APK's path.
    ProceedWithInstall,
}

/// Turns the reconciliation verdict into the flow's next step. Skipping
/// is a success, not an error.
pub fn install_decision(already_satisfied: bool, name: &str, version: &str) -> (d:
    InstallDecision)
    ensures
        already_satisfied ==> (d matches InstallDecision::SkipAlreadyInstalled(m) && m@
            == already_installed_message_spec(name@, version@)),
        !already_satisfied ==> d == InstallDecision::ProceedWithInstall,
{
    if already_satisfied {
        InstallDecision::SkipAlreadyInstalled(already_installed_message(name, version))
    } else {
        InstallDecision::ProceedWithInstall
    }
}

/// Maps the exit of the bridge's install subcommand: a zero exit returns
/// the tool's raw output as the success payload, a non-zero exit wraps
/// the tool's error text in an install error.
pub fn install_result(exit_ok: bool, stdout: String, stderr: String) -> (r: Result<
    String,
    AppError,
>)
    ensures
        exit_ok ==> r == Ok::<String, AppError>(stdout),
        !exit_ok ==> r == Err::<String, AppError>(AppError::InstallError(stderr)),
{
    if exit_ok {
        Ok(stdout)
    } else {
        Err(AppError::InstallError(stderr))
    }
}

} // verus!
