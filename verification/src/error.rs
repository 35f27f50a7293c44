//! The failure taxonomy every operation of the library reports.

use vstd::prelude::*;
use vstd::string::*;

verus! {

/// Every failure the library can report to its caller. No operation
/// panics: each resolves to a success payload or to one of these kinds.
#[derive(Debug, PartialEq, Eq)]
pub enum AppError {
    /// The local badging dump yielded no package name.
    PackageNameNotFound,
    /// Installation could not proceed: a missing candidate version, a
    /// failed helper transfer, or a non-zero exit from the bridge's
    /// install subcommand. Carries the tool's detail text.
    InstallError(String),
    /// The bridge could not be reached: a process failed to spawn or
    /// device connectivity failed. Carries the tool's error text.
    TransportError(String),
    /// Any other wrapped failure, such as a missing host-address entry
    /// or a failed permission change on the remote helper.
    OtherError(String),
}

impl AppError {
    /// The display text of the error.
    pub open spec fn message_spec(&self) -> Seq<char> {
        match self {
            AppError::PackageNameNotFound => "Package name not found"@,
            AppError::InstallError(d) => "Failed to install application: "@ + d@,
            AppError::TransportError(d) => d@,
            AppError::OtherError(d) => d@,
        }
    }

    /// Renders the error as its display text.
    pub fn message(&self) -> (r: String)
        ensures
            r@ == self.message_spec(),
    {
        match self {
            AppError::PackageNameNotFound => "Package name not found".to_owned(),
            AppError::InstallError(d) => {
                let mut m = "Failed to install application: ".to_owned();
                m.append(d.as_str());
                m
            },
            AppError::TransportError(d) => d.clone(),
            AppError::OtherError(d) => d.clone(),
        }
    }
}

} // verus!
