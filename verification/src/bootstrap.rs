//! Remote-helper bootstrap: making sure the helper executable is on the
//! device before any remote metadata query runs.
//!
//! The device's built-in inspection tooling is insufficient, so a helper
//! binary must sit at a fixed remote path with executable permission.
//! Presence is derived anew on every call from a live directory listing;
//! nothing is cached. A call is idempotent: when the listing already
//! shows the helper, the plan holds no command at all. The two-step
//! sequence is not transactional: if the transfer lands but the
//! permission step fails, a later listing shows the file and the plan
//! skips both steps, so the permission is never retried — the caller who
//! needs a stronger guarantee must check executability separately.

use crate::error::AppError;
use crate::text::{lines_spec, split_lines, str_eq, trim_spec, trim_str, views_of};
use vstd::prelude::*;
use vstd::string::*;

verus! {

/// Whether the remote directory listing shows the helper: some listed
/// entry, trimmed, equals the helper's file name exactly.
pub open spec fn helper_listed(ls_output: Seq<char>, helper_name: Seq<char>) -> bool {
    exists|i: int|
        0 <= i < lines_spec(ls_output).len() && trim_spec(lines_spec(ls_output)[i])
            == helper_name
}

/// Checks a raw remote directory listing for the helper, as
/// [`helper_listed`] describes.
pub fn check_aapt_arm_pie_exists(ls_output: &str, helper_name: &str) -> (r: bool)
    ensures
        r == helper_listed(ls_output@, helper_name@),
{
    let lines = split_lines(ls_output);
    let mut i: usize = 0;
    while i < lines.len()
        invariant
            i <= lines@.len(),
            views_of(lines@) == lines_spec(ls_output@),
            forall|j: int|
                0 <= j < i ==> trim_spec(lines_spec(ls_output@)[j]) != helper_name@,
        decreases lines@.len() - i,
    {
        proof {
            assert(views_of(lines@)[i as int] == lines@[i as int]@);
        }
        let entry = trim_str(lines[i].as_str());
        if str_eq(entry.as_str(), helper_name) {
            proof {
                assert(trim_spec(lines_spec(ls_output@)[i as int]) == helper_name@);
            }
            return true;
        }
        i += 1;
    }
    false
}

/// One remote command of the bootstrap sequence.
#[derive(Debug, Clone, Copy, PartialEq, Eq, Structural)]
pub enum RemoteCommand {
    /// Transfer the helper binary to the remote path.
    Transfer,
    /// Set the executable permission on the remote path.
    SetPermission,
}

/// The commands one bootstrap call issues for a given listing: none when
/// the helper is already present, else a transfer followed by a
/// permission change.
pub open spec fn bootstrap_plan_spec(ls_output: Seq<char>, helper_name: Seq<char>) -> Seq<
    RemoteCommand,
> {
    if helper_listed(ls_output, helper_name) {
        Seq::empty()
    } else {
        seq![RemoteCommand::Transfer, RemoteCommand::SetPermission]
    }
}

/// Plans one bootstrap call from a live directory listing, as
/// [`bootstrap_plan_spec`] describes.
pub fn plan_bootstrap(ls_output: &str, helper_name: &str) -> (plan: Vec<RemoteCommand>)
    ensures
        plan@ == bootstrap_plan_spec(ls_output@, helper_name@),
{
    if check_aapt_arm_pie_exists(ls_output, helper_name) {
        let v: Vec<RemoteCommand> = Vec::new();
        proof {
            assert(v@ =~= Seq::<RemoteCommand>::empty());
        }
        v
    } else {
        let mut v: Vec<RemoteCommand> = Vec::new();
        v.push(RemoteCommand::Transfer);
        v.push(RemoteCommand::SetPermission);
        proof {
            assert(v@ =~= seq![RemoteCommand::Transfer, RemoteCommand::SetPermission]);
        }
        v
    }
}

/// Maps the exit of the transfer command: a failed transfer is fatal for
/// the current operation.
pub fn transfer_result(push_ok: bool) -> (r: Result<(), AppError>)
    ensures
        push_ok <==> r is Ok,
        !push_ok ==> (r matches Err(AppError::InstallError(m)) && m@
            == "Failed to push aapt-arm-pie to the device."@),
{
    if push_ok {
        Ok(())
    } else {
        Err(AppError::InstallError("Failed to push aapt-arm-pie to the device.".to_owned()))
    }
}

/// Maps the exit of the permission command: a failed permission change
/// is fatal for the current operation.
pub fn permission_result(chmod_ok: bool) -> (r: Result<(), AppError>)
    ensures
        chmod_ok <==> r is Ok,
        !chmod_ok ==> (r matches Err(AppError::OtherError(m)) && m@
            == "Failed to set permissions for aapt-arm-pie on the device."@),
{
    if chmod_ok {
        Ok(())
    } else {
        Err(
            AppError::OtherError(
                "Failed to set permissions for aapt-arm-pie on the device.".to_owned(),
            ),
        )
    }
}

/// Law (idempotence at the call level): when the listing already shows
/// the helper, a bootstrap call issues zero transfer and zero
/// permission-set commands.
pub proof fn lemma_bootstrap_idempotent(ls_output: Seq<char>, helper_name: Seq<char>)
    requires
        helper_listed(ls_output, helper_name),
    ensures
        bootstrap_plan_spec(ls_output, helper_name) == Seq::<RemoteCommand>::empty(),
{
}

} // verus!
