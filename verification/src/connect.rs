//! Device connectivity: resolving the configured host address and
//! reading the bridge's device listing.
//!
//! The host address arrives as an explicit value read from the settings
//! store by the caller; no ambient global state is consulted here.

use crate::error::AppError;
use crate::text::{contains_str, contains_sub, strip_quotes_spec, strip_quotes_str, trim_spec, trim_str};
use vstd::prelude::*;
use vstd::string::*;

verus! {

/// The marker the bridge's device listing shows for a connected host:
/// the address followed by a tab and the word `device`.
pub open spec fn device_marker(host: Seq<char>) -> Seq<char> {
    host + "\tdevice"@
}

/// Whether the device listing reports the host as connected, as
/// [`device_marker`] describes.
pub fn check_if_connected_to_host(devices_output: &str, host_address: &str) -> (r: bool)
    ensures
        r == contains_sub(devices_output@, device_marker(host_address@)),
{
    let needle = host_address.to_owned().concat("\tdevice");
    contains_str(devices_output, needle.as_str())
}

/// The host address as used for bridge commands: the stored value with
/// surrounding double quotes and surrounding whitespace removed.
pub open spec fn normalized_host(raw: Seq<char>) -> Seq<char> {
    trim_spec(strip_quotes_spec(raw))
}

/// Resolves the host address from the stored settings entry. A missing
/// entry is a failure; a present one is normalized, as
/// [`normalized_host`] describes.
pub fn resolve_host_address(stored: Option<&str>) -> (r: Result<String, AppError>)
    ensures
        match stored {
            Some(s) => r matches Ok(h) && h@ == normalized_host(s@),
            None => r matches Err(AppError::OtherError(m)) && m@ == "Host Address not found"@,
        },
{
    match stored {
        Some(s) => {
            let unquoted = strip_quotes_str(s);
            Ok(trim_str(unquoted.as_str()))
        },
        None => Err(AppError::OtherError("Host Address not found".to_owned())),
    }
}

/// Maps the exit of the bridge's connect command: a zero exit returns
/// the tool's raw output, a non-zero exit wraps the tool's error text in
/// a transport error.
pub fn connect_result(exit_ok: bool, stdout: String, stderr: String) -> (r: Result<
    String,
    AppError,
>)
    ensures
        exit_ok ==> r == Ok::<String, AppError>(stdout),
        !exit_ok ==> r == Err::<String, AppError>(AppError::TransportError(stderr)),
{
    if exit_ok {
        Ok(stdout)
    } else {
        Err(AppError::TransportError(stderr))
    }
}

} // verus!
