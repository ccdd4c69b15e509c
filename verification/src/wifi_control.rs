//! Wireless-credential checks.
//!
//! Network association itself (driver bring-up, scanning, DHCP) is a
//! single-shot operation of the network stack and stays outside the crate;
//! the rule it applies first — both credentials must be non-empty — is the
//! part that computes, and stands here.

use vstd::prelude::*;

verus! {

/// Why a credential pair was rejected.
#[derive(Clone, Copy, PartialEq, Eq, Structural, Debug)]
pub enum CredentialsError {
    /// The network name is empty.
    MissingSsid,
    /// The network name is present but the password is empty.
    MissingPassword,
}

/// Accepts a credential pair exactly when both the network name and the
/// password are non-empty; an empty name is reported before an empty
/// password.
pub fn check_credentials_not_empty(ssid: &'static str, pwd: &'static str) -> (r: Result<
    (),
    CredentialsError,
>)
    ensures
        r is Ok <==> ssid@.len() > 0 && pwd@.len() > 0,
        r == Result::<(), CredentialsError>::Err(CredentialsError::MissingSsid) <==> ssid@.len()
            == 0,
        r == Result::<(), CredentialsError>::Err(CredentialsError::MissingPassword) <==> (
        ssid@.len() > 0 && pwd@.len() == 0),
{
    if ssid.is_empty() {
        return Err(CredentialsError::MissingSsid);
    }
    if pwd.is_empty() {
        return Err(CredentialsError::MissingPassword);
    }
    Ok(())
}

} // verus!
