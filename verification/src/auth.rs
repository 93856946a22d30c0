//! Login response assembly. The credential lookup itself is an outside
//! collaborator: it hands back the role of the user the credentials
//! matched, if any, and the engine only shapes the answer.

use vstd::prelude::*;
use crate::model::{AuthError, AuthResponse};

verus! {

/// Builds the login result from a credential lookup's outcome. A matched
/// role yields a successful response carrying that role and the caller's
/// username; no match is refused as invalid credentials.
pub fn login_response(role: Option<String>, username: String) -> (r: Result<
    AuthResponse,
    AuthError,
>)
    ensures
        match role {
            Some(ro) => r == Ok::<AuthResponse, AuthError>(
                AuthResponse { success: true, role: ro, username },
            ),
            None => r == Err::<AuthResponse, AuthError>(AuthError::InvalidCredentials),
        },
{
    match role {
        Some(ro) => Ok(AuthResponse { success: true, role: ro, username }),
        None => Err(AuthError::InvalidCredentials),
    }
}

} // verus!
