//! Authorizers that always say the same.
use vstd::prelude::*;

use crate::error::{failure, fault, fault_of, CentralErrorCode, CentralResult, Fault};
use crate::model::AuthorizationRequest;

verus! {

#[derive(Debug, Default)]
pub struct AllowAllAuthorizer;

impl AllowAllAuthorizer {
    pub fn authorize(&self, _request: &AuthorizationRequest) -> (result: CentralResult<()>)
        ensures
            fault_of(result) == None::<Fault>,
    {
        Ok(())
    }
}

#[derive(Debug, Default)]
pub struct DenyAllAuthorizer;

impl DenyAllAuthorizer {
    pub fn authorize(&self, _request: &AuthorizationRequest) -> (result: CentralResult<()>)
        ensures
            fault_of(result) == Some(
                fault(
                    CentralErrorCode::Unauthorized,
                    "the actor is not authorized for this managed Add operation"@,
                ),
            ),
    {
        Err(
            failure(
                CentralErrorCode::Unauthorized,
                "the actor is not authorized for this managed Add operation",
            ),
        )
    }
}

} // verus!
