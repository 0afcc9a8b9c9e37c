use vstd::prelude::*;
use crate::error::{Error, ErrorView};
use crate::helpers::result_view;
use crate::http::{VaultResponse, VaultResponseView};
use crate::status::{protocol_error, protocol_failure};

verus! {

/// What the response to a step-down request says: the member has given up leadership
/// where the status is 204, and any other status is a protocol error with the body.
pub open spec fn step_down_result(response: VaultResponseView) -> Result<(), ErrorView> {
    if response.status == 204 {
        Ok(())
    } else {
        Err(protocol_error("stepping-down"@, response.body))
    }
}

/// Reads the response to a step-down request. Only the status 204 is a success.
pub fn step_down(response: &VaultResponse) -> (result: Result<(), Error>)
    ensures
        result_view(result) == step_down_result(response@),
        result is Ok <==> response.status == 204,
{
    if response.status == 204 {
        Ok(())
    } else {
        Err(protocol_failure("stepping-down", response.body.as_str()))
    }
}

} // verus!
