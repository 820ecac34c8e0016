//! The health check of the service.

use crate::backend::routes::Status;
use vstd::prelude::*;

verus! {

/// The status with which the service reports that it is healthy.
pub fn get_health_status() -> (status: Status)
    ensures
        status == Status::NoContent,
{
    Status::NoContent
}

} // verus!
