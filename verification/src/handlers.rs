//! The request handlers of the service.
use vstd::prelude::*;

pub use crate::auth::authorize;
pub use crate::users::populate::populate;
pub use crate::users::scans::{get_scans, scan_badge};
pub use crate::users::attendee::seed as seed_attendees;
pub use crate::users::exhibitor::seed as seed_exhibitors;

use crate::errors::Result;

verus! {

/// Answers a health check: the service is up.
pub fn health_check() -> (r: Result<()>)
    ensures
        r is Ok,
{
    Ok(())
}

} // verus!
