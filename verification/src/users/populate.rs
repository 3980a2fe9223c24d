use vstd::prelude::*;

use crate::auth::Claims;
use crate::errors::Error;
use crate::store::Step;
use crate::users::records::SeedKind;
pub use crate::users::seeding::Response;
use crate::users::seeding::SeedFlow;
use crate::users::Role;

verus! {

/// Starts populating the database from an upload on behalf of the user the
/// claims name: each row names the role of the user it creates, and
/// attendees and exhibitors get their profiles. Only admins may populate;
/// the body is read next.
pub fn populate(claims: &Claims) -> (r: (SeedFlow, Step<Response>))
    ensures
        r.0.well_formed(),
        r.0.kind() == SeedKind::Population,
        r.0.users().len() == 0,
        claims.role != Role::Admin ==> r.0.stage() is Closed && r.1 == Step::<Response>::Finish(
            Err(Error::Unauthorized),
        ),
        claims.role == Role::Admin ==> r.0.stage() is Reading,
        claims.role == Role::Admin ==> (r.1 matches Step::Run(q) && r.0.waits_on(q)),
{
    SeedFlow::start(SeedKind::Population, claims.role)
}

} // verus!
