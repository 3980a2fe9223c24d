use vstd::prelude::*;

use crate::auth::Claims;
use crate::errors::Error;
use crate::store::Step;
use crate::users::records::SeedKind;
pub use crate::users::seeding::Response;
use crate::users::seeding::SeedFlow;
use crate::users::Role;

verus! {

/// The profile of an exhibitor: the company it represents.
#[derive(Clone, Debug)]
pub struct Exhibitor {
    pub user_id: u128,
    pub company: String,
}

impl Exhibitor {
    pub fn new(user_id: u128, company: String) -> (exhibitor: Exhibitor)
        ensures
            exhibitor.user_id == user_id,
            exhibitor.company == company,
    {
        Exhibitor { user_id, company }
    }
}

/// Starts seeding exhibitors from an upload on behalf of the user the claims name. An exhibitor whose company is already represented joins its user: the badge and token go to that user.
/// Only admins may seed; the body is read next.
pub fn seed(claims: &Claims) -> (r: (SeedFlow, Step<Response>))
    ensures
        r.0.well_formed(),
        r.0.kind() == SeedKind::Exhibitors,
        r.0.users().len() == 0,
        claims.role != Role::Admin ==> r.0.stage() is Closed && r.1 == Step::<Response>::Finish(
            Err(Error::Unauthorized),
        ),
        claims.role == Role::Admin ==> r.0.stage() is Reading,
        claims.role == Role::Admin ==> (r.1 matches Step::Run(q) && r.0.waits_on(q)),
{
    SeedFlow::start(SeedKind::Exhibitors, claims.role)
}

} // verus!
