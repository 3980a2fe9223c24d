use vstd::prelude::*;

use crate::auth::Claims;
use crate::errors::Error;
use crate::store::Step;
use crate::users::records::SeedKind;
pub use crate::users::seeding::Response;
use crate::users::seeding::SeedFlow;
use crate::users::Role;

verus! {

/// The profile of an attendee.
#[derive(Clone, Debug)]
pub struct Attendee {
    pub user_id: u128,
    pub linkedin: Option<String>,
    pub study: Option<String>,
    pub degree: Option<String>,
    pub institution: Option<String>,
    pub graduation_year: Option<String>,
}

impl Attendee {
    pub fn new(
        user_id: u128,
        linkedin: Option<String>,
        study: Option<String>,
        degree: Option<String>,
        institution: Option<String>,
        graduation_year: Option<String>,
    ) -> (attendee: Attendee)
        ensures
            attendee.user_id == user_id,
            attendee.linkedin == linkedin,
            attendee.study == study,
            attendee.degree == degree,
            attendee.institution == institution,
            attendee.graduation_year == graduation_year,
    {
        Attendee { user_id, linkedin, study, degree, institution, graduation_year }
    }
}

/// Starts seeding attendees from an upload on behalf of the user the claims name.
/// Only admins may seed; the body is read next.
pub fn seed(claims: &Claims) -> (r: (SeedFlow, Step<Response>))
    ensures
        r.0.well_formed(),
        r.0.kind() == SeedKind::Attendees,
        r.0.users().len() == 0,
        claims.role != Role::Admin ==> r.0.stage() is Closed && r.1 == Step::<Response>::Finish(
            Err(Error::Unauthorized),
        ),
        claims.role == Role::Admin ==> r.0.stage() is Reading,
        claims.role == Role::Admin ==> (r.1 matches Step::Run(q) && r.0.waits_on(q)),
{
    SeedFlow::start(SeedKind::Attendees, claims.role)
}

} // verus!
