//! Seeding users from an upload: the flow shared by the attendee, exhibitor
//! and population uploads.
//!
//! Only admins may seed. The body is read as CSV; then, record by record and
//! in order, each user is created in a transaction of its own: the user, its
//! attendee or exhibitor profile, its badge and its token, then the commit.
//! The answer lists the ids of the users created, in the order of the
//! records. A row that does not make a record answers the request with
//! `InvalidRequest` once the records before it are committed.
use vstd::prelude::*;

use crate::errors::Error;
use crate::ids::{new_user_id, uuid_version};
use crate::store::{Query, Reply, Step};
use crate::users::{Attendee, Role};
use crate::users::records::{
    csv_table, read_records, record_views, upload_prefix, RecordView, SeedKind, SeedRecord,
};

verus! {

/// The answer to an upload: the ids of the users created, in the order of
/// the rows.
#[derive(Clone, Debug)]
pub struct Response {
    pub users: Vec<u128>,
}

/// Where a seeding flow stands: the statement it waits on.
#[derive(Clone, Copy, Debug)]
pub enum SeedStage {
    /// Reading the body.
    Reading,
    /// Opening the transaction of the current record; `fresh` is the id the
    /// new attendee will get, a version-7 UUID made now.
    Opening { fresh: Option<u128> },
    /// Looking up the exhibitor of the record's company.
    FindingCompany,
    /// Inserting the user with this id.
    AddingUser { id: u128 },
    /// Inserting the user with the record's role.
    AddingRoleUser,
    /// Inserting the attendee or exhibitor profile of this user.
    AddingProfile { id: u128 },
    /// Giving the record's badge to this user.
    AddingBadge { id: u128 },
    /// Giving the record's token to this user.
    AddingToken { id: u128 },
    /// Committing the transaction that created this user.
    Committing { id: u128 },
    /// The request is answered.
    Closed,
}

/// A seeding in progress.
pub struct SeedFlow {
    kind: SeedKind,
    records: Vec<SeedRecord>,
    complete: bool,
    users: Vec<u128>,
    stage: SeedStage,
}

/// A copy of an optional text.
pub fn clone_text(text: &Option<String>) -> (copy: Option<String>)
    ensures
        copy == *text,
        copy.deep_view() == text.deep_view(),
{
    match text {
        Some(s) => Some(s.clone()),
        None => None,
    }
}

/// Whether an attendee profile is the one of a record, for the user `id`.
pub open spec fn profile_of(a: Attendee, id: u128, rec: RecordView) -> bool {
    &&& a.user_id == id
    &&& a.linkedin.deep_view() == rec.linkedin
    &&& a.study.deep_view() == rec.study
    &&& a.degree.deep_view() == rec.degree
    &&& a.institution.deep_view() == rec.institution
    &&& a.graduation_year.deep_view() == rec.graduation_year
}

/// The error that answers a request when this statement fails: a badge
/// that cannot be given is a duplicate badge, a token that cannot be given
/// a duplicate token, any other failure is internal.
pub open spec fn statement_error(q: Query) -> Error {
    match q {
        Query::InsertBadge { .. } => Error::DuplicateBadge,
        Query::InsertToken { .. } => Error::DuplicateToken,
        _ => Error::Internal,
    }
}

/// When the statement a seeding waits on fails, the upload is answered with
/// the error of that statement.
pub proof fn law_failed_statement_answers(flow: SeedFlow, reply: Reply, after: SeedFlow, step: Step<Response>, q: Query)
    requires
        flow.well_formed(),
        flow.waits_on(q),
        reply is Failed,
        flow.resumes(reply, after, step),
    ensures
        step == Step::<Response>::Finish(Err(statement_error(q))),
        after.stage() is Closed,
{
}

/// Each step of a seeding either runs a statement, which the flow then
/// waits on, or answers the upload and closes the flow.
pub proof fn law_seeding_steps(flow: SeedFlow, reply: Reply, after: SeedFlow, step: Step<Response>)
    requires
        flow.resumes(reply, after, step),
    ensures
        step matches Step::Run(q) ==> after.waits_on(q) && !(after.stage() is Closed),
        step is Finish ==> after.stage() is Closed,
{
}

/// An upload is answered with the users' ids only when every row made a
/// record and every record was committed, the ids in the order of the
/// records; it is answered with `InvalidRequest` only when a row made no
/// record, after every record before that row was committed.
pub proof fn law_upload_answers(flow: SeedFlow, reply: Reply, after: SeedFlow, step: Step<Response>)
    requires
        flow.well_formed(),
        flow.resumes(reply, after, step),
    ensures
        step matches Step::Finish(Ok(response)) ==> response.users@ == after.users()
            && response.users@.len() == after.records().len() && after.complete(),
        step == Step::<Response>::Finish(Err(Error::InvalidRequest)) ==> after.users().len()
            == after.records().len() && !after.complete(),
{
}

impl SeedFlow {
    /// The flow keeps count of the records it has committed, and each stage
    /// belongs to the kinds of upload that use it.
    pub closed spec fn well_formed(self) -> bool {
        &&& self.users.len() <= self.records.len()
        &&& match self.stage {
            SeedStage::Reading => self.users.len() == 0,
            SeedStage::Closed => true,
            SeedStage::Opening { fresh } => self.users.len() < self.records.len() && (fresh is Some
                <==> self.kind == SeedKind::Attendees) && (fresh matches Some(id) ==> uuid_version(id) == 7),
            SeedStage::FindingCompany => self.users.len() < self.records.len() && self.kind
                == SeedKind::Exhibitors,
            SeedStage::AddingUser { id } => self.users.len() < self.records.len() && self.kind
                != SeedKind::Population && uuid_version(id) == 7,
            SeedStage::AddingRoleUser => self.users.len() < self.records.len() && self.kind
                == SeedKind::Population,
            _ => self.users.len() < self.records.len(),
        }
    }

    /// Which upload is read.
    pub closed spec fn kind(self) -> SeedKind {
        self.kind
    }

    /// The records read from the upload.
    pub closed spec fn records(self) -> Seq<RecordView> {
        record_views(self.records@)
    }

    /// Whether every row of the upload made a record.
    pub closed spec fn complete(self) -> bool {
        self.complete
    }

    /// The ids of the users created so far, one per committed record.
    pub closed spec fn users(self) -> Seq<u128> {
        self.users@
    }

    /// The stage of the flow.
    pub closed spec fn stage(self) -> SeedStage {
        self.stage
    }

    /// The record being seeded.
    pub open spec fn current(self) -> RecordView {
        self.records()[self.users().len() as int]
    }

    /// The statement the flow has issued and waits on.
    pub open spec fn waits_on(self, q: Query) -> bool {
        let cur = self.current();
        match self.stage() {
            SeedStage::Reading => q is ReadBody,
            SeedStage::Opening { .. } => q is Begin,
            SeedStage::FindingCompany => q matches Query::FindCompany { company }
                && company.deep_view() == cur.company,
            SeedStage::AddingUser { id } => if self.kind() == SeedKind::Attendees {
                q matches Query::InsertAttendeeUser { id: i, name, mail } && i == id
                    && name.deep_view() == cur.name && mail.deep_view() == cur.mail
            } else {
                q matches Query::InsertExhibitorUser { id: i, name, mail } && i == id
                    && name.deep_view() == cur.name && mail.deep_view() == cur.mail
            },
            SeedStage::AddingRoleUser => q matches Query::InsertRoleUser { role } && role == cur.role,
            SeedStage::AddingProfile { id } => if self.kind() == SeedKind::Attendees {
                q matches Query::InsertAttendee { attendee } && profile_of(attendee, id, cur)
            } else if self.kind() == SeedKind::Population && cur.role == Role::Attendee {
                q matches Query::InsertAttendeeContact { attendee, name, mail } && profile_of(
                    attendee,
                    id,
                    cur,
                ) && name.deep_view() == cur.name && mail.deep_view() == cur.mail
            } else {
                q matches Query::InsertExhibitor { user, company } && user == id
                    && company.deep_view() == cur.company
            },
            SeedStage::AddingBadge { id } => q matches Query::InsertBadge { user, badge } && user
                == id && badge == cur.badge,
            SeedStage::AddingToken { id } => q matches Query::InsertToken { user, token } && user
                == id && token@ == cur.token,
            SeedStage::Committing { .. } => q is Commit,
            SeedStage::Closed => false,
        }
    }

    /// Whether a reply tells that the awaited statement succeeded.
    pub open spec fn accepts(self, reply: Reply) -> bool {
        match self.stage() {
            SeedStage::Reading => reply is Body,
            SeedStage::FindingCompany => reply is Id,
            SeedStage::AddingRoleUser => reply matches Reply::Id(Some(_)),
            SeedStage::Closed => false,
            _ => reply is Done,
        }
    }

    /// The error that answers the request when the awaited statement fails.
    pub open spec fn failure(self) -> Error {
        match self.stage() {
            SeedStage::AddingBadge { .. } => Error::DuplicateBadge,
            SeedStage::AddingToken { .. } => Error::DuplicateToken,
            _ => Error::Internal,
        }
    }

    /// After a record is committed (or the body read): the next record is
    /// opened, or, when none is left, the request is answered with the ids
    /// of the users created, unless a row made no record.
    pub open spec fn moves_on(self, step: Step<Response>) -> bool {
        if self.users().len() < self.records().len() {
            &&& self.stage() matches SeedStage::Opening { fresh } && (fresh is Some <==> self.kind()
                == SeedKind::Attendees) && (fresh matches Some(id) ==> uuid_version(id) == 7)
            &&& step matches Step::Run(q) && self.waits_on(q)
        } else {
            &&& self.stage() is Closed
            &&& if self.complete() {
                step matches Step::Finish(Ok(response)) && response.users@ == self.users()
            } else {
                step == Step::<Response>::Finish(Err(Error::InvalidRequest))
            }
        }
    }

    /// The stage that follows a successful statement, when it is not the last
    /// of a record.
    pub open spec fn follows(self, reply: Reply, next: SeedStage) -> bool {
        match self.stage() {
            SeedStage::Opening { fresh } => match self.kind() {
                SeedKind::Attendees => next == SeedStage::AddingUser { id: fresh.unwrap() },
                SeedKind::Exhibitors => next == SeedStage::FindingCompany,
                SeedKind::Population => next == SeedStage::AddingRoleUser,
            },
            SeedStage::FindingCompany => match reply {
                Reply::Id(Some(id)) => next == SeedStage::AddingBadge { id },
                _ => next matches SeedStage::AddingUser { id } && uuid_version(id) == 7,
            },
            SeedStage::AddingUser { id } => next == SeedStage::AddingProfile { id },
            SeedStage::AddingRoleUser => match reply {
                Reply::Id(Some(id)) => if self.current().role == Role::Admin {
                    next == SeedStage::AddingBadge { id }
                } else {
                    next == SeedStage::AddingProfile { id }
                },
                _ => false,
            },
            SeedStage::AddingProfile { id } => next == SeedStage::AddingBadge { id },
            SeedStage::AddingBadge { id } => next == SeedStage::AddingToken { id },
            SeedStage::AddingToken { id } => next == SeedStage::Committing { id },
            _ => false,
        }
    }

    /// What the flow does with the reply to the statement it waits on.
    pub open spec fn resumes(self, reply: Reply, after: SeedFlow, step: Step<Response>) -> bool {
        if !self.accepts(reply) {
            &&& after.stage() is Closed
            &&& step == Step::<Response>::Finish(Err(self.failure()))
        } else {
            &&& after.kind() == self.kind()
            &&& match self.stage() {
                SeedStage::Reading => {
                    &&& reply matches Reply::Body(bytes) && upload_prefix(
                        self.kind(),
                        csv_table(bytes@),
                        after.records(),
                        after.complete(),
                    )
                    &&& after.users().len() == 0
                    &&& after.moves_on(step)
                },
                SeedStage::Committing { id } => {
                    &&& after.records() == self.records()
                    &&& after.complete() == self.complete()
                    &&& after.users() == self.users().push(id)
                    &&& after.moves_on(step)
                },
                _ => {
                    &&& after.records() == self.records()
                    &&& after.complete() == self.complete()
                    &&& after.users() == self.users()
                    &&& self.follows(reply, after.stage())
                    &&& step matches Step::Run(q) && after.waits_on(q)
                },
            }
        }
    }

    /// Whether the request is answered.
    pub fn is_closed(&self) -> (closed: bool)
        ensures
            closed == self.stage() is Closed,
    {
        match self.stage {
            SeedStage::Closed => true,
            _ => false,
        }
    }

    /// Starts a seeding on behalf of a user with the given role: refused
    /// unless the user is an admin, else the body is read.
    pub fn start(kind: SeedKind, role: Role) -> (r: (SeedFlow, Step<Response>))
        ensures
            r.0.well_formed(),
            r.0.kind() == kind,
            r.0.users().len() == 0,
            role != Role::Admin ==> r.0.stage() is Closed && r.1 == Step::<Response>::Finish(
                Err(Error::Unauthorized),
            ),
            role == Role::Admin ==> r.0.stage() is Reading,
            role == Role::Admin ==> (r.1 matches Step::Run(q) && r.0.waits_on(q)),
    {
        let flow = SeedFlow {
            kind,
            records: Vec::new(),
            complete: true,
            users: Vec::new(),
            stage: SeedStage::Closed,
        };
        if role != Role::Admin {
            (flow, Step::Finish(Err(Error::Unauthorized)))
        } else {
            (SeedFlow { stage: SeedStage::Reading, ..flow }, Step::Run(Query::ReadBody))
        }
    }

    /// Answers the request with an error.
    fn refuse(kind: SeedKind, records: Vec<SeedRecord>, complete: bool, users: Vec<u128>, e: Error) -> (r: (
        SeedFlow,
        Step<Response>,
    ))
        requires
            users.len() <= records.len(),
        ensures
            r.0.well_formed(),
            r.0.stage() is Closed,
            r.1 == Step::<Response>::Finish(Err(e)),
    {
        (SeedFlow { kind, records, complete, users, stage: SeedStage::Closed }, Step::Finish(Err(e)))
    }

    /// Takes the reply to the statement the flow waits on and decides what
    /// comes next.
    pub fn resume(self, reply: Reply) -> (r: (SeedFlow, Step<Response>))
        requires
            self.well_formed(),
            !(self.stage() is Closed),
        ensures
            r.0.well_formed(),
            self.resumes(reply, r.0, r.1),
    {
        let ghost before = self;
        let SeedFlow { kind, records, complete, users, stage } = self;
        match stage {
            SeedStage::Reading => match reply {
                Reply::Body(bytes) => {
                    let (records, complete) = read_records(kind, bytes.as_slice());
                    Self::move_on(kind, records, complete, Vec::new())
                },
                _ => Self::refuse(kind, records, complete, users, Error::Internal),
            },
            SeedStage::Opening { fresh } => match reply {
                Reply::Done => {
                    let i = users.len();
                    match kind {
                        SeedKind::Attendees => {
                            let id = match fresh {
                                Some(id) => id,
                                None => 0,
                            };
                            let q = Query::InsertAttendeeUser {
                                id,
                                name: clone_text(&records[i].name),
                                mail: clone_text(&records[i].mail),
                            };
                            (
                                SeedFlow { kind, records, complete, users, stage: SeedStage::AddingUser { id } },
                                Step::Run(q),
                            )
                        },
                        SeedKind::Exhibitors => {
                            let q = Query::FindCompany { company: clone_text(&records[i].company) };
                            (
                                SeedFlow { kind, records, complete, users, stage: SeedStage::FindingCompany },
                                Step::Run(q),
                            )
                        },
                        SeedKind::Population => {
                            let q = Query::InsertRoleUser { role: records[i].role };
                            (
                                SeedFlow { kind, records, complete, users, stage: SeedStage::AddingRoleUser },
                                Step::Run(q),
                            )
                        },
                    }
                },
                _ => Self::refuse(kind, records, complete, users, Error::Internal),
            },
            SeedStage::FindingCompany => match reply {
                Reply::Id(found) => {
                    let i = users.len();
                    match found {
                        Some(id) => {
                            let q = Query::InsertBadge { user: id, badge: records[i].badge };
                            (
                                SeedFlow { kind, records, complete, users, stage: SeedStage::AddingBadge { id } },
                                Step::Run(q),
                            )
                        },
                        None => {
                            let id = new_user_id();
                            let q = Query::InsertExhibitorUser {
                                id,
                                name: clone_text(&records[i].name),
                                mail: clone_text(&records[i].mail),
                            };
                            (
                                SeedFlow { kind, records, complete, users, stage: SeedStage::AddingUser { id } },
                                Step::Run(q),
                            )
                        },
                    }
                },
                _ => Self::refuse(kind, records, complete, users, Error::Internal),
            },
            SeedStage::AddingUser { id } => match reply {
                Reply::Done => {
                    let q = Self::profile_query(kind, &records, users.len(), id);
                    (
                        SeedFlow { kind, records, complete, users, stage: SeedStage::AddingProfile { id } },
                        Step::Run(q),
                    )
                },
                _ => Self::refuse(kind, records, complete, users, Error::Internal),
            },
            SeedStage::AddingRoleUser => match reply {
                Reply::Id(Some(id)) => {
                    let i = users.len();
                    match records[i].role {
                        Role::Admin => {
                            let q = Query::InsertBadge { user: id, badge: records[i].badge };
                            (
                                SeedFlow { kind, records, complete, users, stage: SeedStage::AddingBadge { id } },
                                Step::Run(q),
                            )
                        },
                        _ => {
                            let q = Self::profile_query(kind, &records, i, id);
                            (
                                SeedFlow { kind, records, complete, users, stage: SeedStage::AddingProfile { id } },
                                Step::Run(q),
                            )
                        },
                    }
                },
                _ => Self::refuse(kind, records, complete, users, Error::Internal),
            },
            SeedStage::AddingProfile { id } => match reply {
                Reply::Done => {
                    let q = Query::InsertBadge { user: id, badge: records[users.len()].badge };
                    (
                        SeedFlow { kind, records, complete, users, stage: SeedStage::AddingBadge { id } },
                        Step::Run(q),
                    )
                },
                _ => Self::refuse(kind, records, complete, users, Error::Internal),
            },
            SeedStage::AddingBadge { id } => match reply {
                Reply::Done => {
                    let q = Query::InsertToken { user: id, token: records[users.len()].token.clone() };
                    (
                        SeedFlow { kind, records, complete, users, stage: SeedStage::AddingToken { id } },
                        Step::Run(q),
                    )
                },
                _ => Self::refuse(kind, records, complete, users, Error::DuplicateBadge),
            },
            SeedStage::AddingToken { id } => match reply {
                Reply::Done => (
                    SeedFlow { kind, records, complete, users, stage: SeedStage::Committing { id } },
                    Step::Run(Query::Commit),
                ),
                _ => Self::refuse(kind, records, complete, users, Error::DuplicateToken),
            },
            SeedStage::Committing { id } => match reply {
                Reply::Done => {
                    let mut users = users;
                    users.push(id);
                    Self::move_on(kind, records, complete, users)
                },
                _ => Self::refuse(kind, records, complete, users, Error::Internal),
            },
            SeedStage::Closed => Self::refuse(kind, records, complete, users, Error::Internal),
        }
    }

    /// The statement that inserts the profile of record `i` for the user `id`.
    fn profile_query(kind: SeedKind, records: &Vec<SeedRecord>, i: usize, id: u128) -> (q: Query)
        requires
            i < records.len(),
        ensures
            ({
                let cur = record_views(records@)[i as int];
                if kind == SeedKind::Attendees {
                    q matches Query::InsertAttendee { attendee } && profile_of(attendee, id, cur)
                } else if kind == SeedKind::Population && cur.role == Role::Attendee {
                    q matches Query::InsertAttendeeContact { attendee, name, mail } && profile_of(
                        attendee,
                        id,
                        cur,
                    ) && name.deep_view() == cur.name && mail.deep_view() == cur.mail
                } else {
                    q matches Query::InsertExhibitor { user, company } && user == id
                        && company.deep_view() == cur.company
                }
            }),
    {
        let rec = &records[i];
        let attendee = Attendee::new(
            id,
            clone_text(&rec.linkedin),
            clone_text(&rec.study),
            clone_text(&rec.degree),
            clone_text(&rec.institution),
            clone_text(&rec.graduation_year),
        );
        match kind {
            SeedKind::Attendees => Query::InsertAttendee { attendee },
            _ => match rec.role {
                Role::Attendee => {
                    if kind == SeedKind::Population {
                        Query::InsertAttendeeContact {
                            attendee,
                            name: clone_text(&rec.name),
                            mail: clone_text(&rec.mail),
                        }
                    } else {
                        Query::InsertExhibitor { user: id, company: clone_text(&rec.company) }
                    }
                },
                _ => Query::InsertExhibitor { user: id, company: clone_text(&rec.company) },
            },
        }
    }

    /// Opens the current record, or answers the request when none is left.
    fn move_on(kind: SeedKind, records: Vec<SeedRecord>, complete: bool, users: Vec<u128>) -> (r: (
        SeedFlow,
        Step<Response>,
    ))
        requires
            users.len() <= records.len(),
        ensures
            r.0.well_formed(),
            r.0.kind() == kind,
            r.0.records() == record_views(records@),
            r.0.complete() == complete,
            r.0.users() == users@,
            r.0.moves_on(r.1),
    {
        if users.len() < records.len() {
            let fresh = match kind {
                SeedKind::Attendees => Some(new_user_id()),
                _ => None,
            };
            (
                SeedFlow { kind, records, complete, users, stage: SeedStage::Opening { fresh } },
                Step::Run(Query::Begin),
            )
        } else if complete {
            let answer = Response { users: users.clone() };
            (
                SeedFlow { kind, records, complete, users, stage: SeedStage::Closed },
                Step::Finish(Ok(answer)),
            )
        } else {
            (
                SeedFlow { kind, records, complete, users, stage: SeedStage::Closed },
                Step::Finish(Err(Error::InvalidRequest)),
            )
        }
    }
}

} // verus!
