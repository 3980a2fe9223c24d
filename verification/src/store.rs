//! The conversation between a request and the database.
//!
//! A request is answered by a flow: it names the next statement to run
//! (`Step::Run`), the application runs it and hands back what the database
//! said (`Reply`), and the flow decides again, until it answers the request
//! (`Step::Finish`).
use vstd::prelude::*;

use crate::errors::Result;
use crate::users::{Attendee, Role};

verus! {

/// A statement for the application to run, with its parameters.
#[derive(Clone, Debug)]
pub enum Query {
    /// Read the request's body.
    ReadBody,
    /// Open a transaction.
    Begin,
    /// Commit the open transaction.
    Commit,
    /// The user (id and role) that owns this badge and this unused token.
    FindCredentials { badge: u128, token: String },
    /// Mark the token of this user as used.
    UseToken { user: u128, token: String },
    /// The user of the exhibitor that represents this company.
    FindCompany { company: Option<String> },
    /// Insert a user with the default role.
    InsertAttendeeUser { id: u128, name: Option<String>, mail: Option<String> },
    /// Insert a user with the exhibitor role.
    InsertExhibitorUser { id: u128, name: Option<String>, mail: Option<String> },
    /// Insert a user with this role, returning the id the database gives it.
    InsertRoleUser { role: Role },
    /// Insert an attendee profile.
    InsertAttendee { attendee: Attendee },
    /// Insert an attendee profile together with the attendee's name and mail.
    InsertAttendeeContact { attendee: Attendee, name: Option<String>, mail: Option<String> },
    /// Insert an exhibitor profile.
    InsertExhibitor { user: u128, company: Option<String> },
    /// Give a badge to a user.
    InsertBadge { user: u128, badge: u128 },
    /// Give a token to a user.
    InsertToken { user: u128, token: String },
    /// The user (id and role) that owns this badge.
    FindBadgeOwner { badge: u128 },
    /// Record a scan, returning its id and time.
    InsertScan { initiator: u128, subject: u128 },
    /// The attendee with this user id.
    FindAttendee { user: u128 },
    /// The exhibitor with this user id.
    FindExhibitor { user: u128 },
    /// The scans this user made of attendees, newest first.
    ActiveScans { initiator: u128 },
    /// The scans attendees made of this user, newest first.
    PassiveScans { subject: u128 },
}

/// An attendee as the database returns it.
#[derive(Clone, Debug)]
pub struct AttendeeRow {
    pub name: String,
    pub mail: String,
    pub linkedin: Option<String>,
    pub study: Option<String>,
    pub degree: Option<String>,
    pub institution: Option<String>,
    pub graduation_year: Option<String>,
}

/// An exhibitor as the database returns it.
#[derive(Clone, Debug)]
pub struct ExhibitorRow {
    pub name: String,
    pub mail: String,
    pub company: String,
}

/// One scan of a listing, with the attendee on the other side of it.
#[derive(Clone, Debug)]
pub struct ListedScan {
    /// The scan.
    pub scan: u128,
    /// The attendee on the other side.
    pub user: u128,
    pub role: Role,
    pub name: String,
    pub mail: String,
    pub linkedin: Option<String>,
    pub study: Option<String>,
    pub degree: Option<String>,
    pub institution: Option<String>,
    pub graduation_year: Option<String>,
    /// When the scan was made, in microseconds since the Unix epoch.
    pub created_at: i64,
}

/// What the database said to a statement.
#[derive(Clone, Debug)]
pub enum Reply {
    /// The statement failed.
    Failed,
    /// The statement ran and returns nothing.
    Done,
    /// The request's body.
    Body(Vec<u8>),
    /// A user id and role, if a row was found.
    Identity(Option<(u128, Role)>),
    /// A user id, if a row was found.
    Id(Option<u128>),
    /// A scan id and its time in microseconds since the Unix epoch, if a row came back.
    Stamp(Option<(u128, i64)>),
    /// An attendee, if found.
    Attendee(Option<AttendeeRow>),
    /// An exhibitor, if found.
    Exhibitor(Option<ExhibitorRow>),
    /// A listing of scans.
    Listing(Vec<ListedScan>),
}

/// What a flow does next: run a statement, or answer the request.
#[derive(Debug)]
pub enum Step<T> {
    Run(Query),
    Finish(Result<T>),
}

} // verus!
