//! Scanning badges. An attendee scans an exhibitor's badge, or an exhibitor
//! an attendee's; nobody scans their own badge, and no other pairs are
//! recorded. Exhibitors list the scans they made and the scans made of them.
use vstd::prelude::*;

use crate::auth::Claims;
use crate::errors::Error;
use crate::store::{AttendeeRow, ExhibitorRow, ListedScan, Query, Reply, Step};
use crate::users::seeding::clone_text;
use crate::users::{Attendee, Exhibitor, Role, User};

verus! {

/// A scan of one user's badge by another.
#[derive(Clone, Debug)]
pub struct Scan {
    pub id: u128,
    pub subject_id: u128,
    pub subject: Option<User>,
    pub initiator_id: u128,
    pub initiator: Option<User>,
    pub is_expunged: bool,
    /// When the scan was made, in microseconds since the Unix epoch.
    pub scanned_at: i64,
}

impl Scan {
    pub fn new(
        id: u128,
        subject_id: u128,
        subject: Option<User>,
        initiator_id: u128,
        initiator: Option<User>,
        is_expunged: bool,
        scanned_at: i64,
    ) -> (scan: Scan)
        ensures
            scan == (Scan { id, subject_id, subject, initiator_id, initiator, is_expunged, scanned_at }),
    {
        Scan { id, subject_id, subject, initiator_id, initiator, is_expunged, scanned_at }
    }
}

/// The scans an exhibitor made (`active`) and the scans made of it
/// (`passive`).
#[derive(Clone, Debug)]
pub struct Scans {
    pub active: Vec<Scan>,
    pub passive: Vec<Scan>,
}

impl Attendee {
    /// A copy of the profile.
    pub fn duplicate(&self) -> (copy: Attendee)
        ensures
            copy == *self,
    {
        Attendee {
            user_id: self.user_id,
            linkedin: clone_text(&self.linkedin),
            study: clone_text(&self.study),
            degree: clone_text(&self.degree),
            institution: clone_text(&self.institution),
            graduation_year: clone_text(&self.graduation_year),
        }
    }
}

impl Exhibitor {
    /// A copy of the profile.
    pub fn duplicate(&self) -> (copy: Exhibitor)
        ensures
            copy == *self,
    {
        Exhibitor { user_id: self.user_id, company: self.company.clone() }
    }
}

impl User {
    /// A copy of the user.
    pub fn duplicate(&self) -> (copy: User)
        ensures
            copy == *self,
    {
        let attendee = match &self.attendee {
            Some(a) => Some(a.duplicate()),
            None => None,
        };
        let exhibitor = match &self.exhibitor {
            Some(e) => Some(e.duplicate()),
            None => None,
        };
        User {
            id: self.id,
            role: self.role,
            name: self.name.clone(),
            mail: self.mail.clone(),
            attendee,
            exhibitor,
        }
    }
}

/// The attendee with user id `id`, as found in the database.
pub open spec fn attendee_user(id: u128, row: AttendeeRow) -> User {
    User {
        id,
        role: Role::Attendee,
        name: row.name,
        mail: row.mail,
        attendee: Some(
            Attendee {
                user_id: id,
                linkedin: row.linkedin,
                study: row.study,
                degree: row.degree,
                institution: row.institution,
                graduation_year: row.graduation_year,
            },
        ),
        exhibitor: None,
    }
}

/// The exhibitor with user id `id` and role `role`, as found in the database.
pub open spec fn exhibitor_user(id: u128, role: Role, row: ExhibitorRow) -> User {
    User {
        id,
        role,
        name: row.name,
        mail: row.mail,
        attendee: None,
        exhibitor: Some(Exhibitor { user_id: id, company: row.company }),
    }
}

/// The attendee on the other side of a listed scan.
pub open spec fn listed_user(row: ListedScan) -> User {
    User {
        id: row.user,
        role: row.role,
        name: row.name,
        mail: row.mail,
        attendee: Some(
            Attendee {
                user_id: row.user,
                linkedin: row.linkedin,
                study: row.study,
                degree: row.degree,
                institution: row.institution,
                graduation_year: row.graduation_year,
            },
        ),
        exhibitor: None,
    }
}

/// A scan that the exhibitor `me` made, as listed.
pub open spec fn active_scan(row: ListedScan, me: u128, exhibitor: User) -> Scan {
    Scan {
        id: row.scan,
        subject_id: row.user,
        subject: Some(listed_user(row)),
        initiator_id: me,
        initiator: Some(exhibitor),
        is_expunged: false,
        scanned_at: row.created_at,
    }
}

/// A scan made of the exhibitor `me`, as listed: the exhibitor is the
/// subject and the attendee who scanned is the initiator, while the two id
/// fields hold the other way round: `subject_id` is the attendee's id and
/// `initiator_id` the exhibitor's (`me`).
pub open spec fn passive_scan(row: ListedScan, me: u128, exhibitor: User) -> Scan {
    Scan {
        id: row.scan,
        subject_id: row.user,
        subject: Some(exhibitor),
        initiator_id: me,
        initiator: Some(listed_user(row)),
        is_expunged: false,
        scanned_at: row.created_at,
    }
}

/// The user of an attendee row.
fn make_attendee_user(id: u128, row: AttendeeRow) -> (user: User)
    ensures
        user == attendee_user(id, row),
{
    let AttendeeRow { name, mail, linkedin, study, degree, institution, graduation_year } = row;
    let attendee = Attendee::new(id, linkedin, study, degree, institution, graduation_year);
    User::new(id, Role::Attendee, name, mail, Some(attendee), None)
}

/// The user of an exhibitor row.
fn make_exhibitor_user(id: u128, role: Role, row: ExhibitorRow) -> (user: User)
    ensures
        user == exhibitor_user(id, role, row),
{
    let ExhibitorRow { name, mail, company } = row;
    let exhibitor = Exhibitor::new(id, company);
    User::new(id, role, name, mail, None, Some(exhibitor))
}

/// The attendee of a listed scan.
fn make_listed_user(row: &ListedScan) -> (user: User)
    ensures
        user == listed_user(*row),
{
    let attendee = Attendee::new(
        row.user,
        clone_text(&row.linkedin),
        clone_text(&row.study),
        clone_text(&row.degree),
        clone_text(&row.institution),
        clone_text(&row.graduation_year),
    );
    User::new(row.user, row.role, row.name.clone(), row.mail.clone(), Some(attendee), None)
}

/// The scans of a listing, built from each row by `active_scan` or, when
/// `made_of_me`, by `passive_scan`.
fn list_scans(rows: &Vec<ListedScan>, me: u128, exhibitor: &User, made_of_me: bool) -> (scans: Vec<Scan>)
    ensures
        scans.len() == rows.len(),
        forall|i: int|
            0 <= i < rows.len() ==> #[trigger] scans@[i] == if made_of_me {
                passive_scan(rows@[i], me, *exhibitor)
            } else {
                active_scan(rows@[i], me, *exhibitor)
            },
{
    let mut scans: Vec<Scan> = Vec::new();
    let mut i: usize = 0;
    while i < rows.len()
        invariant
            i <= rows.len(),
            scans.len() == i,
            forall|j: int|
                0 <= j < i ==> #[trigger] scans@[j] == if made_of_me {
                    passive_scan(rows@[j], me, *exhibitor)
                } else {
                    active_scan(rows@[j], me, *exhibitor)
                },
        decreases rows.len() - i,
    {
        let row = &rows[i];
        let other = make_listed_user(row);
        let scan = if made_of_me {
            Scan::new(row.scan, row.user, Some(exhibitor.duplicate()), me, Some(other), false, row.created_at)
        } else {
            Scan::new(row.scan, row.user, Some(other), me, Some(exhibitor.duplicate()), false, row.created_at)
        };
        scans.push(scan);
        i = i + 1;
    }
    scans
}

/// Where a listing of scans stands.
#[derive(Clone, Copy, Debug)]
pub enum ListingStage {
    /// Opening the transaction.
    Opening,
    /// Looking up the exhibitor who asks.
    FindingExhibitor,
    /// Listing the scans the exhibitor made.
    ListingActive,
    /// Listing the scans made of the exhibitor.
    ListingPassive,
    /// Committing.
    Committing,
    /// The request is answered.
    Closed,
}

/// A listing of an exhibitor's scans in progress.
pub struct GetScans {
    claims: Claims,
    stage: ListingStage,
    exhibitor: Option<User>,
    active: Vec<Scan>,
    passive: Vec<Scan>,
}

impl GetScans {
    /// Past the opening, the user who asks is an exhibitor; once found, the
    /// exhibitor is that user, and every scan listed has it as initiator.
    pub closed spec fn well_formed(self) -> bool {
        &&& match self.stage {
            ListingStage::Opening | ListingStage::Closed => true,
            ListingStage::FindingExhibitor => self.claims.role == Role::Exhibitor,
            _ => {
                &&& self.claims.role == Role::Exhibitor
                &&& self.exhibitor matches Some(u) && u.id == self.claims.subject && u.role
                    == Role::Exhibitor
            },
        }
        &&& forall|i: int| 0 <= i < self.active@.len() ==> (#[trigger] self.active@[i]).initiator_id == self.claims.subject
        &&& forall|i: int| 0 <= i < self.passive@.len() ==> (#[trigger] self.passive@[i]).initiator_id == self.claims.subject
    }

    /// The claims of the user who asks.
    pub closed spec fn claims(self) -> Claims {
        self.claims
    }

    /// The stage of the listing.
    pub closed spec fn stage(self) -> ListingStage {
        self.stage
    }

    /// The exhibitor who asks, once found.
    pub closed spec fn exhibitor(self) -> Option<User> {
        self.exhibitor
    }

    /// The scans the exhibitor made, once listed.
    pub closed spec fn active(self) -> Seq<Scan> {
        self.active@
    }

    /// The scans made of the exhibitor, once listed.
    pub closed spec fn passive(self) -> Seq<Scan> {
        self.passive@
    }

    /// The statement the listing waits on.
    pub open spec fn waits_on(self, q: Query) -> bool {
        let me = self.claims().subject;
        match self.stage() {
            ListingStage::Opening => q is Begin,
            ListingStage::FindingExhibitor => q == Query::FindExhibitor { user: me },
            ListingStage::ListingActive => q == Query::ActiveScans { initiator: me },
            ListingStage::ListingPassive => q == Query::PassiveScans { subject: me },
            ListingStage::Committing => q is Commit,
            ListingStage::Closed => false,
        }
    }

    /// Whether a step runs the statement the listing waits on.
    pub open spec fn issued(self, step: Step<Scans>) -> bool {
        step matches Step::Run(q) && self.waits_on(q)
    }

    /// What the listing does with the reply to the statement it waits on.
    pub open spec fn resumes(self, reply: Reply, after: GetScans, step: Step<Scans>) -> bool {
        let me = self.claims().subject;
        let refused = |e: Error| after.stage() is Closed && step == Step::<Scans>::Finish(Err(e));
        &&& after.claims() == self.claims()
        &&& match self.stage() {
            ListingStage::Opening => match reply {
                Reply::Done => if self.claims().role != Role::Exhibitor {
                    refused(Error::Unauthorized)
                } else {
                    after.stage() is FindingExhibitor && after.issued(step)
                },
                _ => refused(Error::Internal),
            },
            ListingStage::FindingExhibitor => match reply {
                Reply::Exhibitor(Some(row)) => after.stage() is ListingActive && after.exhibitor()
                    == Some(exhibitor_user(me, self.claims().role, row)) && after.issued(step),
                Reply::Exhibitor(None) => refused(Error::UnknownUser),
                _ => refused(Error::Internal),
            },
            ListingStage::ListingActive => match reply {
                Reply::Listing(rows) => {
                    &&& after.stage() is ListingPassive
                    &&& after.exhibitor() == self.exhibitor()
                    &&& after.active().len() == rows.len()
                    &&& forall|i: int|
                        0 <= i < rows.len() ==> #[trigger] after.active()[i] == active_scan(
                            rows@[i],
                            me,
                            self.exhibitor().unwrap(),
                        )
                    &&& after.issued(step)
                },
                _ => refused(Error::Internal),
            },
            ListingStage::ListingPassive => match reply {
                Reply::Listing(rows) => {
                    &&& after.stage() is Committing
                    &&& after.exhibitor() == self.exhibitor()
                    &&& after.active() == self.active()
                    &&& after.passive().len() == rows.len()
                    &&& forall|i: int|
                        0 <= i < rows.len() ==> #[trigger] after.passive()[i] == passive_scan(
                            rows@[i],
                            me,
                            self.exhibitor().unwrap(),
                        )
                    &&& after.issued(step)
                },
                _ => refused(Error::Internal),
            },
            ListingStage::Committing => match reply {
                Reply::Done => {
                    &&& after.stage() is Closed
                    &&& step matches Step::Finish(Ok(scans)) && scans.active@ == self.active()
                        && scans.passive@ == self.passive()
                },
                _ => refused(Error::Internal),
            },
            ListingStage::Closed => false,
        }
    }

    fn close(self, e: Error) -> (r: (GetScans, Step<Scans>))
        requires
            self.well_formed(),
        ensures
            r.0.well_formed(),
            r.0.claims() == self.claims(),
            r.0.stage() is Closed,
            r.1 == Step::<Scans>::Finish(Err(e)),
    {
        (GetScans { stage: ListingStage::Closed, ..self }, Step::Finish(Err(e)))
    }

    /// Takes the reply to the statement the listing waits on and decides what
    /// comes next.
    pub fn resume(self, reply: Reply) -> (r: (GetScans, Step<Scans>))
        requires
            self.well_formed(),
            !(self.stage() is Closed),
        ensures
            r.0.well_formed(),
            self.resumes(reply, r.0, r.1),
    {
        let me = self.claims.subject;
        match self.stage {
            ListingStage::Opening => match reply {
                Reply::Done => {
                    if self.claims.role != Role::Exhibitor {
                        self.close(Error::Unauthorized)
                    } else {
                        (
                            GetScans { stage: ListingStage::FindingExhibitor, ..self },
                            Step::Run(Query::FindExhibitor { user: me }),
                        )
                    }
                },
                _ => self.close(Error::Internal),
            },
            ListingStage::FindingExhibitor => match reply {
                Reply::Exhibitor(Some(row)) => {
                    let exhibitor = make_exhibitor_user(me, self.claims.role, row);
                    (
                        GetScans { stage: ListingStage::ListingActive, exhibitor: Some(exhibitor), ..self },
                        Step::Run(Query::ActiveScans { initiator: me }),
                    )
                },
                Reply::Exhibitor(None) => self.close(Error::UnknownUser),
                _ => self.close(Error::Internal),
            },
            ListingStage::ListingActive => match reply {
                Reply::Listing(rows) => {
                    let active = match &self.exhibitor {
                        Some(exhibitor) => list_scans(&rows, me, exhibitor, false),
                        None => Vec::new(),
                    };
                    (
                        GetScans { stage: ListingStage::ListingPassive, active, ..self },
                        Step::Run(Query::PassiveScans { subject: me }),
                    )
                },
                _ => self.close(Error::Internal),
            },
            ListingStage::ListingPassive => match reply {
                Reply::Listing(rows) => {
                    let passive = match &self.exhibitor {
                        Some(exhibitor) => list_scans(&rows, me, exhibitor, true),
                        None => Vec::new(),
                    };
                    (GetScans { stage: ListingStage::Committing, passive, ..self }, Step::Run(Query::Commit))
                },
                _ => self.close(Error::Internal),
            },
            ListingStage::Committing => match reply {
                Reply::Done => {
                    let GetScans { claims, stage, exhibitor, active, passive } = self;
                    let answer = Scans { active, passive };
                    (
                        GetScans {
                            claims,
                            stage: ListingStage::Closed,
                            exhibitor,
                            active: Vec::new(),
                            passive: Vec::new(),
                        },
                        Step::Finish(Ok(answer)),
                    )
                },
                _ => self.close(Error::Internal),
            },
            ListingStage::Closed => self.close(Error::Internal),
        }
    }

    /// Whether the request is answered.
    pub fn is_closed(&self) -> (closed: bool)
        ensures
            closed == self.stage() is Closed,
    {
        match self.stage {
            ListingStage::Closed => true,
            _ => false,
        }
    }
}

/// Each step of a listing either runs a statement, which the listing then
/// waits on, or answers the request and closes the listing.
pub proof fn law_listing_steps(flow: GetScans, reply: Reply, after: GetScans, step: Step<Scans>)
    requires
        flow.resumes(reply, after, step),
    ensures
        step matches Step::Run(q) ==> after.waits_on(q) && !(after.stage() is Closed),
        step is Finish ==> after.stage() is Closed,
{
}

/// Whether a user is the attendee a listing row describes: its id, role,
/// name and mail are the row's, and so is each field of its attendee
/// profile.
pub open spec fn describes(row: ListedScan, u: User) -> bool {
    &&& u.id == row.user
    &&& u.role == row.role
    &&& u.name == row.name
    &&& u.mail == row.mail
    &&& u.exhibitor is None
    &&& u.attendee is Some
    &&& u.attendee.unwrap().user_id == row.user
    &&& u.attendee.unwrap().linkedin == row.linkedin
    &&& u.attendee.unwrap().study == row.study
    &&& u.attendee.unwrap().degree == row.degree
    &&& u.attendee.unwrap().institution == row.institution
    &&& u.attendee.unwrap().graduation_year == row.graduation_year
}

/// Each listed scan carries its listing row: the scan's id, the attendee's
/// id and the scan's time are the row's; the attendee on the other side is
/// the one the row describes (the subject of a scan the exhibitor made, the
/// initiator of a scan made of it) and the exhibitor who asks is on the
/// exhibitor's side.
pub proof fn law_listed_scans_carry_their_rows(flow: GetScans, rows: Vec<ListedScan>, after: GetScans, step: Step<Scans>, i: int)
    requires
        flow.well_formed(),
        flow.resumes(Reply::Listing(rows), after, step),
        0 <= i < rows.len(),
    ensures
        flow.stage() is ListingActive ==> {
            &&& after.active()[i].id == rows@[i].scan
            &&& after.active()[i].subject_id == rows@[i].user
            &&& after.active()[i].scanned_at == rows@[i].created_at
            &&& after.active()[i].subject is Some && describes(rows@[i], after.active()[i].subject.unwrap())
            &&& after.active()[i].initiator == flow.exhibitor()
        },
        flow.stage() is ListingPassive ==> {
            &&& after.passive()[i].id == rows@[i].scan
            &&& after.passive()[i].subject_id == rows@[i].user
            &&& after.passive()[i].scanned_at == rows@[i].created_at
            &&& after.passive()[i].initiator is Some && describes(rows@[i], after.passive()[i].initiator.unwrap())
            &&& after.passive()[i].subject == flow.exhibitor()
        },
{
    reveal(GetScans::well_formed);
    if flow.stage() is ListingActive {
        assert(after.active()[i] == active_scan(rows@[i], flow.claims().subject, flow.exhibitor().unwrap()));
    }
    if flow.stage() is ListingPassive {
        assert(after.passive()[i] == passive_scan(rows@[i], flow.claims().subject, flow.exhibitor().unwrap()));
    }
}

/// Only exhibitors get a listing, and every scan in it, made by the
/// exhibitor or of it, names the exhibitor as `initiator_id`.
pub proof fn law_listing_is_the_exhibitors(flow: GetScans, reply: Reply, after: GetScans, step: Step<Scans>)
    requires
        flow.well_formed(),
        flow.resumes(reply, after, step),
    ensures
        step matches Step::Finish(Ok(scans)) ==> {
            &&& flow.claims().role == Role::Exhibitor
            &&& forall|i: int| 0 <= i < scans.active.len() ==> (#[trigger] scans.active@[i]).initiator_id == flow.claims().subject
            &&& forall|i: int| 0 <= i < scans.passive.len() ==> (#[trigger] scans.passive@[i]).initiator_id == flow.claims().subject
        },
{
    reveal(GetScans::well_formed);
}

/// Starts listing the scans of the user who asks. The transaction is opened
/// first; only exhibitors are then served.
pub fn get_scans(claims: Claims) -> (r: (GetScans, Step<Scans>))
    ensures
        r.0.well_formed(),
        r.0.claims() == claims,
        r.0.stage() is Opening,
        r.0.issued(r.1),
{
    (
        GetScans {
            claims,
            stage: ListingStage::Opening,
            exhibitor: None,
            active: Vec::new(),
            passive: Vec::new(),
        },
        Step::Run(Query::Begin),
    )
}

/// Whether a user with role `initiator` may scan the badge of one with role
/// `subject`: attendees scan exhibitors, exhibitors scan attendees.
pub open spec fn may_scan(initiator: Role, subject: Role) -> bool {
    (initiator == Role::Attendee && subject == Role::Exhibitor) || (initiator == Role::Exhibitor
        && subject == Role::Attendee)
}

/// Whether a user with role `initiator` may scan the badge of one with role
/// `subject`.
pub fn can_scan(initiator: Role, subject: Role) -> (allowed: bool)
    ensures
        allowed == may_scan(initiator, subject),
{
    match (initiator, subject) {
        (Role::Attendee, Role::Exhibitor) => true,
        (Role::Exhibitor, Role::Attendee) => true,
        _ => false,
    }
}

/// Of the scanner `me` and the badge owner `subject`, the one who is the
/// attendee.
pub open spec fn attendee_side(me: u128, role: Role, subject: u128) -> u128 {
    if role == Role::Exhibitor {
        subject
    } else {
        me
    }
}

/// Of the scanner `me` and the badge owner `subject`, the one who is the
/// exhibitor.
pub open spec fn exhibitor_side(me: u128, role: Role, subject: u128) -> u128 {
    if role == Role::Attendee {
        subject
    } else {
        me
    }
}

/// The scan as recorded, before its users are looked up.
pub open spec fn recorded_scan(id: u128, scanned_at: i64, subject: u128, me: u128) -> Scan {
    Scan {
        id,
        subject_id: subject,
        subject: None,
        initiator_id: me,
        initiator: None,
        is_expunged: false,
        scanned_at,
    }
}

/// The scan as answered: the scanner is the initiator, the badge owner the
/// subject.
pub open spec fn answered_scan(scan: Scan, role: Role, attendee: User, exhibitor: User) -> Scan {
    if role == Role::Attendee {
        Scan { initiator: Some(attendee), subject: Some(exhibitor), ..scan }
    } else {
        Scan { initiator: Some(exhibitor), subject: Some(attendee), ..scan }
    }
}

/// Where a scan stands.
#[derive(Clone, Copy, Debug)]
pub enum ScanStage {
    /// Opening the transaction.
    Opening,
    /// Looking up the owner of the badge.
    FindingOwner,
    /// Recording the scan.
    Recording,
    /// Looking up the attendee of the scan.
    FindingAttendee,
    /// Looking up the exhibitor of the scan.
    FindingExhibitor,
    /// Committing.
    Committing,
    /// The request is answered.
    Closed,
}

/// A scan of a badge in progress.
pub struct ScanBadge {
    claims: Claims,
    badge: u128,
    stage: ScanStage,
    owner: Option<(u128, Role)>,
    scan: Option<Scan>,
    attendee: Option<User>,
    exhibitor: Option<User>,
}

impl ScanBadge {
    /// Once the badge's owner is known it is another user, of the role the
    /// scanner may scan; the scan and its users are kept as they are found.
    pub closed spec fn well_formed(self) -> bool {
        let me = self.claims.subject;
        let owner_ok = self.owner matches Some((id, role)) && id != me && may_scan(
            self.claims.role,
            role,
        );
        let subject = self.owner.unwrap().0;
        let scan_ok = self.scan matches Some(s) && s.initiator_id == me && s.subject_id == subject;
        let attendee_ok = self.attendee matches Some(u) && u.id == attendee_side(
            me,
            self.claims.role,
            subject,
        ) && u.role == Role::Attendee;
        let exhibitor_ok = self.exhibitor matches Some(u) && u.id == exhibitor_side(
            me,
            self.claims.role,
            subject,
        ) && u.role == Role::Exhibitor;
        match self.stage {
            ScanStage::Recording => owner_ok,
            ScanStage::FindingAttendee => owner_ok && scan_ok,
            ScanStage::FindingExhibitor => owner_ok && scan_ok && attendee_ok,
            ScanStage::Committing => owner_ok && scan_ok && attendee_ok && exhibitor_ok,
            _ => true,
        }
    }

    /// The claims of the scanner.
    pub closed spec fn claims(self) -> Claims {
        self.claims
    }

    /// The badge scanned.
    pub closed spec fn badge(self) -> u128 {
        self.badge
    }

    /// The stage of the scan.
    pub closed spec fn stage(self) -> ScanStage {
        self.stage
    }

    /// The owner of the badge (id and role), once found.
    pub closed spec fn owner(self) -> Option<(u128, Role)> {
        self.owner
    }

    /// The scan, once recorded.
    pub closed spec fn scan(self) -> Option<Scan> {
        self.scan
    }

    /// The attendee of the scan, once found.
    pub closed spec fn attendee(self) -> Option<User> {
        self.attendee
    }

    /// The exhibitor of the scan, once found.
    pub closed spec fn exhibitor(self) -> Option<User> {
        self.exhibitor
    }

    /// The id of the attendee of the scan.
    pub open spec fn attendee_id(self) -> u128 {
        attendee_side(self.claims().subject, self.claims().role, self.owner().unwrap().0)
    }

    /// The id of the exhibitor of the scan.
    pub open spec fn exhibitor_id(self) -> u128 {
        exhibitor_side(self.claims().subject, self.claims().role, self.owner().unwrap().0)
    }

    /// The statement the scan waits on.
    pub open spec fn waits_on(self, q: Query) -> bool {
        match self.stage() {
            ScanStage::Opening => q is Begin,
            ScanStage::FindingOwner => q == Query::FindBadgeOwner { badge: self.badge() },
            ScanStage::Recording => q == Query::InsertScan {
                initiator: self.claims().subject,
                subject: self.owner().unwrap().0,
            },
            ScanStage::FindingAttendee => q == Query::FindAttendee { user: self.attendee_id() },
            ScanStage::FindingExhibitor => q == Query::FindExhibitor { user: self.exhibitor_id() },
            ScanStage::Committing => q is Commit,
            ScanStage::Closed => false,
        }
    }

    /// Whether a step runs the statement the scan waits on.
    pub open spec fn issued(self, step: Step<Scan>) -> bool {
        step matches Step::Run(q) && self.waits_on(q)
    }

    /// What the scan does with the reply to the statement it waits on.
    pub open spec fn resumes(self, reply: Reply, after: ScanBadge, step: Step<Scan>) -> bool {
        let me = self.claims().subject;
        let refused = |e: Error| after.stage() is Closed && step == Step::<Scan>::Finish(Err(e));
        &&& after.claims() == self.claims()
        &&& after.badge() == self.badge()
        &&& match self.stage() {
            ScanStage::Opening => match reply {
                Reply::Done => after.stage() is FindingOwner && after.issued(step),
                _ => refused(Error::Internal),
            },
            ScanStage::FindingOwner => match reply {
                Reply::Identity(Some((id, role))) => if id == me {
                    refused(Error::SelfScan)
                } else if !may_scan(self.claims().role, role) {
                    refused(Error::Unauthorized)
                } else {
                    after.stage() is Recording && after.owner() == Some((id, role)) && after.issued(step)
                },
                Reply::Identity(None) => refused(Error::UnknownBadge),
                _ => refused(Error::DuplicateScan),
            },
            ScanStage::Recording => match reply {
                Reply::Stamp(Some((id, at))) => {
                    &&& after.stage() is FindingAttendee
                    &&& after.owner() == self.owner()
                    &&& after.scan() == Some(recorded_scan(id, at, self.owner().unwrap().0, me))
                    &&& after.issued(step)
                },
                Reply::Stamp(None) => refused(Error::UnknownScan),
                _ => refused(Error::DuplicateScan),
            },
            ScanStage::FindingAttendee => match reply {
                Reply::Attendee(Some(row)) => {
                    &&& after.stage() is FindingExhibitor
                    &&& after.owner() == self.owner()
                    &&& after.scan() == self.scan()
                    &&& after.attendee() == Some(attendee_user(self.attendee_id(), row))
                    &&& after.issued(step)
                },
                Reply::Attendee(None) => refused(Error::UnknownUser),
                _ => refused(Error::Internal),
            },
            ScanStage::FindingExhibitor => match reply {
                Reply::Exhibitor(Some(row)) => {
                    &&& after.stage() is Committing
                    &&& after.owner() == self.owner()
                    &&& after.scan() == self.scan()
                    &&& after.attendee() == self.attendee()
                    &&& after.exhibitor() == Some(
                        exhibitor_user(self.exhibitor_id(), Role::Exhibitor, row),
                    )
                    &&& after.issued(step)
                },
                Reply::Exhibitor(None) => refused(Error::UnknownUser),
                _ => refused(Error::Internal),
            },
            ScanStage::Committing => match reply {
                Reply::Done => {
                    &&& after.stage() is Closed
                    &&& step == Step::<Scan>::Finish(
                        Ok(
                            answered_scan(
                                self.scan().unwrap(),
                                self.claims().role,
                                self.attendee().unwrap(),
                                self.exhibitor().unwrap(),
                            ),
                        ),
                    )
                },
                _ => refused(Error::Internal),
            },
            ScanStage::Closed => false,
        }
    }

    fn close(self, e: Error) -> (r: (ScanBadge, Step<Scan>))
        ensures
            r.0.well_formed(),
            r.0.claims() == self.claims(),
            r.0.badge() == self.badge(),
            r.0.stage() is Closed,
            r.1 == Step::<Scan>::Finish(Err(e)),
    {
        (ScanBadge { stage: ScanStage::Closed, ..self }, Step::Finish(Err(e)))
    }

    /// Takes the reply to the statement the scan waits on and decides what
    /// comes next.
    pub fn resume(self, reply: Reply) -> (r: (ScanBadge, Step<Scan>))
        requires
            self.well_formed(),
            !(self.stage() is Closed),
        ensures
            r.0.well_formed(),
            self.resumes(reply, r.0, r.1),
    {
        let me = self.claims.subject;
        let role = self.claims.role;
        match self.stage {
            ScanStage::Opening => match reply {
                Reply::Done => {
                    let q = Query::FindBadgeOwner { badge: self.badge };
                    (ScanBadge { stage: ScanStage::FindingOwner, ..self }, Step::Run(q))
                },
                _ => self.close(Error::Internal),
            },
            ScanStage::FindingOwner => match reply {
                Reply::Identity(Some((id, owner_role))) => {
                    if id == me {
                        self.close(Error::SelfScan)
                    } else if !can_scan(role, owner_role) {
                        self.close(Error::Unauthorized)
                    } else {
                        let q = Query::InsertScan { initiator: me, subject: id };
                        (
                            ScanBadge { stage: ScanStage::Recording, owner: Some((id, owner_role)), ..self },
                            Step::Run(q),
                        )
                    }
                },
                Reply::Identity(None) => self.close(Error::UnknownBadge),
                _ => self.close(Error::DuplicateScan),
            },
            ScanStage::Recording => match reply {
                Reply::Stamp(Some((id, at))) => {
                    let subject = match self.owner {
                        Some((s, _)) => s,
                        None => 0,
                    };
                    let scan = Scan::new(id, subject, None, me, None, false, at);
                    let attendee_id = if role == Role::Exhibitor { subject } else { me };
                    (
                        ScanBadge { stage: ScanStage::FindingAttendee, scan: Some(scan), ..self },
                        Step::Run(Query::FindAttendee { user: attendee_id }),
                    )
                },
                Reply::Stamp(None) => self.close(Error::UnknownScan),
                _ => self.close(Error::DuplicateScan),
            },
            ScanStage::FindingAttendee => match reply {
                Reply::Attendee(Some(row)) => {
                    let subject = match self.owner {
                        Some((s, _)) => s,
                        None => 0,
                    };
                    let attendee_id = if role == Role::Exhibitor { subject } else { me };
                    let exhibitor_id = if role == Role::Attendee { subject } else { me };
                    let attendee = make_attendee_user(attendee_id, row);
                    (
                        ScanBadge { stage: ScanStage::FindingExhibitor, attendee: Some(attendee), ..self },
                        Step::Run(Query::FindExhibitor { user: exhibitor_id }),
                    )
                },
                Reply::Attendee(None) => self.close(Error::UnknownUser),
                _ => self.close(Error::Internal),
            },
            ScanStage::FindingExhibitor => match reply {
                Reply::Exhibitor(Some(row)) => {
                    let subject = match self.owner {
                        Some((s, _)) => s,
                        None => 0,
                    };
                    let exhibitor_id = if role == Role::Attendee { subject } else { me };
                    let exhibitor = make_exhibitor_user(exhibitor_id, Role::Exhibitor, row);
                    (
                        ScanBadge { stage: ScanStage::Committing, exhibitor: Some(exhibitor), ..self },
                        Step::Run(Query::Commit),
                    )
                },
                Reply::Exhibitor(None) => self.close(Error::UnknownUser),
                _ => self.close(Error::Internal),
            },
            ScanStage::Committing => match reply {
                Reply::Done => {
                    let ScanBadge { claims, badge, stage, owner, scan, attendee, exhibitor } = self;
                    match (scan, attendee, exhibitor) {
                        (Some(scan), Some(attendee), Some(exhibitor)) => {
                            let answer = match role {
                                Role::Attendee => Scan {
                                    initiator: Some(attendee),
                                    subject: Some(exhibitor),
                                    ..scan
                                },
                                _ => Scan {
                                    initiator: Some(exhibitor),
                                    subject: Some(attendee),
                                    ..scan
                                },
                            };
                            (
                                ScanBadge {
                                    claims,
                                    badge,
                                    stage: ScanStage::Closed,
                                    owner,
                                    scan: None,
                                    attendee: None,
                                    exhibitor: None,
                                },
                                Step::Finish(Ok(answer)),
                            )
                        },
                        (scan, attendee, exhibitor) => {
                            let flow = ScanBadge { claims, badge, stage, owner, scan, attendee, exhibitor };
                            flow.close(Error::Internal)
                        },
                    }
                },
                _ => self.close(Error::Internal),
            },
            ScanStage::Closed => self.close(Error::Internal),
        }
    }

    /// Whether the request is answered.
    pub fn is_closed(&self) -> (closed: bool)
        ensures
            closed == self.stage() is Closed,
    {
        match self.stage {
            ScanStage::Closed => true,
            _ => false,
        }
    }
}

/// Each step of a scan either runs a statement, which the scan then waits
/// on, or answers the request and closes the scan.
pub proof fn law_scan_steps(flow: ScanBadge, reply: Reply, after: ScanBadge, step: Step<Scan>)
    requires
        flow.resumes(reply, after, step),
    ensures
        step matches Step::Run(q) ==> after.waits_on(q) && !(after.stage() is Closed),
        step is Finish ==> after.stage() is Closed,
{
}

/// The users of a scan carry the rows they were found in: the attendee has
/// the attendee row's name, mail and each profile field under the same
/// name; the exhibitor has the exhibitor row's name, mail and company. The
/// answered scan is made of those users, the scanner's as initiator.
pub proof fn law_scan_users_carry_their_rows(flow: ScanBadge, reply: Reply, after: ScanBadge, step: Step<Scan>)
    requires
        flow.well_formed(),
        flow.resumes(reply, after, step),
    ensures
        flow.stage() is FindingAttendee && reply is Attendee && reply->Attendee_0 is Some ==> ({
            let row = reply->Attendee_0.unwrap();
            &&& after.attendee() is Some
            &&& after.attendee().unwrap().id == flow.attendee_id()
            &&& after.attendee().unwrap().role == Role::Attendee
            &&& after.attendee().unwrap().name == row.name
            &&& after.attendee().unwrap().mail == row.mail
            &&& after.attendee().unwrap().exhibitor is None
            &&& after.attendee().unwrap().attendee is Some
            &&& after.attendee().unwrap().attendee.unwrap().user_id == flow.attendee_id()
            &&& after.attendee().unwrap().attendee.unwrap().linkedin == row.linkedin
            &&& after.attendee().unwrap().attendee.unwrap().study == row.study
            &&& after.attendee().unwrap().attendee.unwrap().degree == row.degree
            &&& after.attendee().unwrap().attendee.unwrap().institution == row.institution
            &&& after.attendee().unwrap().attendee.unwrap().graduation_year == row.graduation_year
        }),
        flow.stage() is FindingExhibitor && reply is Exhibitor && reply->Exhibitor_0 is Some ==> ({
            let row = reply->Exhibitor_0.unwrap();
            &&& after.exhibitor() is Some
            &&& after.exhibitor().unwrap().id == flow.exhibitor_id()
            &&& after.exhibitor().unwrap().role == Role::Exhibitor
            &&& after.exhibitor().unwrap().name == row.name
            &&& after.exhibitor().unwrap().mail == row.mail
            &&& after.exhibitor().unwrap().attendee is None
            &&& after.exhibitor().unwrap().exhibitor is Some
            &&& after.exhibitor().unwrap().exhibitor.unwrap().user_id == flow.exhibitor_id()
            &&& after.exhibitor().unwrap().exhibitor.unwrap().company == row.company
        }),
        step matches Step::Finish(Ok(scan)) ==> ({
            &&& flow.claims().role == Role::Attendee ==> scan.initiator == flow.attendee()
                && scan.subject == flow.exhibitor()
            &&& flow.claims().role != Role::Attendee ==> scan.initiator == flow.exhibitor()
                && scan.subject == flow.attendee()
        }),
{
    reveal(ScanBadge::well_formed);
}

/// A scan is recorded only between the scanner and another user, the
/// owner of the badge, when an attendee scans an exhibitor or an exhibitor
/// an attendee.
pub proof fn law_scan_pairs(flow: ScanBadge, reply: Reply, after: ScanBadge, step: Step<Scan>)
    requires
        flow.well_formed(),
        flow.resumes(reply, after, step),
    ensures
        step matches Step::Run(Query::InsertScan { initiator, subject }) ==> {
            &&& initiator == flow.claims().subject
            &&& subject != initiator
            &&& after.owner() matches Some((owner, role)) && owner == subject && may_scan(
                flow.claims().role,
                role,
            )
        },
{
}

/// A scan is answered with the scanner as initiator and the badge owner as
/// subject, each with its role and profile.
pub proof fn law_scan_answer(flow: ScanBadge, reply: Reply, after: ScanBadge, step: Step<Scan>)
    requires
        flow.well_formed(),
        flow.resumes(reply, after, step),
    ensures
        step matches Step::Finish(Ok(scan)) ==> {
            &&& flow.owner() matches Some((owner, role)) && scan.subject_id == owner && owner
                != flow.claims().subject && may_scan(flow.claims().role, role) && (
            scan.subject matches Some(s) && s.id == owner && s.role == role)
            &&& scan.initiator_id == flow.claims().subject
            &&& scan.initiator matches Some(i) && i.id == flow.claims().subject && i.role
                == flow.claims().role
        },
{
    reveal(ScanBadge::well_formed);
}

/// Starts a scan of `badge` by the user the claims name. The transaction is
/// opened first.
pub fn scan_badge(claims: Claims, badge: u128) -> (r: (ScanBadge, Step<Scan>))
    ensures
        r.0.well_formed(),
        r.0.claims() == claims,
        r.0.badge() == badge,
        r.0.stage() is Opening,
        r.0.issued(r.1),
{
    (
        ScanBadge {
            claims,
            badge,
            stage: ScanStage::Opening,
            owner: None,
            scan: None,
            attendee: None,
            exhibitor: None,
        },
        Step::Run(Query::Begin),
    )
}

} // verus!
