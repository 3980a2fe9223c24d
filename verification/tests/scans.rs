use execut::auth::{Claims, EXPIRES_AT};
use execut::handlers::{get_scans, scan_badge};
use execut::store::{AttendeeRow, ExhibitorRow, ListedScan, Query, Reply, Step};
use execut::users::scans::can_scan;
use execut::users::{Attendee, Exhibitor, Role, User};
use execut::users::scans::Scan;
use execut::Error;

fn claims(subject: u128, role: Role) -> Claims {
    Claims { subject, expires_at: EXPIRES_AT, role }
}

fn attendee_row() -> AttendeeRow {
    AttendeeRow {
        name: "Ann".to_string(),
        mail: "a@x.nl".to_string(),
        linkedin: Some("in/ann".to_string()),
        study: None,
        degree: None,
        institution: None,
        graduation_year: Some("2026".to_string()),
    }
}

fn exhibitor_row() -> ExhibitorRow {
    ExhibitorRow { name: "Eve".to_string(), mail: "e@acme.nl".to_string(), company: "Acme".to_string() }
}

#[test]
fn only_attendees_and_exhibitors_scan_each_other() {
    assert!(can_scan(Role::Attendee, Role::Exhibitor));
    assert!(can_scan(Role::Exhibitor, Role::Attendee));
    assert!(!can_scan(Role::Attendee, Role::Attendee));
    assert!(!can_scan(Role::Exhibitor, Role::Exhibitor));
    assert!(!can_scan(Role::Admin, Role::Attendee));
    assert!(!can_scan(Role::Attendee, Role::Admin));
}

#[test]
fn scan_new_keeps_its_fields() {
    let s = Scan::new(1, 2, None, 3, None, true, 44);
    assert_eq!((s.id, s.subject_id, s.initiator_id, s.is_expunged, s.scanned_at), (1, 2, 3, true, 44));
    assert!(s.subject.is_none() && s.initiator.is_none());
    let a = Attendee::new(5, None, Some("CS".to_string()), None, None, None);
    assert_eq!(a.study.as_deref(), Some("CS"));
    let e = Exhibitor::new(6, "Acme".to_string());
    assert_eq!((e.user_id, e.company.as_str()), (6, "Acme"));
    let u = User::new(6, Role::Exhibitor, "Eve".to_string(), "e@acme.nl".to_string(), None, Some(e));
    assert_eq!(u.exhibitor.unwrap().company, "Acme");
}

fn start_scan(me: u128, role: Role, owner: Option<(u128, Role)>) -> Step<Scan> {
    let (flow, step) = scan_badge(claims(me, role), 99);
    assert!(matches!(step, Step::Run(Query::Begin)));
    let (flow, step) = flow.resume(Reply::Done);
    assert!(matches!(step, Step::Run(Query::FindBadgeOwner { badge: 99 })));
    let (_, step) = flow.resume(Reply::Identity(owner));
    step
}

#[test]
fn nobody_scans_their_own_badge() {
    assert!(matches!(start_scan(7, Role::Attendee, Some((7, Role::Exhibitor))), Step::Finish(Err(Error::SelfScan))));
}

#[test]
fn only_attendee_exhibitor_pairs_are_scanned() {
    assert!(matches!(start_scan(7, Role::Attendee, Some((8, Role::Attendee))), Step::Finish(Err(Error::Unauthorized))));
    assert!(matches!(start_scan(7, Role::Admin, Some((8, Role::Attendee))), Step::Finish(Err(Error::Unauthorized))));
    assert!(matches!(start_scan(7, Role::Exhibitor, Some((8, Role::Exhibitor))), Step::Finish(Err(Error::Unauthorized))));
}

#[test]
fn unknown_badges_are_reported() {
    assert!(matches!(start_scan(7, Role::Attendee, None), Step::Finish(Err(Error::UnknownBadge))));
    let (flow, _) = scan_badge(claims(7, Role::Attendee), 99);
    let (flow, _) = flow.resume(Reply::Done);
    let (_, step) = flow.resume(Reply::Failed);
    assert!(matches!(step, Step::Finish(Err(Error::DuplicateScan))));
}

#[test]
fn an_attendee_scanning_an_exhibitor_is_the_initiator() {
    let (flow, _) = scan_badge(claims(7, Role::Attendee), 99);
    let (flow, _) = flow.resume(Reply::Done);
    let (flow, step) = flow.resume(Reply::Identity(Some((8, Role::Exhibitor))));
    assert!(matches!(step, Step::Run(Query::InsertScan { initiator: 7, subject: 8 })));
    let (flow, step) = flow.resume(Reply::Stamp(Some((500, 1_700_000_000_000_000))));
    assert!(matches!(step, Step::Run(Query::FindAttendee { user: 7 })));
    let (flow, step) = flow.resume(Reply::Attendee(Some(attendee_row())));
    assert!(matches!(step, Step::Run(Query::FindExhibitor { user: 8 })));
    let (flow, step) = flow.resume(Reply::Exhibitor(Some(exhibitor_row())));
    assert!(matches!(step, Step::Run(Query::Commit)));
    let (flow, step) = flow.resume(Reply::Done);
    assert!(flow.is_closed());
    let scan = match step {
        Step::Finish(Ok(scan)) => scan,
        other => panic!("unexpected {:?}", other),
    };
    assert_eq!((scan.id, scan.initiator_id, scan.subject_id, scan.is_expunged), (500, 7, 8, false));
    assert_eq!(scan.scanned_at, 1_700_000_000_000_000);
    let initiator = scan.initiator.unwrap();
    assert_eq!((initiator.id, initiator.role, initiator.name.as_str()), (7, Role::Attendee, "Ann"));
    let profile = initiator.attendee.unwrap();
    assert_eq!((profile.user_id, profile.linkedin.as_deref(), profile.graduation_year.as_deref()), (7, Some("in/ann"), Some("2026")));
    let subject = scan.subject.unwrap();
    assert_eq!((subject.id, subject.role), (8, Role::Exhibitor));
    assert_eq!(subject.exhibitor.unwrap().company, "Acme");
}

#[test]
fn an_exhibitor_scanning_an_attendee_is_the_initiator() {
    let (flow, _) = scan_badge(claims(8, Role::Exhibitor), 99);
    let (flow, _) = flow.resume(Reply::Done);
    let (flow, _) = flow.resume(Reply::Identity(Some((7, Role::Attendee))));
    let (flow, step) = flow.resume(Reply::Stamp(Some((501, 3))));
    assert!(matches!(step, Step::Run(Query::FindAttendee { user: 7 })));
    let (flow, step) = flow.resume(Reply::Attendee(Some(attendee_row())));
    assert!(matches!(step, Step::Run(Query::FindExhibitor { user: 8 })));
    let (flow, _) = flow.resume(Reply::Exhibitor(Some(exhibitor_row())));
    let (_, step) = flow.resume(Reply::Done);
    let scan = match step {
        Step::Finish(Ok(scan)) => scan,
        other => panic!("unexpected {:?}", other),
    };
    assert_eq!((scan.initiator_id, scan.subject_id), (8, 7));
    assert_eq!(scan.initiator.unwrap().role, Role::Exhibitor);
    assert_eq!(scan.subject.unwrap().role, Role::Attendee);
}

#[test]
fn a_scan_already_made_is_a_duplicate() {
    let (flow, _) = scan_badge(claims(7, Role::Attendee), 99);
    let (flow, _) = flow.resume(Reply::Done);
    let (flow, _) = flow.resume(Reply::Identity(Some((8, Role::Exhibitor))));
    let (_, step) = flow.resume(Reply::Failed);
    assert!(matches!(step, Step::Finish(Err(Error::DuplicateScan))));
}

#[test]
fn a_scan_without_a_row_is_unknown() {
    let (flow, _) = scan_badge(claims(7, Role::Attendee), 99);
    let (flow, _) = flow.resume(Reply::Done);
    let (flow, _) = flow.resume(Reply::Identity(Some((8, Role::Exhibitor))));
    let (_, step) = flow.resume(Reply::Stamp(None));
    assert!(matches!(step, Step::Finish(Err(Error::UnknownScan))));
}

#[test]
fn missing_users_of_a_scan_are_unknown() {
    let (flow, _) = scan_badge(claims(7, Role::Attendee), 99);
    let (flow, _) = flow.resume(Reply::Done);
    let (flow, _) = flow.resume(Reply::Identity(Some((8, Role::Exhibitor))));
    let (flow, _) = flow.resume(Reply::Stamp(Some((1, 1))));
    let (_, step) = flow.resume(Reply::Attendee(None));
    assert!(matches!(step, Step::Finish(Err(Error::UnknownUser))));
}

fn listed(scan: u128, user: u128) -> ListedScan {
    ListedScan {
        scan,
        user,
        role: Role::Attendee,
        name: "Ann".to_string(),
        mail: "a@x.nl".to_string(),
        linkedin: None,
        study: None,
        degree: Some("BSc".to_string()),
        institution: None,
        graduation_year: None,
        created_at: 10,
    }
}

#[test]
fn only_exhibitors_list_scans_after_the_transaction_opens() {
    let (flow, step) = get_scans(claims(7, Role::Attendee));
    assert!(matches!(step, Step::Run(Query::Begin)));
    let (flow, step) = flow.resume(Reply::Done);
    assert!(flow.is_closed());
    assert!(matches!(step, Step::Finish(Err(Error::Unauthorized))));
    let (_, step) = get_scans(claims(7, Role::Attendee)).0.resume(Reply::Failed);
    assert!(matches!(step, Step::Finish(Err(Error::Internal))));
}

#[test]
fn an_exhibitor_lists_its_scans() {
    let (flow, _) = get_scans(claims(8, Role::Exhibitor));
    let (flow, step) = flow.resume(Reply::Done);
    assert!(matches!(step, Step::Run(Query::FindExhibitor { user: 8 })));
    let (flow, step) = flow.resume(Reply::Exhibitor(Some(exhibitor_row())));
    assert!(matches!(step, Step::Run(Query::ActiveScans { initiator: 8 })));
    let (flow, step) = flow.resume(Reply::Listing(vec![listed(1, 20), listed(2, 21)]));
    assert!(matches!(step, Step::Run(Query::PassiveScans { subject: 8 })));
    let (flow, step) = flow.resume(Reply::Listing(vec![listed(3, 22)]));
    assert!(matches!(step, Step::Run(Query::Commit)));
    let (_, step) = flow.resume(Reply::Done);
    let scans = match step {
        Step::Finish(Ok(scans)) => scans,
        other => panic!("unexpected {:?}", other),
    };
    assert_eq!(scans.active.len(), 2);
    assert_eq!(scans.passive.len(), 1);
    let a = &scans.active[1];
    assert_eq!((a.id, a.subject_id, a.initiator_id), (2, 21, 8));
    assert_eq!(a.subject.as_ref().unwrap().attendee.as_ref().unwrap().degree.as_deref(), Some("BSc"));
    assert_eq!(a.initiator.as_ref().unwrap().exhibitor.as_ref().unwrap().company, "Acme");
    let p = &scans.passive[0];
    assert_eq!((p.id, p.subject_id, p.initiator_id), (3, 22, 8));
    assert_eq!(p.subject.as_ref().unwrap().id, 8);
    assert_eq!(p.initiator.as_ref().unwrap().id, 22);
}

#[test]
fn an_unknown_exhibitor_is_reported() {
    let (flow, _) = get_scans(claims(8, Role::Exhibitor));
    let (flow, _) = flow.resume(Reply::Done);
    let (_, step) = flow.resume(Reply::Exhibitor(None));
    assert!(matches!(step, Step::Finish(Err(Error::UnknownUser))));
}
