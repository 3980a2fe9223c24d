use execut::auth::{Claims, EXPIRES_AT};
use execut::handlers::{populate, seed_attendees, seed_exhibitors};
use execut::store::{Query, Reply, Step};
use execut::users::records::{read_records, row_to_record, SeedKind};
use execut::users::seeding::{Response, SeedFlow};
use execut::users::Role;
use execut::Error;

const BADGE_A: &str = "550e8400-e29b-41d4-a716-446655440000";
const BADGE_B: &str = "550e8400-e29b-41d4-a716-446655440001";

fn admin() -> Claims {
    Claims { subject: 1, expires_at: EXPIRES_AT, role: Role::Admin }
}

#[test]
fn attendee_rows_are_read_by_their_headers() {
    let csv = format!(
        "token,badge,mail,name,study,linkedin,extra\nt1,{},a@x.nl,Ann,,in/ann,whatever\nt2,{},b@x.nl,Bob,CS,,\n",
        BADGE_A, BADGE_B
    );
    let (records, complete) = read_records(SeedKind::Attendees, csv.as_bytes());
    assert!(complete);
    assert_eq!(records.len(), 2);
    assert_eq!(records[0].name.as_deref(), Some("Ann"));
    assert_eq!(records[0].mail.as_deref(), Some("a@x.nl"));
    assert_eq!(records[0].study, None);
    assert_eq!(records[0].linkedin.as_deref(), Some("in/ann"));
    assert_eq!(records[0].degree, None);
    assert_eq!(records[0].badge, 0x550e8400_e29b_41d4_a716_446655440000);
    assert_eq!(records[0].token, "t1");
    assert_eq!(records[0].role, Role::Attendee);
    assert_eq!(records[1].study.as_deref(), Some("CS"));
    assert_eq!(records[1].linkedin, None);
}

#[test]
fn reading_stops_at_the_first_bad_row() {
    let csv = format!("name,mail,badge,token\nAnn,a@x.nl,{},t1\nBob,b@x.nl,not-a-uuid,t2\nCy,c@x.nl,{},t3\n", BADGE_A, BADGE_B);
    let (records, complete) = read_records(SeedKind::Attendees, csv.as_bytes());
    assert!(!complete);
    assert_eq!(records.len(), 1);
    assert_eq!(records[0].token, "t1");
}

#[test]
fn required_columns_must_be_there() {
    let csv = format!("name,badge,token\nAnn,{},t1\n", BADGE_A);
    let (records, complete) = read_records(SeedKind::Attendees, csv.as_bytes());
    assert!(!complete);
    assert!(records.is_empty());
    let csv = format!("name,mail,company,badge\nAnn,a@x.nl,Acme,{}\n", BADGE_A);
    let (records, complete) = read_records(SeedKind::Exhibitors, csv.as_bytes());
    assert!(!complete);
    assert!(records.is_empty());
}

#[test]
fn a_column_named_twice_spoils_every_row() {
    let csv = format!("name,name,mail,badge,token\nAnn,Ann,a@x.nl,{},t1\n", BADGE_A);
    let (records, complete) = read_records(SeedKind::Attendees, csv.as_bytes());
    assert!(!complete);
    assert!(records.is_empty());
}

#[test]
fn rows_of_the_wrong_length_are_bad() {
    let csv = format!("name,mail,badge,token\nAnn,a@x.nl,{},t1,extra\n", BADGE_A);
    let (records, complete) = read_records(SeedKind::Attendees, csv.as_bytes());
    assert!(!complete);
    assert!(records.is_empty());
}

#[test]
fn empty_upload_has_no_records() {
    let (records, complete) = read_records(SeedKind::Population, b"");
    assert!(complete);
    assert!(records.is_empty());
    let (records, complete) = read_records(SeedKind::Population, b"role,badge,token\n");
    assert!(complete);
    assert!(records.is_empty());
}

#[test]
fn population_rows_name_their_role() {
    let csv = format!(
        "role,name,company,badge,token\nexhibitor,Eve,Acme,{},t1\nadmin,,,{},t2\nAdmin,,,{},t3\n",
        BADGE_A, BADGE_B, BADGE_A
    );
    let (records, complete) = read_records(SeedKind::Population, csv.as_bytes());
    assert!(!complete);
    assert_eq!(records.len(), 2);
    assert_eq!(records[0].role, Role::Exhibitor);
    assert_eq!(records[0].company.as_deref(), Some("Acme"));
    assert_eq!(records[0].mail, None);
    assert_eq!(records[1].role, Role::Admin);
    assert_eq!(records[1].name, None);
}

#[test]
fn badges_are_read_in_every_uuid_form() {
    let v: u128 = 0x550e8400_e29b_41d4_a716_446655440000;
    for form in [
        "550e8400-e29b-41d4-a716-446655440000",
        "550e8400e29b41d4a716446655440000",
        "550E8400-E29B-41D4-A716-446655440000",
        "{550e8400-e29b-41d4-a716-446655440000}",
        "urn:uuid:550e8400-e29b-41d4-a716-446655440000",
    ] {
        let csv = format!("name,mail,badge,token\nAnn,a@x.nl,{},t1\n", form);
        let (records, complete) = read_records(SeedKind::Attendees, csv.as_bytes());
        assert!(complete, "{}", form);
        assert_eq!(records[0].badge, v);
    }
    for bad in ["", "550e8400-e29b-41d4-a716-44665544000g", "550e8400"] {
        let csv = format!("name,mail,badge,token\nAnn,a@x.nl,{},t1\n", bad);
        let (records, complete) = read_records(SeedKind::Attendees, csv.as_bytes());
        assert!(!complete, "{}", bad);
        assert!(records.is_empty());
    }
}

#[test]
fn rows_are_read_by_position_without_headers() {
    let row: Vec<String> = vec!["Ann", "a@x.nl", "Acme", BADGE_A, "t1", "more"].into_iter().map(String::from).collect();
    let rec = row_to_record(SeedKind::Exhibitors, &None, &row).unwrap();
    assert_eq!(rec.company.as_deref(), Some("Acme"));
    assert_eq!(rec.token, "t1");
    let short: Vec<String> = vec!["Ann", "a@x.nl", "Acme", BADGE_A].into_iter().map(String::from).collect();
    assert!(row_to_record(SeedKind::Exhibitors, &None, &short).is_none());
}

#[test]
fn only_admins_seed() {
    for role in [Role::Attendee, Role::Exhibitor] {
        let claims = Claims { subject: 1, expires_at: EXPIRES_AT, role };
        for (flow, step) in [seed_attendees(&claims), seed_exhibitors(&claims), populate(&claims)] {
            assert!(flow.is_closed());
            assert!(matches!(step, Step::Finish(Err(Error::Unauthorized))));
        }
    }
    let (flow, step) = populate(&admin());
    assert!(!flow.is_closed());
    assert!(matches!(step, Step::Run(Query::ReadBody)));
}

/// Runs a flow, answering every statement with `Done` (and ids where one is
/// asked for), and returns the statements run and the answer.
fn run(mut flow: SeedFlow, mut step: Step<Response>, body: &str, company: Option<u128>) -> (Vec<Query>, execut::Result<Vec<u128>>) {
    let mut queries = Vec::new();
    let mut next_id = 100u128;
    loop {
        match step {
            Step::Finish(answer) => return (queries, answer.map(|r| r.users)),
            Step::Run(q) => {
                let reply = match &q {
                    Query::ReadBody => Reply::Body(body.as_bytes().to_vec()),
                    Query::FindCompany { .. } => Reply::Id(company),
                    Query::InsertRoleUser { .. } => {
                        next_id += 1;
                        Reply::Id(Some(next_id))
                    }
                    _ => Reply::Done,
                };
                queries.push(q);
                let (f, s) = flow.resume(reply);
                flow = f;
                step = s;
            }
        }
    }
}

#[test]
fn attendees_are_created_one_transaction_each() {
    let (flow, step) = seed_attendees(&admin());
    let body = format!("name,mail,badge,token\nAnn,a@x.nl,{},t1\nBob,b@x.nl,{},t2\n", BADGE_A, BADGE_B);
    let (queries, answer) = run(flow, step, &body, None);
    let ids = answer.unwrap();
    assert_eq!(ids.len(), 2);
    assert_ne!(ids[0], ids[1]);
    assert_eq!((ids[0] >> 76) & 0xf, 7);
    assert_eq!((ids[1] >> 76) & 0xf, 7);
    assert_eq!(queries.len(), 1 + 2 * 6);
    assert!(matches!(queries[1], Query::Begin));
    match &queries[2] {
        Query::InsertAttendeeUser { id, name, mail } => {
            assert_eq!(*id, ids[0]);
            assert_eq!(name.as_deref(), Some("Ann"));
            assert_eq!(mail.as_deref(), Some("a@x.nl"));
        }
        q => panic!("unexpected {:?}", q),
    }
    assert!(matches!(&queries[3], Query::InsertAttendee { attendee } if attendee.user_id == ids[0]));
    assert!(matches!(&queries[4], Query::InsertBadge { user, badge } if *user == ids[0] && *badge == 0x550e8400_e29b_41d4_a716_446655440000));
    assert!(matches!(&queries[5], Query::InsertToken { user, token } if *user == ids[0] && token == "t1"));
    assert!(matches!(queries[6], Query::Commit));
    assert!(matches!(&queries[8], Query::InsertAttendeeUser { id, .. } if *id == ids[1]));
}

#[test]
fn a_bad_row_is_refused_after_the_rows_before_it() {
    let (flow, step) = seed_attendees(&admin());
    let body = format!("name,mail,badge,token\nAnn,a@x.nl,{},t1\nBob,b@x.nl,oops,t2\n", BADGE_A);
    let (queries, answer) = run(flow, step, &body, None);
    assert_eq!(answer, Err(Error::InvalidRequest));
    assert_eq!(queries.iter().filter(|q| matches!(q, Query::Commit)).count(), 1);
}

#[test]
fn exhibitors_of_a_known_company_join_its_user() {
    let (flow, step) = seed_exhibitors(&admin());
    let body = format!("name,mail,company,badge,token\nEve,e@acme.nl,Acme,{},t1\n", BADGE_A);
    let (queries, answer) = run(flow, step, &body, Some(5));
    assert_eq!(answer, Ok(vec![5]));
    assert!(matches!(&queries[2], Query::FindCompany { company } if company.as_deref() == Some("Acme")));
    assert!(matches!(&queries[3], Query::InsertBadge { user: 5, .. }));
    assert_eq!(queries.len(), 6);
}

#[test]
fn exhibitors_of_a_new_company_get_a_user_and_profile() {
    let (flow, step) = seed_exhibitors(&admin());
    let body = format!("name,mail,company,badge,token\nEve,e@acme.nl,Acme,{},t1\n", BADGE_A);
    let (queries, answer) = run(flow, step, &body, None);
    let ids = answer.unwrap();
    assert!(matches!(&queries[3], Query::InsertExhibitorUser { id, .. } if *id == ids[0]));
    assert!(matches!(&queries[4], Query::InsertExhibitor { user, company } if *user == ids[0] && company.as_deref() == Some("Acme")));
    assert_eq!(queries.len(), 8);
}

#[test]
fn population_creates_profiles_by_role() {
    let (flow, step) = populate(&admin());
    let body = format!(
        "role,name,mail,company,badge,token\nattendee,Ann,a@x.nl,,{},t1\nadmin,,,,{},t2\nexhibitor,,,Acme,{},t3\n",
        BADGE_A, BADGE_B, BADGE_A
    );
    let (queries, answer) = run(flow, step, &body, None);
    assert_eq!(answer, Ok(vec![101, 102, 103]));
    assert!(matches!(&queries[2], Query::InsertRoleUser { role: Role::Attendee }));
    assert!(matches!(&queries[3], Query::InsertAttendeeContact { attendee, name, .. } if attendee.user_id == 101 && name.as_deref() == Some("Ann")));
    assert!(matches!(&queries[8], Query::InsertRoleUser { role: Role::Admin }));
    assert!(matches!(&queries[9], Query::InsertBadge { user: 102, .. }));
    assert!(matches!(&queries[14], Query::InsertExhibitor { user: 103, company } if company.as_deref() == Some("Acme")));
}

#[test]
fn failing_statements_are_answered_by_their_error() {
    let body = format!("name,mail,badge,token\nAnn,a@x.nl,{},t1\n", BADGE_A);
    // Fail the n-th statement after the body and check the error.
    let expected = [Error::Internal, Error::Internal, Error::Internal, Error::DuplicateBadge, Error::DuplicateToken, Error::Internal];
    for (n, error) in expected.iter().enumerate() {
        let (mut flow, _) = seed_attendees(&admin());
        let (f, mut step) = flow.resume(Reply::Body(body.as_bytes().to_vec()));
        flow = f;
        for _ in 0..n {
            let (f, s) = flow.resume(Reply::Done);
            flow = f;
            step = s;
        }
        assert!(matches!(step, Step::Run(_)));
        let (flow, step) = flow.resume(Reply::Failed);
        assert!(flow.is_closed());
        match step {
            Step::Finish(Err(e)) => assert_eq!(e, *error),
            other => panic!("unexpected {:?}", other),
        }
    }
}

#[test]
fn an_unreadable_body_is_internal() {
    let (flow, _) = seed_exhibitors(&admin());
    let (_, step) = flow.resume(Reply::Failed);
    assert!(matches!(step, Step::Finish(Err(Error::Internal))));
}
