use execut::auth::claims::authenticate;
use execut::auth::{credentials, Claims, Payload, EXPIRES_AT};
use execut::handlers::authorize;
use execut::store::{Query, Reply, Step};
use execut::users::{Badge, Role, Token};
use execut::{Error, Keys};

fn claims(subject: u128, role: Role) -> Claims {
    Claims { subject, expires_at: EXPIRES_AT, role }
}

#[test]
fn claims_are_written_as_the_token_payload() {
    let c = Claims { subject: 0x550e8400_e29b_41d4_a716_446655440000, expires_at: 2000000000, role: Role::Admin };
    assert_eq!(
        c.to_json(),
        r#"{"sub":"550e8400-e29b-41d4-a716-446655440000","exp":2000000000,"role":"admin"}"#
    );
    let c = Claims { subject: 1, expires_at: 5, role: Role::Exhibitor };
    assert_eq!(c.to_json(), r#"{"sub":"00000000-0000-0000-0000-000000000001","exp":5,"role":"exhibitor"}"#);
}

#[test]
fn keys_keep_their_secret() {
    let keys = Keys::new(b"secret");
    assert_eq!(keys.secret_bytes(), b"secret");
    assert_eq!(keys.duplicate().secret_bytes(), b"secret");
}

#[test]
fn a_signed_token_is_accepted_with_its_claims() {
    let keys = Keys::new(b"conference");
    let c = claims(42, Role::Attendee);
    let token = c.sign(&keys);
    assert_eq!(token.split('.').count(), 3);
    assert_eq!(token.split('.').next().unwrap(), "eyJ0eXAiOiJKV1QiLCJhbGciOiJIUzI1NiJ9");
    assert_eq!(authenticate(Some(&token), &keys).unwrap(), c.to_json());
}

#[test]
fn signing_depends_on_claims_and_secret() {
    let keys = Keys::new(b"conference");
    let a = claims(42, Role::Attendee).sign(&keys);
    let b = claims(43, Role::Attendee).sign(&keys);
    let c = claims(42, Role::Attendee).sign(&Keys::new(b"other"));
    assert_ne!(a, b);
    assert_ne!(a, c);
    assert_eq!(a, claims(42, Role::Attendee).sign(&keys));
}

#[test]
fn bad_tokens_are_refused() {
    let keys = Keys::new(b"conference");
    assert_eq!(authenticate(None, &keys), Err(Error::InvalidToken));
    assert_eq!(authenticate(Some("not.a.token"), &keys), Err(Error::InvalidToken));
    let token = claims(7, Role::Admin).sign(&Keys::new(b"other"));
    assert_eq!(authenticate(Some(&token), &keys), Err(Error::InvalidToken));
    let expired = Claims { subject: 7, expires_at: 1, role: Role::Admin }.sign(&keys);
    assert_eq!(authenticate(Some(&expired), &keys), Err(Error::InvalidToken));
}

fn payload() -> Payload {
    Payload { badge: Badge(9), token: Token("000000".to_string()) }
}

#[test]
fn sign_in_exchanges_badge_and_token_for_a_signed_token() {
    let keys = Keys::new(b"conference");
    let (flow, step) = authorize(&keys, payload());
    assert!(matches!(step, Step::Run(Query::Begin)));
    let (flow, step) = flow.resume(Reply::Done);
    match step {
        Step::Run(Query::FindCredentials { badge, token }) => {
            assert_eq!(badge, 9);
            assert_eq!(token, "000000");
        }
        other => panic!("unexpected {:?}", other),
    }
    let (flow, step) = flow.resume(Reply::Identity(Some((77, Role::Exhibitor))));
    match step {
        Step::Run(Query::UseToken { user, token }) => {
            assert_eq!(user, 77);
            assert_eq!(token, "000000");
        }
        other => panic!("unexpected {:?}", other),
    }
    let (flow, step) = flow.resume(Reply::Done);
    assert!(matches!(step, Step::Run(Query::Commit)));
    let (flow, step) = flow.resume(Reply::Done);
    assert!(flow.is_closed());
    match step {
        Step::Finish(Ok(response)) => {
            assert_eq!(response.role, Role::Exhibitor);
            assert_eq!(response.token, claims(77, Role::Exhibitor).sign(&keys));
            assert_eq!(authenticate(Some(&response.token), &keys).unwrap(), claims(77, Role::Exhibitor).to_json());
        }
        other => panic!("unexpected {:?}", other),
    }
}

#[test]
fn unknown_or_used_credentials_are_wrong() {
    let keys = Keys::new(b"conference");
    let (flow, _) = authorize(&keys, payload());
    let (flow, _) = flow.resume(Reply::Done);
    let (flow, step) = flow.resume(Reply::Identity(None));
    assert!(flow.is_closed());
    assert!(matches!(step, Step::Finish(Err(Error::WrongCredentials))));
}

#[test]
fn a_token_that_cannot_be_marked_is_wrong() {
    let keys = Keys::new(b"conference");
    let (flow, _) = authorize(&keys, payload());
    let (flow, _) = flow.resume(Reply::Done);
    let (flow, _) = flow.resume(Reply::Identity(Some((1, Role::Attendee))));
    let (_, step) = flow.resume(Reply::Failed);
    assert!(matches!(step, Step::Finish(Err(Error::WrongCredentials))));
}

#[test]
fn database_failures_are_internal() {
    let keys = Keys::new(b"conference");
    let (flow, _) = authorize(&keys, payload());
    let (_, step) = flow.resume(Reply::Failed);
    assert!(matches!(step, Step::Finish(Err(Error::Internal))));

    let (flow, _) = authorize(&keys, payload());
    let (flow, _) = flow.resume(Reply::Done);
    let (_, step) = flow.resume(Reply::Failed);
    assert!(matches!(step, Step::Finish(Err(Error::Internal))));

    let (flow, _) = authorize(&keys, payload());
    let (flow, _) = flow.resume(Reply::Done);
    let (flow, _) = flow.resume(Reply::Identity(Some((1, Role::Attendee))));
    let (flow, _) = flow.resume(Reply::Done);
    let (_, step) = flow.resume(Reply::Failed);
    assert!(matches!(step, Step::Finish(Err(Error::Internal))));
}

#[test]
fn the_seeded_admin_signs_in_with_badge_zero_and_token_000000() {
    let keys = Keys::new(b"conference");
    let payload = Payload { badge: Badge(0), token: Token("000000".to_string()) };
    let (flow, _) = authorize(&keys, payload);
    let (flow, step) = flow.resume(Reply::Done);
    assert!(matches!(&step, Step::Run(Query::FindCredentials { badge: 0, token }) if token == "000000"));
    let (flow, _) = flow.resume(Reply::Identity(Some((0, Role::Admin))));
    let (flow, _) = flow.resume(Reply::Done);
    let (_, step) = flow.resume(Reply::Done);
    match step {
        Step::Finish(Ok(response)) => {
            assert_eq!(response.role, Role::Admin);
            assert_eq!(
                authenticate(Some(&response.token), &keys).unwrap(),
                r#"{"sub":"00000000-0000-0000-0000-000000000000","exp":2000000000,"role":"admin"}"#
            );
        }
        other => panic!("unexpected {:?}", other),
    }
}

#[test]
fn the_token_may_come_from_the_query_string() {
    let p = credentials(Badge(0), None, Some("000000".to_string())).unwrap();
    assert_eq!((p.badge, p.token.0.as_str()), (Badge(0), "000000"));
    let p = credentials(Badge(3), Some("body".to_string()), Some("query".to_string())).unwrap();
    assert_eq!((p.badge, p.token.0.as_str()), (Badge(3), "body"));
    assert!(matches!(credentials(Badge(3), None, None), Err(Error::MissingCredentials)));
}

#[test]
fn readme_sign_in_with_the_token_in_the_query() {
    let keys = Keys::new(b"conference");
    let payload = credentials(Badge(0), None, Some("000000".to_string())).unwrap();
    let (flow, _) = authorize(&keys, payload);
    let (flow, step) = flow.resume(Reply::Done);
    assert!(matches!(&step, Step::Run(Query::FindCredentials { badge: 0, token }) if token == "000000"));
    let (flow, step) = flow.resume(Reply::Identity(Some((12, Role::Admin))));
    assert!(matches!(&step, Step::Run(Query::UseToken { user: 12, token }) if token == "000000"));
    let (flow, _) = flow.resume(Reply::Done);
    let (_, step) = flow.resume(Reply::Done);
    match step {
        Step::Finish(Ok(response)) => {
            assert_eq!(response.role, Role::Admin);
            assert_eq!(response.token, claims(12, Role::Admin).sign(&keys));
        }
        other => panic!("unexpected {:?}", other),
    }
}

#[test]
fn a_used_token_does_not_sign_in_again() {
    let keys = Keys::new(b"conference");
    let (flow, _) = authorize(&keys, payload());
    let (flow, _) = flow.resume(Reply::Done);
    let (flow, step) = flow.resume(Reply::Identity(Some((5, Role::Attendee))));
    assert!(matches!(&step, Step::Run(Query::UseToken { user: 5, .. })));
    let (flow, _) = flow.resume(Reply::Done);
    let (_, step) = flow.resume(Reply::Done);
    assert!(matches!(step, Step::Finish(Ok(_))));
    // The token is now used: the lookup finds nothing.
    let (again, _) = authorize(&keys, payload());
    let (again, _) = again.resume(Reply::Done);
    let (_, step) = again.resume(Reply::Identity(None));
    assert!(matches!(step, Step::Finish(Err(Error::WrongCredentials))));
}

#[test]
fn a_signed_token_checks_out_with_its_claims() {
    let keys = Keys::new(b"conference");
    let c = claims(0x0123_4567_89ab_cdef_0123_4567_89ab_cdef, Role::Exhibitor);
    assert_eq!(authenticate(Some(&c.sign(&keys)), &keys), Ok(c.to_json()));
    assert_eq!(authenticate(Some(&c.sign(&keys)), &Keys::new(b"")), Err(Error::InvalidToken));
}
