use execut::handlers::health_check;
use execut::Error;

#[test]
fn every_error_has_its_status_and_message() {
    let table = [
        (Error::DuplicateBadge, 422, "duplicate badge"),
        (Error::DuplicateToken, 422, "duplicate token"),
        (Error::DuplicateScan, 422, "duplicate scan"),
        (Error::InvalidRequest, 422, "invalid request"),
        (Error::InvalidToken, 401, "invalid token"),
        (Error::MissingCredentials, 422, "no credentials found"),
        (Error::SelfScan, 422, "self scan"),
        (Error::Unauthorized, 401, "not authorized"),
        (Error::UnknownBadge, 404, "unknown badge"),
        (Error::UnknownUser, 404, "unknown user"),
        (Error::WrongCredentials, 422, "wrong credentials"),
        (Error::Internal, 500, "internal error"),
        (Error::UnknownScan, 500, "internal error"),
    ];
    for (error, status, detail) in table {
        assert_eq!(error.status(), status, "{:?}", error);
        assert_eq!(error.detail(), detail, "{:?}", error);
    }
}

#[test]
fn only_server_faults_are_internal() {
    for e in [Error::Internal, Error::UnknownScan] {
        assert_eq!(e.status(), 500);
    }
    for e in [Error::SelfScan, Error::Unauthorized, Error::UnknownBadge, Error::WrongCredentials] {
        assert!(e.status() >= 400 && e.status() < 500);
    }
}

#[test]
fn health_check_is_ok() {
    assert!(health_check().is_ok());
}
