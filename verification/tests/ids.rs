use execut::auth::Claims;
use execut::ids::append_decimal;
use execut::users::Role;

fn subject_text(subject: u128) -> String {
    let json = Claims { subject, expires_at: 0, role: Role::Admin }.to_json();
    json["{\"sub\":\"".len().."{\"sub\":\"".len() + 36].to_string()
}

#[test]
fn uuid_is_printed_hyphenated_in_lowercase() {
    assert_eq!(subject_text(0x550e8400_e29b_41d4_a716_446655440000), "550e8400-e29b-41d4-a716-446655440000");
    assert_eq!(subject_text(0), "00000000-0000-0000-0000-000000000000");
    assert_eq!(subject_text(u128::MAX), "ffffffff-ffff-ffff-ffff-ffffffffffff");
}

#[test]
fn roles_are_named_in_lowercase() {
    for (role, name) in [(Role::Admin, "admin"), (Role::Exhibitor, "exhibitor"), (Role::Attendee, "attendee")] {
        assert_eq!(role.as_str(), name);
        assert_eq!(Role::parse(name), Some(role));
    }
    assert_eq!(Role::parse("Admin"), None);
    assert_eq!(Role::parse(""), None);
}

#[test]
fn decimals_are_printed_without_leading_zeros() {
    for (n, text) in [(0u64, "0"), (7, "7"), (10, "10"), (2000000000, "2000000000"), (u64::MAX, "18446744073709551615")] {
        let mut s = String::from("x=");
        append_decimal(&mut s, n);
        assert_eq!(s, format!("x={}", text));
    }
}
