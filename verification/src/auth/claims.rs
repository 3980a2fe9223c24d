use vstd::prelude::*;

use crate::auth::jwt::{check_token, jwt_signed, jwt_verified, sign_payload};
use crate::auth::keys::Keys;
use crate::errors::{Error, Result};
use crate::ids::{append_decimal, append_str, decimal_text, format_uuid, uuid_text};
use crate::users::{role_named, role_text, Role};

verus! {

/// What a signed token says of its holder.
#[derive(Clone, Copy, Debug)]
pub struct Claims {
    /// The user (`sub`).
    pub subject: u128,
    /// When the token expires, in seconds since the Unix epoch (`exp`).
    pub expires_at: usize,
    /// The user's role.
    pub role: Role,
}

/// The JSON object that a token carries for its claims:
/// `{"sub":"<uuid>","exp":<seconds>,"role":"<role>"}`.
pub open spec fn claims_json(c: Claims) -> Seq<char> {
    "{\"sub\":\""@ + uuid_text(c.subject) + "\",\"exp\":"@ + decimal_text(c.expires_at as nat)
        + ",\"role\":\""@ + role_text(c.role) + "\"}"@
}

/// Each role is written under its own name, and that name reads back as the
/// role.
pub proof fn law_role_names_read_back(r: Role)
    ensures
        role_named(role_text(r)) == Some(r),
{
    reveal_strlit("admin");
    reveal_strlit("exhibitor");
    reveal_strlit("attendee");
    assert("admin"@.len() == 5);
    assert("exhibitor"@.len() == 9);
    assert("attendee"@.len() == 8);
    assert("exhibitor"@ != "admin"@);
    assert("attendee"@ != "admin"@);
    assert("attendee"@ != "exhibitor"@);
}

/// The JSON a token carries names the claims it was made from: it opens
/// with the subject's UUID under `sub`, then the expiry in decimal under
/// `exp`, and ends with the claims' own role, by its name, under `role`.
pub proof fn law_claims_json_names_its_claims(c: Claims)
    ensures
        exists|rest: Seq<char>|
            claims_json(c) == "{\"sub\":\""@ + uuid_text(c.subject) + "\",\"exp\":"@ + decimal_text(
                c.expires_at as nat,
            ) + rest,
        exists|front: Seq<char>| claims_json(c) == front + ",\"role\":\""@ + role_text(c.role) + "\"}"@,
        role_named(role_text(c.role)) == Some(c.role),
{
    let rest = ",\"role\":\""@ + role_text(c.role) + "\"}"@;
    assert(claims_json(c) =~= "{\"sub\":\""@ + uuid_text(c.subject) + "\",\"exp\":"@ + decimal_text(
        c.expires_at as nat,
    ) + rest);
    let front = "{\"sub\":\""@ + uuid_text(c.subject) + "\",\"exp\":"@ + decimal_text(
        c.expires_at as nat,
    );
    assert(claims_json(c) == front + ",\"role\":\""@ + role_text(c.role) + "\"}"@);
    law_role_names_read_back(c.role);
}

/// The text that closes a claims object whose role is `r`:
/// `,"role":"<name>"}`.
pub open spec fn role_field(r: Role) -> Seq<char> {
    ",\"role\":\""@ + role_text(r) + "\"}"@
}

/// Whether `s` ends with `t`.
pub open spec fn ends_with(s: Seq<char>, t: Seq<char>) -> bool {
    t.len() <= s.len() && s.subrange(s.len() - t.len(), s.len() as int) == t
}

/// The role that a claims object names in its closing `role` field, read
/// from the text alone.
pub open spec fn role_read_back(json: Seq<char>) -> Option<Role> {
    if ends_with(json, role_field(Role::Admin)) {
        Some(Role::Admin)
    } else if ends_with(json, role_field(Role::Exhibitor)) {
        Some(Role::Exhibitor)
    } else if ends_with(json, role_field(Role::Attendee)) {
        Some(Role::Attendee)
    } else {
        None
    }
}

/// Reading the role back from the JSON a token carries gives the role of
/// the claims it was made from, for every role.
pub proof fn law_role_reads_back_from_claims_json(c: Claims)
    ensures
        role_read_back(claims_json(c)) == Some(c.role),
{
    reveal_strlit("admin");
    reveal_strlit("exhibitor");
    reveal_strlit("attendee");
    reveal_strlit(",\"role\":\"");
    reveal_strlit("\"}");
    let json = claims_json(c);
    let front = "{\"sub\":\""@ + uuid_text(c.subject) + "\",\"exp\":"@ + decimal_text(
        c.expires_at as nat,
    );
    assert(json =~= front + role_field(c.role));
    assert(json.subrange(json.len() - role_field(c.role).len(), json.len() as int) =~= role_field(
        c.role,
    ));
    assert forall|r: Role| #[trigger] ends_with(json, role_field(r)) implies r == c.role by {
        let t = role_field(r);
        let k = json.len() - 3;
        assert(t[t.len() - 3] == json.subrange(json.len() - t.len(), json.len() as int)[t.len() - 3]);
        assert(json[k] == t[t.len() - 3]);
        assert(json[k] == role_field(c.role)[role_field(c.role).len() - 3]);
        assert(role_field(Role::Admin)[role_field(Role::Admin).len() - 3] == 'n');
        assert(role_field(Role::Exhibitor)[role_field(Role::Exhibitor).len() - 3] == 'r');
        assert(role_field(Role::Attendee)[role_field(Role::Attendee).len() - 3] == 'e');
    }
}

/// Claims that differ only in their role are written differently: the role
/// a token carries is the role of the claims it was made from.
pub proof fn law_claims_json_tells_roles_apart(c1: Claims, c2: Claims)
    requires
        c1.subject == c2.subject,
        c1.expires_at == c2.expires_at,
        claims_json(c1) == claims_json(c2),
    ensures
        c1.role == c2.role,
{
    let front = "{\"sub\":\""@ + uuid_text(c1.subject) + "\",\"exp\":"@ + decimal_text(
        c1.expires_at as nat,
    ) + ",\"role\":\""@;
    let t1 = role_text(c1.role);
    let t2 = role_text(c2.role);
    let tail = "\"}"@;
    assert(claims_json(c1) == front + t1 + tail);
    assert(claims_json(c2) == front + t2 + tail);
    assert((front + t1 + tail).len() == (front + t2 + tail).len());
    assert(t1.len() == t2.len());
    assert(t1 =~= (front + t1 + tail).subrange(front.len() as int, (front.len() + t1.len()) as int));
    assert(t2 =~= (front + t2 + tail).subrange(front.len() as int, (front.len() + t2.len()) as int));
    law_role_names_read_back(c1.role);
    law_role_names_read_back(c2.role);
}

impl Claims {
    /// The claims as the JSON object a token carries.
    pub fn to_json(&self) -> (json: String)
        ensures
            json@ == claims_json(*self),
    {
        let mut json = String::new();
        append_str(&mut json, "{\"sub\":\"");
        let subject = format_uuid(self.subject);
        append_str(&mut json, subject.as_str());
        append_str(&mut json, "\",\"exp\":");
        append_decimal(&mut json, self.expires_at as u64);
        append_str(&mut json, ",\"role\":\"");
        append_str(&mut json, self.role.as_str());
        append_str(&mut json, "\"}");
        json
    }

    /// Signs the claims into a token (HS256 with the keys' secret). The
    /// token, checked with the same secret, gives these claims back.
    pub fn sign(&self, keys: &Keys) -> (token: String)
        ensures
            token@ == jwt_signed(claims_json(*self), keys.secret()),
            jwt_verified(token@, keys.secret()) == Some(claims_json(*self)),
    {
        let json = self.to_json();
        assert(claims_json(*self) == json@);
        match sign_payload(json.as_str(), keys.secret_bytes()) {
            Ok(token) => token,
            Err(_) => {
                assert(false);
                String::new()
            },
        }
    }
}

/// Checks the bearer token of a request: its signature under the keys'
/// secret and its expiry. Gives back the JSON text of its claims; a request
/// without a token, or with one that does not pass, is refused with
/// `InvalidToken`. Whether an unexpired-looking token passes depends on the
/// clock.
pub fn authenticate(bearer: Option<&str>, keys: &Keys) -> (r: Result<String>)
    ensures
        bearer is None ==> r == Err::<String, Error>(Error::InvalidToken),
        r matches Err(e) ==> e == Error::InvalidToken,
        r matches Ok(json) ==> (bearer matches Some(token) && jwt_verified(token@, keys.secret())
            == Some(json@)),
{
    match bearer {
        None => Err(Error::InvalidToken),
        Some(token) => match check_token(token, keys.secret_bytes()) {
            Ok(json) => Ok(json),
            Err(_) => Err(Error::InvalidToken),
        },
    }
}

} // verus!
