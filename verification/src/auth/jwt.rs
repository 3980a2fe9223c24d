//! The calls into `jsonwebtoken`.
use jsonwebtoken::errors::Error as JwtError;
use vstd::prelude::*;

use crate::auth::claims::{claims_json, Claims};

verus! {

/// The token that `jsonwebtoken::encode` makes, with the default header
/// (HS256), of a claims payload given as JSON text, signed with `secret`.
pub uninterp spec fn jwt_signed(payload: Seq<char>, secret: Seq<u8>) -> Seq<char>;

/// What `jsonwebtoken::decode` makes of a token's form and signature, under
/// the key made from `secret` and the HS256 algorithm, leaving aside its check
/// of the expiry: the JSON text of the token's claims when the token is well
/// formed and its signature is the secret's, else nothing.
pub uninterp spec fn jwt_verified(token: Seq<char>, secret: Seq<u8>) -> Option<Seq<char>>;

#[verifier::external_type_specification]
#[verifier::external_body]
pub struct ExJwtError(JwtError);

/// Calls `jsonwebtoken::encode` with the default header, the payload taken
/// verbatim as a JSON value (`serde_json::value::RawValue`), and the key made
/// by `EncodingKey::from_secret`. The token it returns is named by
/// `jwt_signed`. It fails only when the payload is not JSON: the HMAC key
/// matches the default algorithm and signing cannot fail, so a payload that
/// is the JSON of some claims is always signed. Such a token, checked with
/// the same secret, gives the payload back: its header is the default one,
/// its signature the secret's, and its claims segment the payload's bytes.
#[verifier::external_body]
pub(crate) fn sign_payload(payload: &str, secret: &[u8]) -> (r: core::result::Result<String, JwtError>)
    ensures
        r matches Ok(token) ==> token@ == jwt_signed(payload@, secret@),
        (exists|c: Claims| #[trigger] claims_json(c) == payload@) ==> r is Ok,
        r matches Ok(token) ==> ((exists|c: Claims| #[trigger] claims_json(c) == payload@)
            ==> jwt_verified(token@, secret@) == Some(payload@)),
{
    let raw = serde_json::value::RawValue::from_string(payload.to_string())
        .map_err(JwtError::from)?;
    jsonwebtoken::encode(
        &jsonwebtoken::Header::default(),
        &raw,
        &jsonwebtoken::EncodingKey::from_secret(secret),
    )
}

/// Calls `jsonwebtoken::decode` with the default validation (HS256, an `exp`
/// claim that must not lie in the past, with a minute of leeway) and the key
/// made by `DecodingKey::from_secret`, and returns the token's claims as
/// their JSON text. A token passes only when its form and signature do
/// (`jwt_verified`), and then the text returned is its claims; whether it
/// passes also depends on the clock, which is left unsaid.
#[verifier::external_body]
pub(crate) fn check_token(token: &str, secret: &[u8]) -> (r: core::result::Result<String, JwtError>)
    ensures
        r matches Ok(json) ==> jwt_verified(token@, secret@) == Some(json@),
{
    let data = jsonwebtoken::decode::<Box<serde_json::value::RawValue>>(
        token,
        &jsonwebtoken::DecodingKey::from_secret(secret),
        &jsonwebtoken::Validation::default(),
    )?;
    Ok(data.claims.get().to_string())
}

} // verus!
