//! Signing in: a badge and its one-time token are exchanged for a signed
//! token that carries the user's id and role. The token is marked as used in
//! the same transaction, so it signs in once.
pub mod claims;
pub mod jwt;
pub mod keys;

use vstd::prelude::*;

pub use crate::auth::claims::Claims;
pub use crate::auth::keys::Keys;

use crate::auth::claims::claims_json;
use crate::auth::jwt::{jwt_signed, jwt_verified};
use crate::errors::Error;
use crate::store::{Query, Reply, Step};
use crate::users::{Badge, Role, Token};

verus! {

/// When every token this service signs expires: 2000000000 seconds after the
/// Unix epoch (May 2033).
pub const EXPIRES_AT: usize = 2000000000;

/// A sign-in request.
#[derive(Clone, Debug)]
pub struct Payload {
    pub badge: Badge,
    pub token: Token,
}

/// The credentials of a sign-in: the badge, and the token given in the
/// request's body or, when the body has none, in its query string. A
/// request with no token at all is refused with `MissingCredentials`.
pub fn credentials(badge: Badge, body_token: Option<String>, query_token: Option<String>) -> (r: crate::errors::Result<Payload>)
    ensures
        match (body_token, query_token) {
            (Some(t), _) => r matches Ok(p) && p.badge == badge && p.token.0 == t,
            (None, Some(t)) => r matches Ok(p) && p.badge == badge && p.token.0 == t,
            (None, None) => r matches Err(e) && e == Error::MissingCredentials,
        },
{
    match body_token {
        Some(t) => Ok(Payload { badge, token: Token(t) }),
        None => match query_token {
            Some(t) => Ok(Payload { badge, token: Token(t) }),
            None => Err(Error::MissingCredentials),
        },
    }
}

/// The answer to a sign-in: the signed token and the user's role.
#[derive(Clone, Debug)]
pub struct Response {
    pub token: String,
    pub role: Role,
}

/// Where a sign-in stands.
#[derive(Clone, Copy, Debug)]
pub enum AuthStage {
    /// Opening the transaction.
    Opening,
    /// Looking up the owner of the badge and the unused token.
    Looking,
    /// Marking the token as used; the claims are those of its owner.
    Marking { claims: Claims },
    /// Committing; the claims are those of the token's owner.
    Committing { claims: Claims },
    /// The request is answered.
    Closed,
}

/// A sign-in in progress.
pub struct Authorize {
    payload: Payload,
    keys: Keys,
    stage: AuthStage,
}

/// The claims given to the owner of a badge and token.
pub open spec fn claims_for(user: u128, role: Role) -> Claims {
    Claims { subject: user, expires_at: EXPIRES_AT, role }
}

impl Authorize {
    /// Claims, once made, expire at `EXPIRES_AT`.
    pub closed spec fn well_formed(self) -> bool {
        match self.stage {
            AuthStage::Marking { claims } => claims.expires_at == EXPIRES_AT,
            AuthStage::Committing { claims } => claims.expires_at == EXPIRES_AT,
            _ => true,
        }
    }

    /// The badge presented.
    pub closed spec fn badge(self) -> u128 {
        self.payload.badge.0
    }

    /// The token presented.
    pub closed spec fn token(self) -> Seq<char> {
        self.payload.token.0@
    }

    /// The signing secret.
    pub closed spec fn secret(self) -> Seq<u8> {
        self.keys.secret()
    }

    /// The stage of the sign-in.
    pub closed spec fn stage(self) -> AuthStage {
        self.stage
    }

    /// The statement the sign-in waits on.
    pub open spec fn waits_on(self, q: Query) -> bool {
        match self.stage() {
            AuthStage::Opening => q is Begin,
            AuthStage::Looking => q matches Query::FindCredentials { badge, token } && badge
                == self.badge() && token@ == self.token(),
            AuthStage::Marking { claims } => q matches Query::UseToken { user, token } && user
                == claims.subject && token@ == self.token(),
            AuthStage::Committing { .. } => q is Commit,
            AuthStage::Closed => false,
        }
    }

    /// Whether a step runs the statement the sign-in waits on.
    pub open spec fn issued(self, step: Step<Response>) -> bool {
        step matches Step::Run(q) && self.waits_on(q)
    }

    /// What the sign-in does with the reply to the statement it waits on.
    pub open spec fn resumes(self, reply: Reply, after: Authorize, step: Step<Response>) -> bool {
        &&& after.badge() == self.badge()
        &&& after.token() == self.token()
        &&& after.secret() == self.secret()
        &&& match self.stage() {
            AuthStage::Opening => match reply {
                Reply::Done => after.stage() is Looking && after.issued(step),
                _ => after.stage() is Closed && step == Step::<Response>::Finish(Err(Error::Internal)),
            },
            AuthStage::Looking => match reply {
                Reply::Identity(Some((user, role))) => after.stage() == AuthStage::Marking {
                    claims: claims_for(user, role),
                } && after.issued(step),
                Reply::Identity(None) => after.stage() is Closed && step == Step::<Response>::Finish(
                    Err(Error::WrongCredentials),
                ),
                _ => after.stage() is Closed && step == Step::<Response>::Finish(Err(Error::Internal)),
            },
            AuthStage::Marking { claims } => match reply {
                Reply::Done => after.stage() == AuthStage::Committing { claims } && after.issued(step),
                _ => after.stage() is Closed && step == Step::<Response>::Finish(
                    Err(Error::WrongCredentials),
                ),
            },
            AuthStage::Committing { claims } => {
                &&& after.stage() is Closed
                &&& match reply {
                    Reply::Done => step matches Step::Finish(Ok(response)) && response.token@
                        == jwt_signed(claims_json(claims), self.secret()) && jwt_verified(
                        response.token@,
                        self.secret(),
                    ) == Some(claims_json(claims)) && response.role == claims.role,
                    _ => step == Step::<Response>::Finish(Err(Error::Internal)),
                }
            },
            AuthStage::Closed => false,
        }
    }

    /// Takes the reply to the statement the sign-in waits on and decides what
    /// comes next.
    pub fn resume(self, reply: Reply) -> (r: (Authorize, Step<Response>))
        requires
            self.well_formed(),
            !(self.stage() is Closed),
        ensures
            r.0.well_formed(),
            self.resumes(reply, r.0, r.1),
    {
        let Authorize { payload, keys, stage } = self;
        match stage {
            AuthStage::Opening => match reply {
                Reply::Done => {
                    let q = Query::FindCredentials { badge: payload.badge.0, token: payload.token.0.clone() };
                    (Authorize { payload, keys, stage: AuthStage::Looking }, Step::Run(q))
                },
                _ => (Authorize { payload, keys, stage: AuthStage::Closed }, Step::Finish(Err(Error::Internal))),
            },
            AuthStage::Looking => match reply {
                Reply::Identity(Some((user, role))) => {
                    let claims = Claims { subject: user, expires_at: EXPIRES_AT, role };
                    let q = Query::UseToken { user, token: payload.token.0.clone() };
                    (Authorize { payload, keys, stage: AuthStage::Marking { claims } }, Step::Run(q))
                },
                Reply::Identity(None) => (
                    Authorize { payload, keys, stage: AuthStage::Closed },
                    Step::Finish(Err(Error::WrongCredentials)),
                ),
                _ => (Authorize { payload, keys, stage: AuthStage::Closed }, Step::Finish(Err(Error::Internal))),
            },
            AuthStage::Marking { claims } => match reply {
                Reply::Done => (
                    Authorize { payload, keys, stage: AuthStage::Committing { claims } },
                    Step::Run(Query::Commit),
                ),
                _ => (
                    Authorize { payload, keys, stage: AuthStage::Closed },
                    Step::Finish(Err(Error::WrongCredentials)),
                ),
            },
            AuthStage::Committing { claims } => match reply {
                Reply::Done => {
                    let token = claims.sign(&keys);
                    (
                        Authorize { payload, keys, stage: AuthStage::Closed },
                        Step::Finish(Ok(Response { token, role: claims.role })),
                    )
                },
                _ => (Authorize { payload, keys, stage: AuthStage::Closed }, Step::Finish(Err(Error::Internal))),
            },
            AuthStage::Closed => (Authorize { payload, keys, stage: AuthStage::Closed }, Step::Finish(Err(Error::Internal))),
        }
    }

    /// Whether the request is answered.
    pub fn is_closed(&self) -> (closed: bool)
        ensures
            closed == self.stage() is Closed,
    {
        match self.stage {
            AuthStage::Closed => true,
            _ => false,
        }
    }
}

/// Each step of a sign-in either runs a statement, which the sign-in then
/// waits on, or answers the request and closes the sign-in.
pub proof fn law_sign_in_steps(flow: Authorize, reply: Reply, after: Authorize, step: Step<Response>)
    requires
        flow.resumes(reply, after, step),
    ensures
        step matches Step::Run(q) ==> after.waits_on(q) && !(after.stage() is Closed),
        step is Finish ==> after.stage() is Closed,
{
}

/// A sign-in signs a token only after the token presented has been marked
/// as used in the same transaction; once that transaction is committed it
/// always answers with a signed token, which carries the claims of the
/// presented token's owner, expiring at `EXPIRES_AT`, and which the service's
/// own check gives back as those claims.
pub proof fn law_token_is_used_before_signing(flow: Authorize, reply: Reply, after: Authorize, step: Step<Response>)
    requires
        flow.well_formed(),
        flow.resumes(reply, after, step),
    ensures
        after.stage() is Committing ==> flow.stage() is Marking && reply is Done,
        flow.stage() is Committing && reply is Done ==> step is Finish && !(step matches Step::Finish(Err(_))),
        step matches Step::Finish(Ok(response)) ==> ({
            &&& flow.stage() is Committing
            &&& exists|claims: Claims|
                #![trigger claims_json(claims)]
                claims.expires_at == EXPIRES_AT && claims.role == response.role && response.token@
                    == jwt_signed(claims_json(claims), flow.secret()) && jwt_verified(
                    response.token@,
                    flow.secret(),
                ) == Some(claims_json(claims))
        }),
{
    if let Step::Finish(Ok(response)) = step {
        if let AuthStage::Committing { claims } = flow.stage() {
            assert(claims_json(claims) == claims_json(claims));
        }
    }
}

/// The credentials as the sign-in statements see them: which user owns each
/// badge, each user's role, and which tokens of which users are unused.
pub struct Credentials {
    pub owners: Map<u128, u128>,
    pub roles: Map<u128, Role>,
    pub unused: Set<(u128, Seq<char>)>,
}

impl Credentials {
    /// What `FindCredentials` finds for a badge and a token: the badge's owner
    /// and role, when the token is one of that owner's unused tokens.
    pub open spec fn lookup(self, badge: u128, token: Seq<char>) -> Option<(u128, Role)> {
        if self.owners.contains_key(badge) && self.roles.contains_key(self.owners[badge])
            && self.unused.contains((self.owners[badge], token)) {
            Some((self.owners[badge], self.roles[self.owners[badge]]))
        } else {
            None
        }
    }

    /// The credentials after `UseToken` marks a user's token as used.
    pub open spec fn mark_used(self, user: u128, token: Seq<char>) -> Credentials {
        Credentials { unused: self.unused.remove((user, token)), ..self }
    }
}

/// Each token signs in at most once. A sign-in that found its badge and
/// token in the credentials marks that token as used before it signs; a
/// later sign-in with the same badge and token, looked up in the credentials
/// as they are after that mark, is refused with `WrongCredentials`.
pub proof fn law_token_signs_in_once(
    db: Credentials,
    claims: Claims,
    first: Authorize,
    mark_reply: Reply,
    after_first: Authorize,
    first_step: Step<Response>,
    second: Authorize,
    after_second: Authorize,
    second_step: Step<Response>,
)
    requires
        first.stage() == (AuthStage::Marking { claims }),
        db.lookup(first.badge(), first.token()) == Some((claims.subject, claims.role)),
        first.resumes(mark_reply, after_first, first_step),
        after_first.stage() is Committing,
        second.stage() is Looking,
        second.badge() == first.badge(),
        second.token() == first.token(),
        second.resumes(
            Reply::Identity(
                db.mark_used(claims.subject, first.token()).lookup(
                    second.badge(),
                    second.token(),
                ),
            ),
            after_second,
            second_step,
        ),
    ensures
        forall|q: Query| #[trigger] first.waits_on(q) ==> (q matches Query::UseToken { user, token }
            && user == claims.subject && token@ == first.token()),
        second_step == Step::<Response>::Finish(Err(Error::WrongCredentials)),
{
    let used = db.mark_used(claims.subject, first.token());
    assert(used.lookup(second.badge(), second.token()) is None);
}

/// Starts a sign-in with a badge and token: the transaction is opened first.
pub fn authorize(keys: &Keys, payload: Payload) -> (r: (Authorize, Step<Response>))
    ensures
        r.0.well_formed(),
        r.0.badge() == payload.badge.0,
        r.0.token() == payload.token.0@,
        r.0.secret() == keys.secret(),
        r.0.stage() is Opening,
        r.1 matches Step::Run(q) && r.0.waits_on(q),
{
    (Authorize { payload, keys: keys.duplicate(), stage: AuthStage::Opening }, Step::Run(Query::Begin))
}

} // verus!
