use vstd::prelude::*;

verus! {

/// The secret with which tokens are signed and checked (HMAC with SHA-256).
#[derive(Clone)]
pub struct Keys {
    secret: Vec<u8>,
}

impl Keys {
    /// The keys made from a secret.
    pub fn new(secret: &[u8]) -> (keys: Keys)
        ensures
            keys.secret() == secret@,
    {
        Keys { secret: vstd::slice::slice_to_vec(secret) }
    }

    /// A copy of the keys.
    pub fn duplicate(&self) -> (keys: Keys)
        ensures
            keys.secret() == self.secret(),
    {
        Keys { secret: self.secret.clone() }
    }

    /// The secret.
    pub closed spec fn secret(self) -> Seq<u8> {
        self.secret@
    }

    /// The secret, as bytes.
    pub fn secret_bytes(&self) -> (bytes: &[u8])
        ensures
            bytes@ == self.secret(),
    {
        self.secret.as_slice()
    }
}

} // verus!
