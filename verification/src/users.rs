//! The people of the conference: badges, tokens, roles and profiles.
pub mod attendee;
pub mod exhibitor;
pub mod populate;
pub mod records;
pub mod scans;
pub mod seeding;

use vstd::prelude::*;

pub use crate::users::attendee::Attendee;
pub use crate::users::exhibitor::Exhibitor;

verus! {

/// The UUID printed on a badge.
#[derive(Clone, Copy, Debug, PartialEq, Eq, Structural)]
pub struct Badge(pub u128);

/// A one-time sign-in token handed out with a badge.
#[derive(Clone, Debug)]
pub struct Token(pub String);

/// What a user is at the conference.
#[derive(Copy, Clone, Debug, PartialEq, Eq, PartialOrd, Ord, Structural)]
pub enum Role {
    Admin,
    Exhibitor,
    Attendee,
}

/// The lowercase name under which a role is stored and sent.
pub open spec fn role_text(role: Role) -> Seq<char> {
    match role {
        Role::Admin => "admin"@,
        Role::Exhibitor => "exhibitor"@,
        Role::Attendee => "attendee"@,
    }
}

/// The role named by a text, in lowercase.
pub open spec fn role_named(v: Seq<char>) -> Option<Role> {
    if v == "admin"@ {
        Some(Role::Admin)
    } else if v == "exhibitor"@ {
        Some(Role::Exhibitor)
    } else if v == "attendee"@ {
        Some(Role::Attendee)
    } else {
        None
    }
}

impl Role {
    /// The role a lowercase name stands for.
    pub fn parse(text: &str) -> (role: Option<Role>)
        ensures
            role == role_named(text@),
    {
        let text = text.to_owned();
        if text == "admin".to_owned() {
            Some(Role::Admin)
        } else if text == "exhibitor".to_owned() {
            Some(Role::Exhibitor)
        } else if text == "attendee".to_owned() {
            Some(Role::Attendee)
        } else {
            None
        }
    }

    /// The lowercase name of the role.
    pub fn as_str(&self) -> (text: &'static str)
        ensures
            text@ == role_text(*self),
    {
        match self {
            Role::Admin => "admin",
            Role::Exhibitor => "exhibitor",
            Role::Attendee => "attendee",
        }
    }
}

/// A user as it is reported back: who, with which role, and the profile that
/// goes with the role.
#[derive(Clone, Debug)]
pub struct User {
    pub id: u128,
    pub role: Role,
    pub name: String,
    pub mail: String,
    pub attendee: Option<Attendee>,
    pub exhibitor: Option<Exhibitor>,
}

impl User {
    pub fn new(
        id: u128,
        role: Role,
        name: String,
        mail: String,
        attendee: Option<Attendee>,
        exhibitor: Option<Exhibitor>,
    ) -> (user: User)
        ensures
            user.id == id,
            user.role == role,
            user.name == name,
            user.mail == mail,
            user.attendee == attendee,
            user.exhibitor == exhibitor,
    {
        User { id, role, name, mail, attendee, exhibitor }
    }
}

} // verus!
