use vstd::prelude::*;
use vstd::string::*;

use crate::ident::{is_fresh_id, Nanoid};

verus! {

/// What `{:?}` writes for a string: the string quoted, with escapes.
pub uninterp spec fn debug_quoted(s: Seq<char>) -> Seq<char>;

/// Formats a string with `format!("{:?}", s)` (std's `Debug` for `str`).
#[verifier::external_body]
fn debug_str(s: &str) -> (r: String)
    ensures
        r@ == debug_quoted(s@),
{
    format!("{:?}", s)
}

/// A registered user. `password` holds the password hash once stored.
pub struct User {
    pub id: Nanoid,
    pub email: String,
    pub username: String,
    pub password: String,
}

/// What a user logs in with.
#[derive(Debug)]
pub struct Credentials {
    pub email: String,
    pub password: String,
}

/// What a new user registers with.
#[derive(Debug)]
pub struct Registration {
    pub email: String,
    pub username: String,
    pub password: String,
}

/// A user's row in the `users` table, in the column order id, email, password, username.
#[derive(Debug)]
pub struct UserRow {
    pub id: String,
    pub email: String,
    pub password: String,
    pub username: String,
}

/// How a user is shown in logs: every field but the password, which is replaced by a marker.
pub open spec fn user_debug_text(id: Seq<char>, email: Seq<char>, username: Seq<char>) -> Seq<char> {
    "User { id: Nanoid("@ + debug_quoted(id) + "), email: "@ + debug_quoted(email)
        + ", password: \"<redacted>\", username: "@ + debug_quoted(username) + " }"@
}

impl User {
    /// The user a registration describes, under identifier `id`.
    pub fn assemble(registration: Registration, id: Nanoid) -> (u: User)
        ensures
            u.id@ == id@,
            u.email@ == registration.email@,
            u.username@ == registration.username@,
            u.password@ == registration.password@,
    {
        User {
            id,
            email: registration.email,
            username: registration.username,
            password: registration.password,
        }
    }

    /// A new user as registered, under a fresh random identifier.
    pub fn create_from(registration: Registration) -> (u: User)
        ensures
            is_fresh_id(u.id@),
            u.email@ == registration.email@,
            u.username@ == registration.username@,
            u.password@ == registration.password@,
    {
        let id = Nanoid::default();
        User::assemble(registration, id)
    }

    /// The identifier a login session remembers the user by.
    pub fn id(&self) -> (s: String)
        ensures
            s@ == self.id@,
    {
        self.id.as_string()
    }

    /// The bytes a session is tied to: the stored password hash, so that changing the
    /// password ends existing sessions.
    pub fn session_auth_hash(&self) -> (b: &[u8])
        ensures
            b@ == vstd::utf8::encode_utf8(self.password@),
    {
        self.password.as_str().as_bytes()
    }

    /// A user owns itself.
    pub fn owner(self) -> (o: Nanoid)
        ensures
            o@ == self.id@,
    {
        self.id
    }

    /// The row that stores this user, with the password replaced by its hash.
    pub fn insert_row(&self, hash: String) -> (r: UserRow)
        ensures
            r.id@ == self.id@,
            r.email@ == self.email@,
            r.password@ == hash@,
            r.username@ == self.username@,
    {
        UserRow { id: self.id.as_string(), email: self.email.clone(), password: hash, username: self.username.clone() }
    }

    /// How the user is shown in logs; the password never appears.
    pub fn debug_text(&self) -> (s: String)
        ensures
            s@ == user_debug_text(self.id@, self.email@, self.username@),
    {
        let mut s = String::from_str("User { id: Nanoid(");
        let id = debug_str(self.id.0.as_str());
        s.append(id.as_str());
        s.append("), email: ");
        let email = debug_str(self.email.as_str());
        s.append(email.as_str());
        s.append(", password: \"<redacted>\", username: ");
        let username = debug_str(self.username.as_str());
        s.append(username.as_str());
        s.append(" }");
        s
    }
}

/// Two users who differ only in their passwords are shown alike in logs.
pub proof fn law_debug_hides_password(a: User, b: User)
    requires
        a.id@ == b.id@,
        a.email@ == b.email@,
        a.username@ == b.username@,
    ensures
        user_debug_text(a.id@, a.email@, a.username@) == user_debug_text(b.id@, b.email@, b.username@),
{
}

/// The outcome of logging in: the user found under the e-mail, kept only when the password
/// checked against the stored hash.
pub fn authenticated(candidate: Option<User>, password_matches: bool) -> (r: Option<User>)
    ensures
        r is Some <==> (candidate is Some && password_matches),
        r matches Some(u) ==> u == candidate->0,
{
    match candidate {
        Some(u) => if password_matches {
            Some(u)
        } else {
            None
        },
        None => None,
    }
}

} // verus!
