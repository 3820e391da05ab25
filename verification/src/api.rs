//! How the service answers each HTTP request, given what its database, session store
//! and serializer reported. The handlers in the application perform those operations
//! and hand the outcomes to these functions.
use vstd::prelude::*;

use crate::error::{DbError, DbErrorKind, Error};
use crate::ident::Nanoid;

verus! {

/// The HTTP statuses the service answers with.
#[derive(Debug, Clone, Copy, PartialEq, Eq, Structural)]
pub enum Status {
    /// 200 OK
    Success,
    Created,
    NoContent,
    BadRequest,
    Unauthorized,
    NotFound,
    Conflict,
    InternalServerError,
}

pub open spec fn status_code(s: Status) -> u16 {
    match s {
        Status::Success => 200,
        Status::Created => 201,
        Status::NoContent => 204,
        Status::BadRequest => 400,
        Status::Unauthorized => 401,
        Status::NotFound => 404,
        Status::Conflict => 409,
        Status::InternalServerError => 500,
    }
}

impl Status {
    /// The numeric HTTP status code.
    pub fn code(&self) -> (c: u16)
        ensures
            c == status_code(*self),
    {
        match self {
            Status::Success => 200,
            Status::Created => 201,
            Status::NoContent => 204,
            Status::BadRequest => 400,
            Status::Unauthorized => 401,
            Status::NotFound => 404,
            Status::Conflict => 409,
            Status::InternalServerError => 500,
        }
    }
}

/// A successful answer: a status and a JSON body.
#[derive(Debug)]
pub struct Response {
    pub status: Status,
    pub body: String,
}

/// What looking a record up in the database gave: an error, no such record, or the record
/// (or the part of it that the caller needs).
#[derive(Debug)]
pub enum Lookup<T> {
    Failed,
    Missing,
    Found(T),
}

/// Whether a handler goes on to its next operation or answers now.
#[derive(Debug, Clone, Copy, PartialEq, Eq, Structural)]
pub enum Next {
    Proceed,
    Reply(Status),
}

/// The answer carrying a serialized body: the body with `status`, or 500 when serializing failed.
pub open spec fn json_reply_spec(status: Status, body: Option<String>) -> Result<Response, Status> {
    match body {
        Some(b) => Ok(Response { status, body: b }),
        None => Err(Status::InternalServerError),
    }
}

/// Answer with a serialized body (`None`: serializing failed).
pub fn json_reply(status: Status, body: Option<String>) -> (r: Result<Response, Status>)
    ensures
        r == json_reply_spec(status, body),
{
    match body {
        Some(b) => Ok(Response { status, body: b }),
        None => Err(Status::InternalServerError),
    }
}

/// The answer to fetching one record: 404 when it does not exist, 500 when the lookup or the
/// serialization failed, else 200 with the record.
pub open spec fn fetched_reply_spec(found: Lookup<Option<String>>) -> Result<Response, Status> {
    match found {
        Lookup::Failed => Err(Status::InternalServerError),
        Lookup::Missing => Err(Status::NotFound),
        Lookup::Found(body) => json_reply_spec(Status::Success, body),
    }
}

/// Answer a request for one record, given the lookup and, for a found record, its serialization.
pub fn fetched_reply(found: Lookup<Option<String>>) -> (r: Result<Response, Status>)
    ensures
        r == fetched_reply_spec(found),
{
    match found {
        Lookup::Failed => Err(Status::InternalServerError),
        Lookup::Missing => Err(Status::NotFound),
        Lookup::Found(body) => json_reply(Status::Success, body),
    }
}

/// Answer a query for many records: 500 when the query failed, else the serialized list.
pub fn listed_reply(listed: Result<Option<String>, Error>) -> (r: Result<Response, Status>)
    ensures
        match listed {
            Ok(body) => r == json_reply_spec(Status::Success, body),
            Err(_) => r == Err::<Response, Status>(Status::InternalServerError),
        },
{
    match listed {
        Ok(body) => json_reply(Status::Success, body),
        Err(_) => Err(Status::InternalServerError),
    }
}

/// The handlers look into a database failure with `as_database_error().unwrap()`, which
/// panics on a failure that did not come from the database itself.
pub open spec fn write_error_inspectable(written: Result<(), Error>) -> bool {
    !(written matches Err(Error::Database(DbError::Other)))
}

/// The status for a failed write of a record that refers to others (a dictionary, entry or
/// module): a reference to a record that does not exist is the client's fault (400).
pub open spec fn reference_failure_status(e: Error) -> Status {
    match e {
        Error::Database(DbError::Database(DbErrorKind::ForeignKeyViolation)) => Status::BadRequest,
        _ => Status::InternalServerError,
    }
}

fn reference_failure(e: &Error) -> (s: Status)
    ensures
        s == reference_failure_status(*e),
{
    match e {
        Error::Database(DbError::Database(DbErrorKind::ForeignKeyViolation)) => Status::BadRequest,
        _ => Status::InternalServerError,
    }
}

/// The answer to creating a dictionary or a module: 201 with the new record, 400 when it
/// refers to a record that does not exist, 500 otherwise.
pub open spec fn created_reply_spec(written: Result<(), Error>, body: Option<String>) -> Result<Response, Status> {
    match written {
        Ok(()) => json_reply_spec(Status::Created, body),
        Err(e) => Err(reference_failure_status(e)),
    }
}

/// Answer the creation of a dictionary or module, given the write's outcome and the
/// serialization of the new record.
pub fn created_reply(written: Result<(), Error>, body: Option<String>) -> (r: Result<Response, Status>)
    requires
        write_error_inspectable(written),
    ensures
        r == created_reply_spec(written, body),
{
    match written {
        Ok(()) => json_reply(Status::Created, body),
        Err(e) => Err(reference_failure(&e)),
    }
}

/// The status for creating an entry: 201, 400 when its dictionary does not exist, else 500.
pub open spec fn entry_created_status_spec(written: Result<(), Error>) -> Status {
    match written {
        Ok(()) => Status::Created,
        Err(e) => reference_failure_status(e),
    }
}

/// Answer the creation of an entry, given the write's outcome.
pub fn entry_created_status(written: Result<(), Error>) -> (s: Status)
    requires
        write_error_inspectable(written),
    ensures
        s == entry_created_status_spec(written),
{
    match written {
        Ok(()) => Status::Created,
        Err(e) => reference_failure(&e),
    }
}

/// The answer to registering a user: 201 with the user, 409 when the e-mail or user name
/// is taken, 500 otherwise.
pub open spec fn user_created_reply_spec(written: Result<(), Error>, body: Option<String>) -> Result<Response, Status> {
    match written {
        Ok(()) => json_reply_spec(Status::Created, body),
        Err(Error::Database(DbError::Database(DbErrorKind::UniqueViolation))) => Err(Status::Conflict),
        Err(_) => Err(Status::InternalServerError),
    }
}

/// Answer a registration, given the write's outcome and the serialization of the new user.
pub fn user_created_reply(written: Result<(), Error>, body: Option<String>) -> (r: Result<Response, Status>)
    requires
        write_error_inspectable(written),
    ensures
        r == user_created_reply_spec(written, body),
{
    match written {
        Ok(()) => json_reply(Status::Created, body),
        Err(Error::Database(DbError::Database(DbErrorKind::UniqueViolation))) => Err(Status::Conflict),
        Err(_) => Err(Status::InternalServerError),
    }
}

/// A dictionary or module is answered 201 only when it was stored: the reply is a success
/// exactly when the write succeeded and the record was serialized, and then it carries that
/// serialization. A failed write is answered 400 when the record refers to a missing one
/// (foreign key), and 500 for any other failure, whatever the serialization gave.
pub proof fn law_created_only_when_stored(written: Result<(), Error>, body: Option<String>)
    ensures
        created_reply_spec(written, body) is Ok <==> (written is Ok && body is Some),
        created_reply_spec(written, body) matches Ok(r) ==> r.status == Status::Created && r.body == body->0,
        written is Ok && body is None ==> created_reply_spec(written, body) == Err::<Response, Status>(Status::InternalServerError),
        written == Err::<(), Error>(Error::Database(DbError::Database(DbErrorKind::ForeignKeyViolation)))
            ==> created_reply_spec(written, body) == Err::<Response, Status>(Status::BadRequest),
        (written is Err && written != Err::<(), Error>(Error::Database(DbError::Database(DbErrorKind::ForeignKeyViolation))))
            ==> created_reply_spec(written, body) == Err::<Response, Status>(Status::InternalServerError),
{
}

/// A user is answered 201 only when stored: the reply is a success exactly when the write
/// succeeded and the user was serialized, and then it carries that serialization. A taken
/// e-mail or user name (unique violation) is answered 409, any other failure 500, whatever
/// the serialization gave.
pub proof fn law_user_created_only_when_stored(written: Result<(), Error>, body: Option<String>)
    ensures
        user_created_reply_spec(written, body) is Ok <==> (written is Ok && body is Some),
        user_created_reply_spec(written, body) matches Ok(r) ==> r.status == Status::Created && r.body == body->0,
        written is Ok && body is None ==> user_created_reply_spec(written, body) == Err::<Response, Status>(Status::InternalServerError),
        written == Err::<(), Error>(Error::Database(DbError::Database(DbErrorKind::UniqueViolation)))
            ==> user_created_reply_spec(written, body) == Err::<Response, Status>(Status::Conflict),
        (written is Err && written != Err::<(), Error>(Error::Database(DbError::Database(DbErrorKind::UniqueViolation))))
            ==> user_created_reply_spec(written, body) == Err::<Response, Status>(Status::InternalServerError),
{
}

/// What a delete request does once the record's owner has been looked up: only the owner may
/// delete (401 for anyone else), a missing record is 404, a failed lookup 500.
pub open spec fn delete_decision(owner: Lookup<Nanoid>, user: Seq<char>) -> Next {
    match owner {
        Lookup::Failed => Next::Reply(Status::InternalServerError),
        Lookup::Missing => Next::Reply(Status::NotFound),
        Lookup::Found(o) => if o@ == user {
            Next::Proceed
        } else {
            Next::Reply(Status::Unauthorized)
        },
    }
}

/// The status once the deletion itself has run.
pub open spec fn removal_status(removed: bool) -> Status {
    if removed {
        Status::NoContent
    } else {
        Status::InternalServerError
    }
}

/// The whole answer to a delete request.
pub open spec fn delete_reply(owner: Lookup<Nanoid>, user: Seq<char>, removed: bool) -> Status {
    match delete_decision(owner, user) {
        Next::Proceed => removal_status(removed),
        Next::Reply(s) => s,
    }
}

/// First step of a delete request: given the looked-up owner of the record and the user of
/// the session, go on to delete, or answer.
pub fn delete_after_lookup(owner: Lookup<Nanoid>, user: &Nanoid) -> (n: Next)
    ensures
        n == delete_decision(owner, user@),
{
    match owner {
        Lookup::Failed => Next::Reply(Status::InternalServerError),
        Lookup::Missing => Next::Reply(Status::NotFound),
        Lookup::Found(o) => if o == *user {
            Next::Proceed
        } else {
            Next::Reply(Status::Unauthorized)
        },
    }
}

/// Second step of a delete request: the status once the deletion has run.
pub fn delete_after_removal(removed: Result<(), Error>) -> (s: Status)
    ensures
        s == removal_status(removed is Ok),
{
    match removed {
        Ok(()) => Status::NoContent,
        Err(_) => Status::InternalServerError,
    }
}

/// A record is deleted only when it exists and belongs to the user asking: the first step
/// goes on to the deletion exactly then.
pub proof fn law_delete_only_by_owner(owner: Lookup<Nanoid>, user: Seq<char>)
    ensures
        delete_decision(owner, user) == Next::Proceed <==> (owner matches Lookup::Found(o) && o@ == user),
{
}

/// A delete request is answered 204 exactly when the record existed, belonged to the user
/// and the deletion succeeded; 401 exactly when it belonged to someone else; 404 exactly
/// when it did not exist.
pub proof fn law_delete_reply(owner: Lookup<Nanoid>, user: Seq<char>, removed: bool)
    ensures
        delete_reply(owner, user, removed) == Status::NoContent <==> (owner matches Lookup::Found(o) && o@ == user && removed),
        delete_reply(owner, user, removed) == Status::Unauthorized <==> (owner matches Lookup::Found(o) && o@ != user),
        delete_reply(owner, user, removed) == Status::NotFound <==> owner is Missing,
{
}

/// What a login does once the credentials have been checked: go on to open the session
/// when they matched a user, 401 when they did not, 500 when checking failed.
pub open spec fn login_decision(checked: Lookup<()>) -> Next {
    match checked {
        Lookup::Failed => Next::Reply(Status::InternalServerError),
        Lookup::Missing => Next::Reply(Status::Unauthorized),
        Lookup::Found(()) => Next::Proceed,
    }
}

/// First step of a login: given whether the credentials matched a user.
pub fn login_after_authentication(checked: Lookup<()>) -> (n: Next)
    ensures
        n == login_decision(checked),
{
    match checked {
        Lookup::Failed => Next::Reply(Status::InternalServerError),
        Lookup::Missing => Next::Reply(Status::Unauthorized),
        Lookup::Found(()) => Next::Proceed,
    }
}

/// Second step of a login: 200 once the session holds the user, 500 when that failed.
pub fn login_after_session(logged_in: bool) -> (s: Status)
    ensures
        s == (if logged_in { Status::Success } else { Status::InternalServerError }),
{
    if logged_in {
        Status::Success
    } else {
        Status::InternalServerError
    }
}

/// The answer to a logout: nothing on success, 500 when ending the session failed.
pub fn logout_reply(logged_out: bool) -> (r: Result<(), Status>)
    ensures
        r == (if logged_out { Ok::<(), Status>(()) } else { Err(Status::InternalServerError) }),
{
    if logged_out {
        Ok(())
    } else {
        Err(Status::InternalServerError)
    }
}

} // verus!
