use dhesinta::api::{
    created_reply, delete_after_lookup, delete_after_removal, entry_created_status, fetched_reply,
    json_reply, listed_reply, login_after_authentication, login_after_session, logout_reply,
    user_created_reply, Lookup, Next, Status,
};
use dhesinta::config::{config_path, config_source, Config, ConfigFile, ConfigSource};
use dhesinta::error::{DbError, DbErrorKind, Error};
use dhesinta::user::{authenticated, Credentials, Registration, User};
use dhesinta::Nanoid;

fn id(s: &str) -> Nanoid {
    Nanoid(s.to_string())
}

fn fk() -> Error {
    Error::Database(DbError::Database(DbErrorKind::ForeignKeyViolation))
}

fn unique() -> Error {
    Error::Database(DbError::Database(DbErrorKind::UniqueViolation))
}

fn user() -> User {
    User::assemble(
        Registration {
            email: "a@example.org".to_string(),
            username: "ana".to_string(),
            password: "secret".to_string(),
        },
        id("u1"),
    )
}

#[test]
fn status_codes() {
    assert_eq!(Status::Success.code(), 200);
    assert_eq!(Status::Created.code(), 201);
    assert_eq!(Status::NoContent.code(), 204);
    assert_eq!(Status::BadRequest.code(), 400);
    assert_eq!(Status::Unauthorized.code(), 401);
    assert_eq!(Status::NotFound.code(), 404);
    assert_eq!(Status::Conflict.code(), 409);
    assert_eq!(Status::InternalServerError.code(), 500);
}

#[test]
fn serialized_bodies() {
    let r = json_reply(Status::Success, Some("{}".to_string())).unwrap();
    assert_eq!(r.status, Status::Success);
    assert_eq!(r.body, "{}");
    assert_eq!(json_reply(Status::Success, None).unwrap_err(), Status::InternalServerError);
}

#[test]
fn fetching_one_record() {
    let r = fetched_reply(Lookup::Found(Some("{\"id\":1}".to_string()))).unwrap();
    assert_eq!(r.status, Status::Success);
    assert_eq!(r.body, "{\"id\":1}");
    assert_eq!(fetched_reply(Lookup::Found(None)).unwrap_err(), Status::InternalServerError);
    assert_eq!(fetched_reply(Lookup::Missing).unwrap_err(), Status::NotFound);
    assert_eq!(fetched_reply(Lookup::Failed).unwrap_err(), Status::InternalServerError);
}

#[test]
fn listing_records() {
    assert_eq!(listed_reply(Ok(Some("[]".to_string()))).unwrap().body, "[]");
    assert_eq!(listed_reply(Ok(None)).unwrap_err(), Status::InternalServerError);
    assert_eq!(listed_reply(Err(Error::Io)).unwrap_err(), Status::InternalServerError);
}

#[test]
fn creating_dictionaries_and_modules() {
    let r = created_reply(Ok(()), Some("{}".to_string())).unwrap();
    assert_eq!(r.status, Status::Created);
    assert_eq!(created_reply(Ok(()), None).unwrap_err(), Status::InternalServerError);
    assert_eq!(created_reply(Err(fk()), None).unwrap_err(), Status::BadRequest);
    assert_eq!(created_reply(Err(unique()), None).unwrap_err(), Status::InternalServerError);
    assert_eq!(created_reply(Err(Error::Io), None).unwrap_err(), Status::InternalServerError);
}

#[test]
fn creating_entries() {
    assert_eq!(entry_created_status(Ok(())), Status::Created);
    assert_eq!(entry_created_status(Err(fk())), Status::BadRequest);
    assert_eq!(
        entry_created_status(Err(Error::Database(DbError::Database(DbErrorKind::Other)))),
        Status::InternalServerError
    );
    assert_eq!(entry_created_status(Err(Error::hashing("x".to_string()))), Status::InternalServerError);
}

#[test]
fn registering_users() {
    assert_eq!(user_created_reply(Ok(()), Some("{}".to_string())).unwrap().status, Status::Created);
    assert_eq!(user_created_reply(Err(unique()), None).unwrap_err(), Status::Conflict);
    assert_eq!(user_created_reply(Err(fk()), None).unwrap_err(), Status::InternalServerError);
    assert_eq!(user_created_reply(Err(Error::Hashing("bad".to_string())), None).unwrap_err(), Status::InternalServerError);
}

#[test]
fn deleting_requires_ownership() {
    let me = id("me");
    assert_eq!(delete_after_lookup(Lookup::Found(id("me")), &me), Next::Proceed);
    assert_eq!(delete_after_lookup(Lookup::Found(id("you")), &me), Next::Reply(Status::Unauthorized));
    assert_eq!(delete_after_lookup(Lookup::Missing, &me), Next::Reply(Status::NotFound));
    assert_eq!(delete_after_lookup(Lookup::Failed, &me), Next::Reply(Status::InternalServerError));
    assert_eq!(delete_after_removal(Ok(())), Status::NoContent);
    assert_eq!(delete_after_removal(Err(Error::Io)), Status::InternalServerError);
}

#[test]
fn logging_in_and_out() {
    assert_eq!(login_after_authentication(Lookup::Found(())), Next::Proceed);
    assert_eq!(login_after_authentication(Lookup::Missing), Next::Reply(Status::Unauthorized));
    assert_eq!(login_after_authentication(Lookup::Failed), Next::Reply(Status::InternalServerError));
    assert_eq!(login_after_session(true), Status::Success);
    assert_eq!(login_after_session(false), Status::InternalServerError);
    assert_eq!(logout_reply(true), Ok(()));
    assert_eq!(logout_reply(false), Err(Status::InternalServerError));
}

#[test]
fn error_messages() {
    assert_eq!(fk().message(), "database error");
    assert_eq!(Error::Migration.message(), "database migration error");
    assert_eq!(Error::hashing("salt too short".to_string()).message(), "password hashing error: salt too short");
    assert_eq!(Error::AddrParse.message(), "error parsing IP address");
    assert_eq!(Error::Io.message(), "I/O error");
    assert_eq!(Error::TomlDes.message(), "TOML deserialisation error");
    assert_eq!(Error::TomlSer.message(), "TOML serialisation error");
}

#[test]
fn users_from_registration() {
    let u = user();
    assert_eq!(u.id(), "u1");
    assert_eq!(u.session_auth_hash(), b"secret");
    let row = u.insert_row("$argon2id$hash".to_string());
    assert_eq!(row.id, "u1");
    assert_eq!(row.email, "a@example.org");
    assert_eq!(row.password, "$argon2id$hash");
    assert_eq!(row.username, "ana");
    assert_eq!(u.owner().0, "u1");
    let fresh = User::create_from(Registration {
        email: "b@example.org".to_string(),
        username: "bo".to_string(),
        password: "pw".to_string(),
    });
    assert_eq!(fresh.id.0.len(), 21);
    assert_eq!(fresh.password, "pw");
}

#[test]
fn user_debug_redacts_password() {
    let u = user();
    let text = u.debug_text();
    assert_eq!(
        text,
        "User { id: Nanoid(\"u1\"), email: \"a@example.org\", password: \"<redacted>\", username: \"ana\" }"
    );
    assert!(!text.contains("secret"));
    let quoted = User::assemble(
        Registration { email: "q\"@x".to_string(), username: "u".to_string(), password: "p".to_string() },
        id("i"),
    );
    assert_eq!(quoted.debug_text(), "User { id: Nanoid(\"i\"), email: \"q\\\"@x\", password: \"<redacted>\", username: \"u\" }");
}

#[test]
fn authentication_keeps_only_verified_user() {
    let creds = Credentials { email: "a@example.org".to_string(), password: "secret".to_string() };
    assert_eq!(creds.email, "a@example.org");
    assert_eq!(authenticated(Some(user()), true).unwrap().username, "ana");
    assert!(authenticated(Some(user()), false).is_none());
    assert!(authenticated(None, true).is_none());
}

#[test]
fn default_configuration() {
    let c = Config::with_secret_key("k".to_string());
    assert_eq!(c.db_url, "sqlite://./db/db.sqlite3");
    assert_eq!(c.secret_key, "k");
    assert_eq!(c.net.hostname, "0.0.0.0");
    assert_eq!(c.net.port, 3000);
    let d = Config::default();
    assert_eq!(d.secret_key.len(), 32);
    assert!(d.secret_key.chars().all(|ch| ch.is_ascii_alphanumeric()));
    assert_ne!(d.secret_key, Config::default().secret_key);
    assert_eq!(d.clone().net.port, 3000);
    assert_eq!(config_path(), "./config.toml");
}

#[test]
fn loading_configuration() {
    assert_eq!(config_source(ConfigFile::Opened), ConfigSource::ReadFile);
    assert_eq!(config_source(ConfigFile::NotFound), ConfigSource::CreateDefault);
}
