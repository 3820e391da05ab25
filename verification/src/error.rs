use vstd::prelude::*;
use vstd::string::*;

verus! {

/// The kind of error a database reported, as sqlx classifies it.
#[derive(Debug, Clone, Copy, PartialEq, Eq, Structural)]
pub enum DbErrorKind {
    UniqueViolation,
    ForeignKeyViolation,
    NotNullViolation,
    CheckViolation,
    Other,
}

/// A failed database operation: either the database itself refused the statement
/// (with the kind of refusal), or the failure came from elsewhere (connection, pool, decoding).
#[derive(Debug, Clone, Copy, PartialEq, Eq, Structural)]
pub enum DbError {
    Database(DbErrorKind),
    Other,
}

/// Everything that can go wrong in the service.
#[derive(Debug)]
pub enum Error {
    Database(DbError),
    Migration,
    /// Hashing a password failed; holds the hasher's message.
    Hashing(String),
    AddrParse,
    Io,
    TomlDes,
    TomlSer,
}

/// The message the service shows for an error.
pub open spec fn error_message(e: Error) -> Seq<char> {
    match e {
        Error::Database(_) => "database error"@,
        Error::Migration => "database migration error"@,
        Error::Hashing(m) => "password hashing error: "@ + m@,
        Error::AddrParse => "error parsing IP address"@,
        Error::Io => "I/O error"@,
        Error::TomlDes => "TOML deserialisation error"@,
        Error::TomlSer => "TOML serialisation error"@,
    }
}

impl Error {
    /// The error for a failed password hash, carrying the hasher's message.
    pub fn hashing(message: String) -> (e: Error)
        ensures
            e == Error::Hashing(message),
    {
        Error::Hashing(message)
    }

    /// The human-readable message for this error.
    pub fn message(&self) -> (s: String)
        ensures
            s@ == error_message(*self),
    {
        match self {
            Error::Database(_) => String::from_str("database error"),
            Error::Migration => String::from_str("database migration error"),
            Error::Hashing(m) => {
                let mut s = String::from_str("password hashing error: ");
                s.append(m.as_str());
                s
            },
            Error::AddrParse => String::from_str("error parsing IP address"),
            Error::Io => String::from_str("I/O error"),
            Error::TomlDes => String::from_str("TOML deserialisation error"),
            Error::TomlSer => String::from_str("TOML serialisation error"),
        }
    }
}

} // verus!
