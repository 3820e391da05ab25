use vstd::prelude::*;
use vstd::string::*;

verus! {

/// Length of a generated secret key.
pub const SECRET_KEY_LEN: usize = 32;

pub open spec fn is_ascii_alphanumeric(c: char) -> bool {
    ('0' <= c && c <= '9') || ('a' <= c && c <= 'z') || ('A' <= c && c <= 'Z')
}

/// What every generated secret key looks like: 32 ASCII letters and digits.
pub open spec fn is_generated_secret(s: Seq<char>) -> bool {
    &&& s.len() == SECRET_KEY_LEN
    &&& forall|i: int| 0 <= i < s.len() ==> is_ascii_alphanumeric(#[trigger] s[i])
}

/// Calls `rand::distr::Alphanumeric.sample_string(&mut rand::rng(), len)`: `len` characters,
/// each drawn from `A`-`Z`, `a`-`z`, `0`-`9`. Which ones is up to chance.
#[verifier::external_body]
fn random_alphanumeric(len: usize) -> (s: String)
    ensures
        s@.len() == len,
        forall|i: int| 0 <= i < s@.len() ==> is_ascii_alphanumeric(#[trigger] s@[i]),
{
    rand::distr::SampleString::sample_string(&rand::distr::Alphanumeric, &mut rand::rng(), len)
}

/// Where the service listens.
#[derive(Debug)]
pub struct NetConfig {
    pub hostname: String,
    pub port: u16,
}

/// The service's configuration.
#[derive(Debug)]
pub struct Config {
    pub db_url: String,
    pub secret_key: String,
    pub net: NetConfig,
}

impl Clone for NetConfig {
    fn clone(&self) -> (r: Self)
        ensures
            r.hostname@ == self.hostname@,
            r.port == self.port,
    {
        NetConfig { hostname: self.hostname.clone(), port: self.port }
    }
}

impl Clone for Config {
    fn clone(&self) -> (r: Self)
        ensures
            r.db_url@ == self.db_url@,
            r.secret_key@ == self.secret_key@,
            r.net.hostname@ == self.net.hostname@,
            r.net.port == self.net.port,
    {
        Config { db_url: self.db_url.clone(), secret_key: self.secret_key.clone(), net: self.net.clone() }
    }
}

/// The configuration used when none is stored yet, apart from its secret key.
pub open spec fn is_default_config(c: Config, secret_key: Seq<char>) -> bool {
    &&& c.db_url@ == "sqlite://./db/db.sqlite3"@
    &&& c.secret_key@ == secret_key
    &&& c.net.hostname@ == "0.0.0.0"@
    &&& c.net.port == 3000
}

impl Config {
    /// The default configuration with the given secret key: a database under `./db`,
    /// listening on every interface at port 3000.
    pub fn with_secret_key(secret_key: String) -> (c: Config)
        ensures
            is_default_config(c, secret_key@),
    {
        Config {
            db_url: String::from_str("sqlite://./db/db.sqlite3"),
            secret_key,
            net: NetConfig { hostname: String::from_str("0.0.0.0"), port: 3000 },
        }
    }
}

impl Default for Config {
    /// The default configuration with a fresh random secret key.
    fn default() -> (c: Self)
        ensures
            exists|k: Seq<char>| is_generated_secret(k) && #[trigger] is_default_config(c, k),
    {
        let c = Config::with_secret_key(random_alphanumeric(SECRET_KEY_LEN));
        assert(is_default_config(c, c.secret_key@));
        c
    }
}

/// Where the configuration is stored.
pub fn config_path() -> (p: &'static str)
    ensures
        p@ == "./config.toml"@,
{
    "./config.toml"
}

/// What opening the configuration file gave.
#[derive(Debug, Clone, Copy, PartialEq, Eq, Structural)]
pub enum ConfigFile {
    Opened,
    NotFound,
    /// It exists but could not be opened (permissions, a directory, ...).
    Unopenable,
}

/// How the configuration is obtained.
#[derive(Debug, Clone, Copy, PartialEq, Eq, Structural)]
pub enum ConfigSource {
    /// Read and parse the file.
    ReadFile,
    /// Use the default configuration and store it for next time.
    CreateDefault,
}

/// How loading the configuration goes on once the file was opened or not: a missing file
/// is replaced by the default configuration. (Any other failure to open it stops the
/// service, so it is not a valid input here.)
pub fn config_source(opened: ConfigFile) -> (s: ConfigSource)
    requires
        opened != ConfigFile::Unopenable,
    ensures
        s == (if opened == ConfigFile::Opened { ConfigSource::ReadFile } else { ConfigSource::CreateDefault }),
{
    match opened {
        ConfigFile::Opened => ConfigSource::ReadFile,
        _ => ConfigSource::CreateDefault,
    }
}

} // verus!
