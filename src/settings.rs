use vstd::prelude::*;
use vstd::string::StringExecFns;

verus! {

/// The character of one decimal digit.
pub open spec fn digit_char(d: nat) -> char {
    ((d % 10 + 48) as u8) as char
}

/// The decimal rendering of a natural number, most significant digit first.
pub open spec fn decimal(n: nat) -> Seq<char>
    decreases n,
{
    if n < 10 {
        seq![digit_char(n)]
    } else {
        decimal(n / 10) + seq![digit_char(n % 10)]
    }
}

/// `host:port`, the address a listener binds to.
pub open spec fn address_of(host: Seq<char>, port: u16) -> Seq<char> {
    host + seq![':'] + decimal(port as nat)
}

fn digit_str(d: u16) -> (r: &'static str)
    requires
        d < 10,
    ensures
        r@ == seq![digit_char(d as nat)],
{
    proof {
        reveal_strlit("0");
        reveal_strlit("1");
        reveal_strlit("2");
        reveal_strlit("3");
        reveal_strlit("4");
        reveal_strlit("5");
        reveal_strlit("6");
        reveal_strlit("7");
        reveal_strlit("8");
        reveal_strlit("9");
    }
    let r = match d {
        0 => "0",
        1 => "1",
        2 => "2",
        3 => "3",
        4 => "4",
        5 => "5",
        6 => "6",
        7 => "7",
        8 => "8",
        _ => "9",
    };
    assert(r@ =~= seq![digit_char(d as nat)]);
    r
}

/// Appends the decimal rendering of `n` to `out`.
fn push_decimal(out: &mut String, n: u16)
    ensures
        final(out)@ == old(out)@ + decimal(n as nat),
    decreases n,
{
    if n >= 10 {
        push_decimal(out, n / 10);
    }
    out.append(digit_str(n % 10));
    assert(final(out)@ =~= old(out)@ + decimal(n as nat));
}

/// Where the service listens.
#[derive(Clone, Debug)]
pub struct ApplicationSettings {
    pub host: String,
    pub port: u16,
}

impl ApplicationSettings {
    /// The `host:port` address to bind; port 0 asks the OS for any free port.
    pub fn connection_string(&self) -> (r: String)
        ensures
            r@ == address_of(self.host@, self.port),
    {
        let mut r = String::from_str(self.host.as_str());
        r.append(":");
        proof {
            reveal_strlit(":");
        }
        push_decimal(&mut r, self.port);
        assert(r@ =~= address_of(self.host@, self.port));
        r
    }
}


/// The database link's TLS policy.
#[derive(Clone, Copy, Debug, PartialEq, Eq, Structural)]
pub enum SslMode {
    /// TLS must be used; the connection fails without it.
    Require,
    /// TLS is never attempted.
    Disable,
}

/// How to reach the relational store. The password is not held here: it
/// stays wrapped as a secret with the caller and is revealed only where the
/// connection is opened.
#[derive(Clone, Debug)]
pub struct DbSettings {
    pub username: String,
    pub host: String,
    pub port: u16,
    pub database: String,
    pub ssl: bool,
}

/// What a database connection is opened with, besides the password: the
/// settings resolved into a TLS policy.
#[derive(Clone, Debug)]
pub struct ConnectOptions {
    pub host: String,
    pub port: u16,
    pub username: String,
    pub ssl_mode: SslMode,
    pub database: String,
}

/// The TLS policy that the `ssl` switch selects.
pub open spec fn ssl_mode_of(ssl: bool) -> SslMode {
    if ssl {
        SslMode::Require
    } else {
        SslMode::Disable
    }
}

impl DbSettings {
    /// The TLS policy of the database link.
    pub fn ssl_mode(&self) -> (r: SslMode)
        ensures
            r == ssl_mode_of(self.ssl),
    {
        if self.ssl {
            SslMode::Require
        } else {
            SslMode::Disable
        }
    }

    /// The options a connection pool is opened with.
    pub fn get_db_settings(&self) -> (r: ConnectOptions)
        ensures
            r.host@ == self.host@,
            r.port == self.port,
            r.username@ == self.username@,
            r.database@ == self.database@,
            r.ssl_mode == ssl_mode_of(self.ssl),
    {
        ConnectOptions {
            host: self.host.clone(),
            port: self.port,
            username: self.username.clone(),
            ssl_mode: self.ssl_mode(),
            database: self.database.clone(),
        }
    }
}

/// All settings of the service, resolved once at startup and never changed
/// by the running service.
#[derive(Clone, Debug)]
pub struct Settings {
    pub application: ApplicationSettings,
    pub db: DbSettings,
}


/// Prefix of the environment variables that override configuration keys.
pub const ENV_PREFIX: &'static str = "APP";

/// Separator between the prefix and the key path in an override's name.
pub const ENV_PREFIX_SEPARATOR: &'static str = "_";

/// Separator between nested key segments in an override's name, so that
/// `APP_APPLICATION__PORT` overrides `application.port`.
pub const ENV_SEPARATOR: &'static str = "__";

/// The operating mode used when none is given.
pub open spec fn default_mode() -> Seq<char> {
    "local"@
}

/// The operating mode: the given name, or `local` when none is set.
pub fn app_mode(given: Option<String>) -> (r: String)
    ensures
        r@ == match given {
            Some(m) => m@,
            None => default_mode(),
        },
{
    match given {
        Some(m) => m,
        None => String::from_str("local"),
    }
}

/// The base configuration file.
pub open spec fn base_source() -> Seq<char> {
    "configuration/base.yaml"@
}

/// The configuration file of one operating mode.
pub open spec fn mode_source(mode: Seq<char>) -> Seq<char> {
    "configuration/"@ + mode + ".yaml"@
}

/// The configuration files to layer, lowest precedence first: the base file,
/// then the file of the operating mode, whose keys override the base's.
/// Environment overrides are layered above both.
pub fn config_sources(mode: &str) -> (r: Vec<String>)
    ensures
        r@.len() == 2,
        r@[0]@ == base_source(),
        r@[1]@ == mode_source(mode@),
{
    let base = String::from_str("configuration/base.yaml");
    let mut own = String::from_str("configuration/");
    own.append(mode);
    own.append(".yaml");
    let mut r: Vec<String> = Vec::new();
    r.push(base);
    r.push(own);
    r
}

} // verus!
