//! Application settings and the runtime environment.

use vstd::prelude::*;
use crate::text::{decimal, digits_value, is_digit, lemma_decimal_reads_back, push_decimal};

verus! {

/// The options of a connection to a database, as the ORM takes them.
#[verifier::external_type_specification]
#[verifier::external_body]
pub struct ExConnectOptions(sea_orm::ConnectOptions);

/// The connection options that `ConnectOptions::new` makes of a URL.
pub uninterp spec fn connect_options_for(url: Seq<char>) -> sea_orm::ConnectOptions;

/// Calls `sea_orm::ConnectOptions::new`, which keeps the URL and sets every
/// other option to its default; the result is named `connect_options_for`.
#[verifier::external_body]
fn connect_options(url: String) -> (o: sea_orm::ConnectOptions)
    ensures
        o == connect_options_for(url@),
{
    sea_orm::ConnectOptions::new(url)
}

#[derive(Debug)]
pub struct Settings {
    pub database: DatabaseSettings,
    pub server: ServerSettings,
}

#[derive(Debug)]
pub struct ServerSettings {
    pub port: u16,
    pub host: String,
}

#[derive(Debug)]
pub struct DatabaseSettings {
    pub db_type: String,
    pub db_name: String,
    pub username: String,
    password: String,
    pub port: u16,
    pub host: String,
    pub require_ssl: bool,
}

/// The content of [`DatabaseSettings`], the password included.
pub struct DatabaseSettingsView {
    pub db_type: Seq<char>,
    pub db_name: Seq<char>,
    pub username: Seq<char>,
    pub password: Seq<char>,
    pub port: u16,
    pub host: Seq<char>,
    pub require_ssl: bool,
}

impl View for DatabaseSettings {
    type V = DatabaseSettingsView;

    closed spec fn view(&self) -> DatabaseSettingsView {
        DatabaseSettingsView {
            db_type: self.db_type@,
            db_name: self.db_name@,
            username: self.username@,
            password: self.password@,
            port: self.port,
            host: self.host@,
            require_ssl: self.require_ssl,
        }
    }
}

impl Clone for ServerSettings {
    fn clone(&self) -> (r: ServerSettings)
        ensures
            r.port == self.port,
            r.host@ == self.host@,
    {
        ServerSettings { port: self.port, host: self.host.clone() }
    }
}

impl Clone for DatabaseSettings {
    fn clone(&self) -> (r: DatabaseSettings)
        ensures
            r@ == self@,
    {
        DatabaseSettings {
            db_type: self.db_type.clone(),
            db_name: self.db_name.clone(),
            username: self.username.clone(),
            password: self.password.clone(),
            port: self.port,
            host: self.host.clone(),
            require_ssl: self.require_ssl,
        }
    }
}

/// The run mode used when none is given.
pub open spec fn default_run_mode() -> Seq<char> {
    "development"@
}

/// The configuration file read for run mode `mode`.
pub open spec fn run_mode_file(mode: Seq<char>) -> Seq<char> {
    "configuration/"@ + mode
}

impl Settings {
    /// The environment specific configuration file: the one of the given
    /// run mode, or of the development mode when none is given.
    pub fn environment_file(run_mode: Option<String>) -> (file: String)
        ensures
            file@ == run_mode_file(
                match run_mode {
                    Some(m) => m@,
                    None => default_run_mode(),
                },
            ),
    {
        let mode = match run_mode {
            Some(m) => m,
            None => String::from_str("development"),
        };
        let mut file = String::from_str("configuration/");
        file.append(mode.as_str());
        file
    }
}

impl ServerSettings {
    /// The address to listen on, `host:port`.
    pub open spec fn address_spec(&self) -> Seq<char> {
        self.host@ + ":"@ + decimal(self.port as nat)
    }

    pub fn address(&self) -> (a: String)
        ensures
            a@ == self.address_spec(),
    {
        let mut a = self.host.clone();
        a.append(":");
        push_decimal(&mut a, self.port as usize);
        a
    }
}

impl DatabaseSettings {
    pub fn new(
        db_type: String,
        db_name: String,
        username: String,
        password: String,
        port: u16,
        host: String,
        require_ssl: bool,
    ) -> (s: DatabaseSettings)
        ensures
            s@ == (DatabaseSettingsView {
                db_type: db_type@,
                db_name: db_name@,
                username: username@,
                password: password@,
                port,
                host: host@,
                require_ssl,
            }),
    {
        DatabaseSettings { db_type, db_name, username, password, port, host, require_ssl }
    }

    /// The URL of the database: the database name itself for SQLite, and a
    /// PostgreSQL URL with the credentials, host and port otherwise.
    pub open spec fn connection_url_spec(&self) -> Seq<char> {
        if self@.db_type == "sqlite"@ {
            self@.db_name
        } else {
            "postgres://"@ + self@.username + ":"@ + self@.password + "@"@ + self@.host + ":"@
                + decimal(self@.port as nat) + "/"@
        }
    }

    /// The options for connecting to the configured database.
    pub fn database_connect(&self) -> (o: sea_orm::ConnectOptions)
        ensures
            o == connect_options_for(self.connection_url_spec()),
    {
        connect_options(self.connection_url())
    }

    pub fn connection_url(&self) -> (url: String)
        ensures
            url@ == self.connection_url_spec(),
    {
        if self.db_type == String::from_str("sqlite") {
            self.db_name.clone()
        } else {
            let mut url = String::from_str("postgres://");
            url.append(self.username.as_str());
            url.append(":");
            url.append(self.password.as_str());
            url.append("@");
            url.append(self.host.as_str());
            url.append(":");
            push_decimal(&mut url, self.port as usize);
            url.append("/");
            url
        }
    }
}

/// The configuration file of a run mode names exactly that mode under
/// `configuration/`, and a missing run mode reads the development file.
pub proof fn lemma_environment_file_names_run_mode(run_mode: Option<Seq<char>>)
    ensures
        ({
            let f = run_mode_file(
                match run_mode {
                    Some(m) => m,
                    None => default_run_mode(),
                },
            );
            let k = "configuration/"@.len() as int;
            &&& f.subrange(0, k) == "configuration/"@
            &&& run_mode matches Some(m) ==> f.subrange(k, f.len() as int) == m
            &&& run_mode is None ==> f.subrange(k, f.len() as int) == "development"@
        }),
{
    let m = match run_mode {
        Some(m) => m,
        None => default_run_mode(),
    };
    let f = run_mode_file(m);
    let k = "configuration/"@.len() as int;
    assert(f.subrange(0, k) =~= "configuration/"@);
    assert(f.subrange(k, f.len() as int) =~= m);
}

/// The listening address is the configured host, unchanged, then `:`, then
/// decimal digits that read back as the configured port.
pub proof fn lemma_address_is_host_and_port(s: ServerSettings)
    ensures
        ({
            let a = s.address_spec();
            let h = s.host@.len() as int;
            let digits = a.subrange(h + 1, a.len() as int);
            &&& a.len() > h + 1
            &&& a.subrange(0, h) == s.host@
            &&& a[h] == ':'
            &&& forall|i: int| 0 <= i < digits.len() ==> is_digit(#[trigger] digits[i])
            &&& digits_value(digits) == s.port
        }),
{
    reveal_strlit(":");
    lemma_decimal_reads_back(s.port as nat);
    let a = s.address_spec();
    let h = s.host@.len() as int;
    assert(a.subrange(0, h) =~= s.host@);
    assert(a.subrange(h + 1, a.len() as int) =~= decimal(s.port as nat));
}

/// For SQLite the URL is the database name itself.
pub proof fn lemma_sqlite_url_is_database_name(s: DatabaseSettings)
    requires
        s@.db_type == "sqlite"@,
    ensures
        s.connection_url_spec() == s@.db_name,
{
}

/// For any other database the URL is the PostgreSQL URL of the settings:
/// the user, the password, the host, and decimal digits that read back as
/// the configured port.
pub proof fn lemma_postgres_url_holds_settings(s: DatabaseSettings)
    requires
        s@.db_type != "sqlite"@,
    ensures
        exists|digits: Seq<char>| {
            &&& s.connection_url_spec() == "postgres://"@ + s@.username + ":"@ + s@.password + "@"@ + s@.host
                + ":"@ + digits + "/"@
            &&& digits.len() >= 1
            &&& forall|i: int| 0 <= i < digits.len() ==> is_digit(#[trigger] digits[i])
            &&& #[trigger] digits_value(digits) == s@.port
        },
{
    lemma_decimal_reads_back(s@.port as nat);
    let digits = decimal(s@.port as nat);
    assert(digits_value(digits) == s@.port);
}

/// The possible runtime environment for our application.
#[derive(PartialEq, Eq, Structural, Clone, Copy, Debug)]
pub enum Environment {
    Local,
    Production,
}

/// The lowercase form of a string, by the Unicode lowercase mapping.
pub uninterp spec fn lowercase(s: Seq<char>) -> Seq<char>;

/// The ASCII lowercase form of a character.
pub open spec fn ascii_lower(c: char) -> char {
    if 'A' <= c && c <= 'Z' {
        ((c as u32) + 32) as char
    } else {
        c
    }
}

/// Whether every character of `s` is ASCII.
pub open spec fn all_ascii(s: Seq<char>) -> bool {
    forall|i: int| 0 <= i < s.len() ==> (s[i] as u32) < 128
}

/// Calls `str::to_lowercase`. Its result is named `lowercase`; on ASCII text
/// it is the ASCII lowercase of each character, as std documents. Nothing is
/// said of other text.
#[verifier::external_body]
fn to_lowercase(s: &str) -> (r: String)
    ensures
        r@ == lowercase(s@),
        all_ascii(s@) ==> r@ == s@.map_values(|c: char| ascii_lower(c)),
{
    s.to_lowercase()
}

/// The message refusing a lowercased environment name `other`.
pub open spec fn unsupported_environment_message(other: Seq<char>) -> Seq<char> {
    other + " is not a supported environment. Use either `local` or `production`."@
}

/// What parsing an already lowercased environment name gives.
pub open spec fn parse_lowercased_spec(lowered: Seq<char>) -> Result<Environment, Seq<char>> {
    if lowered == "local"@ {
        Ok(Environment::Local)
    } else if lowered == "production"@ {
        Ok(Environment::Production)
    } else {
        Err(unsupported_environment_message(lowered))
    }
}

impl Environment {
    /// The name of the environment, as written in configuration.
    pub open spec fn name(self) -> Seq<char> {
        match self {
            Environment::Local => "local"@,
            Environment::Production => "production"@,
        }
    }

    pub fn as_str(&self) -> (s: &'static str)
        ensures
            s@ == self.name(),
    {
        match self {
            Environment::Local => "local",
            Environment::Production => "production",
        }
    }

    /// Parses an environment name that is already in lowercase.
    pub fn parse_lowercased(lowered: String) -> (r: Result<Environment, String>)
        ensures
            match (r, parse_lowercased_spec(lowered@)) {
                (Ok(e), Ok(f)) => e == f,
                (Err(m), Err(n)) => m@ == n,
                _ => false,
            },
    {
        if lowered == String::from_str("local") {
            Ok(Environment::Local)
        } else if lowered == String::from_str("production") {
            Ok(Environment::Production)
        } else {
            let mut message = lowered;
            message.append(" is not a supported environment. Use either `local` or `production`.");
            Err(message)
        }
    }
}

/// Parsing a lowercased name accepts exactly the two environment names,
/// each giving its own environment; any other name is refused with a
/// message that starts with that name.
pub proof fn lemma_parse_accepts_exactly_the_names(lowered: Seq<char>)
    ensures
        match parse_lowercased_spec(lowered) {
            Ok(e) => lowered == e.name(),
            Err(msg) => {
                &&& lowered != Environment::Local.name()
                &&& lowered != Environment::Production.name()
                &&& msg.len() >= lowered.len()
                &&& msg.subrange(0, lowered.len() as int) == lowered
            },
        },
        lowered == Environment::Local.name() ==> parse_lowercased_spec(lowered) == Ok::<Environment, Seq<char>>(Environment::Local),
        lowered == Environment::Production.name() ==> parse_lowercased_spec(lowered) == Ok::<Environment, Seq<char>>(Environment::Production),
{
    reveal_strlit("local");
    reveal_strlit("production");
    assert("local"@ != "production"@) by {
        assert("local"@.len() != "production"@.len());
    }
    match parse_lowercased_spec(lowered) {
        Ok(_) => {},
        Err(msg) => {
            assert(msg.subrange(0, lowered.len() as int) =~= lowered);
        },
    }
}

/// Every environment's name is lowercase ASCII and parses back to the
/// environment: `Environment::try_from(e.as_str())` gives `e` again.
pub proof fn lemma_environment_name_round_trip(e: Environment)
    ensures
        all_ascii(e.name()),
        e.name().map_values(|c: char| ascii_lower(c)) == e.name(),
        parse_lowercased_spec(e.name()) == Ok::<Environment, Seq<char>>(e),
{
    reveal_strlit("local");
    reveal_strlit("production");
    assert("local"@ != "production"@) by {
        assert("local"@.len() != "production"@.len());
    }
    assert(e.name().map_values(|c: char| ascii_lower(c)) =~= e.name());
}

impl TryFrom<String> for Environment {
    type Error = String;

    /// Parses an environment name, in any letter case.
    fn try_from(s: String) -> (r: Result<Environment, String>)
        ensures
            match (r, parse_lowercased_spec(lowercase(s@))) {
                (Ok(e), Ok(f)) => e == f,
                (Err(m), Err(n)) => m@ == n,
                _ => false,
            },
            all_ascii(s@) ==> match (r, parse_lowercased_spec(s@.map_values(|c: char| ascii_lower(c)))) {
                (Ok(e), Ok(f)) => e == f,
                (Err(m), Err(n)) => m@ == n,
                _ => false,
            },
    {
        Environment::parse_lowercased(to_lowercase(s.as_str()))
    }
}

/// The conversion is specified by the contract of its `try_from` alone:
/// `obeys_try_from_spec` is false, so `try_from_spec` is never consulted.
impl vstd::std_specs::convert::TryFromSpecImpl<String> for Environment {
    open spec fn obeys_try_from_spec() -> bool {
        false
    }

    /// Unused, since `obeys_try_from_spec` is false: a placeholder that does
    /// not describe the conversion (see the contract of `try_from` instead).
    open spec fn try_from_spec(v: String) -> Result<Environment, String> {
        Err(v)
    }
}

} // verus!
