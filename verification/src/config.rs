use vstd::prelude::*;
use vstd::string::StringExecFns;

verus! {

/// The environments the application can run in.
#[derive(Clone, Copy, Debug, PartialEq, Eq, Structural)]
pub enum Environment {
    Local,
    Production,
}

/// The canonical name of an environment.
pub open spec fn spec_env_name(e: Environment) -> Seq<char> {
    match e {
        Environment::Local => "local"@,
        Environment::Production => "production"@,
    }
}

/// What `str::to_lowercase` returns for a text: a function of the
/// characters alone.
pub uninterp spec fn lowercase_of(s: Seq<char>) -> Seq<char>;

/// Relies on `str::to_lowercase` from std: the lower-cased text depends on
/// the characters of the input alone.
#[verifier::external_body]
fn to_lowercase(s: &str) -> (r: String)
    ensures
        r@ == lowercase_of(s@),
{
    s.to_lowercase()
}

impl Environment {
    /// The canonical lower-case name of the environment.
    pub fn as_str(&self) -> (r: &'static str)
        ensures
            r@ == spec_env_name(*self),
    {
        match self {
            Environment::Local => "local",
            Environment::Production => "production",
        }
    }

    /// Recognise an environment by name, ignoring case; any other name is
    /// rejected with a message naming it.
    pub fn try_from(s: String) -> (r: Result<Environment, String>)
        ensures
            r is Ok <==> lowercase_of(s@) == "local"@ || lowercase_of(s@) == "production"@,
            lowercase_of(s@) == "local"@ ==> r == Ok::<Environment, String>(Environment::Local),
            lowercase_of(s@) == "production"@ ==> r == Ok::<Environment, String>(
                Environment::Production,
            ),
            r matches Err(e) ==> e@ == s@ + " is not a supported environment."@,
    {
        proof {
            reveal_strlit("local");
            reveal_strlit("production");
            assert("local"@.len() == 5);
            assert("production"@.len() == 10);
            assert("local"@ != "production"@);
        }
        let lower = to_lowercase(s.as_str());
        if lower == String::from_str("local") {
            Ok(Environment::Local)
        } else if lower == String::from_str("production") {
            Ok(Environment::Production)
        } else {
            Err(s.concat(" is not a supported environment."))
        }
    }
}

/// The name of the configuration file read for an environment.
pub fn config_file_name(env: &Environment) -> (r: String)
    ensures
        r@ == spec_env_name(*env) + ".yaml"@,
{
    String::from_str(env.as_str()).concat(".yaml")
}

/// Where the application listens.
pub struct ApplicationSettings {
    pub port: u16,
    pub host: String,
}

/// How to reach the relational store. The password is held as the plain
/// text that enters the connection string.
pub struct DatabaseSettings {
    pub username: String,
    pub password: String,
    pub host: String,
    pub port: u16,
    pub database_name: String,
}

/// Everything the application is configured with.
pub struct Settings {
    pub database: DatabaseSettings,
    pub application: ApplicationSettings,
}

/// The decimal digit character for a value below ten.
pub open spec fn spec_digit(d: nat) -> char {
    if d == 0 {
        '0'
    } else if d == 1 {
        '1'
    } else if d == 2 {
        '2'
    } else if d == 3 {
        '3'
    } else if d == 4 {
        '4'
    } else if d == 5 {
        '5'
    } else if d == 6 {
        '6'
    } else if d == 7 {
        '7'
    } else if d == 8 {
        '8'
    } else {
        '9'
    }
}

/// The decimal representation of a number, most significant digit first,
/// without leading zeros (zero itself is the single digit `0`).
pub open spec fn spec_dec(n: nat) -> Seq<char>
    decreases n,
{
    if n < 10 {
        seq![spec_digit(n)]
    } else {
        spec_dec(n / 10).push(spec_digit(n % 10))
    }
}

/// The one-character text holding a decimal digit.
fn digit_str(d: u16) -> (r: &'static str)
    requires
        d < 10,
    ensures
        r@ == seq![spec_digit(d as nat)],
{
    let r: &'static str = match d {
        0 => "0",
        1 => "1",
        2 => "2",
        3 => "3",
        4 => "4",
        5 => "5",
        6 => "6",
        7 => "7",
        8 => "8",
        _ => "9",
    };
    proof {
        reveal_strlit("0");
        reveal_strlit("1");
        reveal_strlit("2");
        reveal_strlit("3");
        reveal_strlit("4");
        reveal_strlit("5");
        reveal_strlit("6");
        reveal_strlit("7");
        reveal_strlit("8");
        reveal_strlit("9");
        assert(r@ =~= seq![spec_digit(d as nat)]);
    }
    r
}

/// Append the decimal representation of `n` to `out`.
fn push_u16_dec(n: u16, out: &mut String)
    ensures
        final(out)@ == old(out)@ + spec_dec(n as nat),
    decreases n,
{
    if n >= 10 {
        push_u16_dec(n / 10, out);
    }
    out.append(digit_str(n % 10));
    proof {
        assert((*out)@ =~= old(out)@ + spec_dec(n as nat));
    }
}

/// The decimal representation of a port number.
pub fn u16_to_string(n: u16) -> (r: String)
    ensures
        r@ == spec_dec(n as nat),
{
    let mut r = String::new();
    push_u16_dec(n, &mut r);
    proof {
        assert(r@ =~= spec_dec(n as nat));
    }
    r
}

/// The connection string up to and including the port: scheme, credentials,
/// host and port.
pub open spec fn spec_connection_base(s: DatabaseSettings) -> Seq<char> {
    "postgres://"@ + s.username@ + ":"@ + s.password@ + "@"@ + s.host@ + ":"@ + spec_dec(
        s.port as nat,
    )
}

impl DatabaseSettings {
    /// The connection string naming the configured database.
    pub fn connection_string(&self) -> (r: String)
        ensures
            r@ == spec_connection_base(*self) + "/"@ + self.database_name@,
    {
        let mut r = self.connection_string_without_db();
        r.append("/");
        r.append(self.database_name.as_str());
        proof {
            assert(r@ =~= spec_connection_base(*self) + "/"@ + self.database_name@);
        }
        r
    }

    /// The connection string for the server itself, without a database.
    pub fn connection_string_without_db(&self) -> (r: String)
        ensures
            r@ == spec_connection_base(*self),
    {
        let mut r = String::from_str("postgres://");
        r.append(self.username.as_str());
        r.append(":");
        r.append(self.password.as_str());
        r.append("@");
        r.append(self.host.as_str());
        r.append(":");
        let port = u16_to_string(self.port);
        r.append(port.as_str());
        proof {
            assert(r@ =~= spec_connection_base(*self));
        }
        r
    }
}

} // verus!
