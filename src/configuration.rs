use crate::domain::subscriber_email::valid_email_of;
use crate::domain::SubscriberEmail;
use vstd::prelude::*;
use vstd::string::*;

verus! {

/// The lowercase mapping of a string, character by character.
pub uninterp spec fn lower_of(s: Seq<char>) -> Seq<char>;

/// Relies on `str::to_lowercase`: the Unicode lowercase mapping, which
/// depends on the characters alone.
#[verifier::external_body]
fn to_lowercase(s: &str) -> (r: String)
    ensures
        r@ == lower_of(s@),
{
    s.to_lowercase()
}

/// Settings of the whole service.
pub struct Settings {
    pub database: DatabaseSettings,
    pub application: ApplicationSettings,
    pub email_client: EmailClientSettings,
}

/// Settings of the email gateway's client.
pub struct EmailClientSettings {
    pub base_url: String,
    pub sender_email: String,
    pub auth_token: String,
    pub timeout_millis: u64,
}

impl EmailClientSettings {
    /// The configured sender address, if it is a valid email address.
    pub fn sender_email(&self) -> (r: Result<SubscriberEmail, String>)
        ensures
            r is Ok <==> valid_email_of(self.sender_email@),
            r matches Ok(e) ==> e@ == self.sender_email@,
            r matches Err(m) ==> m@ == self.sender_email@ + " is not a valid email"@,
    {
        SubscriberEmail::parse(self.sender_email.clone())
    }

    /// The timeout of each request to the gateway, in milliseconds.
    pub fn timeout_millis(&self) -> (r: u64)
        ensures
            r == self.timeout_millis,
    {
        self.timeout_millis
    }
}

/// How the connection to the database is encrypted.
#[derive(Clone, Copy, Debug, PartialEq, Eq, Structural)]
pub enum SslMode {
    Require,
    Prefer,
}

/// Settings of the relational store.
pub struct DatabaseSettings {
    pub username: String,
    pub password: String,
    pub host: String,
    pub port: u16,
    pub database_name: String,
    pub require_ssl: bool,
}

impl DatabaseSettings {
    /// TLS is required where the settings say so, else only preferred.
    pub fn ssl_mode(&self) -> (r: SslMode)
        ensures
            r == (if self.require_ssl {
                SslMode::Require
            } else {
                SslMode::Prefer
            }),
    {
        if self.require_ssl {
            SslMode::Require
        } else {
            SslMode::Prefer
        }
    }
}

/// Where the service listens, and the base of the links it sends out.
pub struct ApplicationSettings {
    pub host: String,
    pub port: u16,
    pub base_url: String,
}

/// The deployment environment, which selects a configuration file.
#[derive(Clone, Copy, Debug, PartialEq, Eq, Structural)]
pub enum Environment {
    Local,
    Production,
}

impl Environment {
    pub open spec fn name(self) -> Seq<char> {
        match self {
            Environment::Local => "local"@,
            Environment::Production => "production"@,
        }
    }

    pub fn as_str(&self) -> (r: &'static str)
        ensures
            r@ == self.name(),
    {
        match self {
            Environment::Local => "local",
            Environment::Production => "production",
        }
    }

    /// The name of the file that holds this environment's settings.
    pub fn config_file(&self) -> (r: String)
        ensures
            r@ == self.name() + ".yaml"@,
    {
        let mut file = String::from_str(self.as_str());
        file.append(".yaml");
        file
    }

    /// The environment named by `value`, in any letter case.
    pub fn try_from(value: String) -> (r: Result<Environment, String>)
        ensures
            r matches Ok(e) ==> e.name() == lower_of(value@),
            r is Err <==> lower_of(value@) != "local"@ && lower_of(value@) != "production"@,
            r matches Err(m) ==> m@ == "unknown environment "@ + value@ + " provided"@,
    {
        let lowered = to_lowercase(value.as_str());
        Self::from_lowercase(&value, &lowered)
    }

    /// The environment named by `lowered`, the lowercase form of `value`.
    pub fn from_lowercase(value: &String, lowered: &String) -> (r: Result<Environment, String>)
        ensures
            r matches Ok(e) ==> e.name() == lowered@,
            r is Err <==> lowered@ != "local"@ && lowered@ != "production"@,
            r matches Err(m) ==> m@ == "unknown environment "@ + value@ + " provided"@,
    {
        if *lowered == String::from_str("local") {
            Ok(Environment::Local)
        } else if *lowered == String::from_str("production") {
            Ok(Environment::Production)
        } else {
            let mut m = String::from_str("unknown environment ");
            m.append(value.as_str());
            m.append(" provided");
            Err(m)
        }
    }
}

} // verus!
