use vstd::prelude::*;

use crate::domain::subscriber_email::{is_valid_email, SubscriberEmail};

verus! {

/// What `str::to_lowercase` makes of `s`.
pub uninterp spec fn lower_of(s: Seq<char>) -> Seq<char>;

/// Relies on `str::to_lowercase`: the lower-case form of `s`, which depends on its characters
/// alone.
#[verifier::external_body]
fn lowercase(s: &str) -> (r: String)
    ensures
        r@ == lower_of(s@),
{
    s.to_lowercase()
}

/// Where the service listens.
#[derive(Debug)]
pub struct ApplicationSettings {
    pub port: u16,
    pub host: String,
}

/// How to reach the database.
pub struct DatabaseSettings {
    pub port: u16,
    pub host: String,
    pub database_name: String,
    pub database_password: String,
}

/// The connection address for the given user, password and host.
pub open spec fn connection_string_of(
    database_name: Seq<char>,
    password: Seq<char>,
    host: Seq<char>,
) -> Seq<char> {
    "mongodb+srv://"@ + database_name + ":"@ + password + "@"@ + host
}

impl DatabaseSettings {
    pub fn connection_string(&self) -> (r: String)
        ensures
            r@ == connection_string_of(self.database_name@, self.database_password@, self.host@),
    {
        "mongodb+srv://".to_string().concat(self.database_name.as_str()).concat(":").concat(
            self.database_password.as_str(),
        ).concat("@").concat(self.host.as_str())
    }
}

/// How to reach the mail provider, and as whom to send.
pub struct EmailClientSettings {
    pub base_url: String,
    pub client_secret: String,
    pub sender_email: String,
}

impl EmailClientSettings {
    /// The configured sender, accepted when it is a valid address.
    pub fn sender(&self) -> (r: Result<SubscriberEmail, String>)
        ensures
            r is Ok <==> is_valid_email(self.sender_email@),
            r matches Ok(e) ==> e@ == self.sender_email@,
            r matches Err(e) ==> e@ == self.sender_email@ + " is not a valid subscriber email."@,
    {
        SubscriberEmail::parse(self.sender_email.clone())
    }

    pub fn client_secret(&self) -> (r: String)
        ensures
            r@ == self.client_secret@,
    {
        self.client_secret.clone()
    }
}

/// All settings of the service.
pub struct Settings {
    pub database: DatabaseSettings,
    pub application: ApplicationSettings,
    pub email_client: EmailClientSettings,
}

/// The environment the service runs in; it selects a configuration file.
#[derive(Debug)]
pub enum Environment {
    Local,
    Production,
}

/// The message for an environment name that is not known.
pub open spec fn unknown_environment_message(name: Seq<char>) -> Seq<char> {
    name + " is not a supported environment. Use `local` or `production`."@
}

impl Environment {
    pub fn as_str(&self) -> (r: &'static str)
        ensures
            r@ == (match self {
                Environment::Local => "local"@,
                Environment::Production => "production"@,
            }),
    {
        match self {
            Environment::Local => "local",
            Environment::Production => "production",
        }
    }

    /// The environment named by `lower`, an already lower-cased name.
    pub fn from_lowercase(lower: String) -> (r: Result<Environment, String>)
        ensures
            r == Ok::<Environment, String>(Environment::Local) <==> lower@ == "local"@,
            r == Ok::<Environment, String>(Environment::Production) <==> lower@ == "production"@,
            r matches Err(e) ==> e@ == unknown_environment_message(lower@),
    {
        proof {
            reveal_strlit("local");
            reveal_strlit("production");
            assert("local"@.len() != "production"@.len());
        }
        if lower == "local".to_string() {
            Ok(Environment::Local)
        } else if lower == "production".to_string() {
            Ok(Environment::Production)
        } else {
            Err(lower.concat(" is not a supported environment. Use `local` or `production`."))
        }
    }

    /// The environment named by `s`, in any case.
    pub fn try_from(s: String) -> (r: Result<Environment, String>)
        ensures
            r == Ok::<Environment, String>(Environment::Local) <==> lower_of(s@) == "local"@,
            r == Ok::<Environment, String>(Environment::Production) <==> lower_of(s@)
                == "production"@,
            r matches Err(e) ==> e@ == unknown_environment_message(lower_of(s@)),
    {
        Environment::from_lowercase(lowercase(s.as_str()))
    }
}

} // verus!
