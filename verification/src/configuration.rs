//! The settings of the service, and what is derived from them.

use crate::domain::subscriber_email::{email_is_valid, invalid_email_message};
use crate::domain::SubscriberEmail;
use crate::text::{lowercase, same_text, to_lowercase};
use vstd::prelude::*;
use vstd::string::StringExecFns;

verus! {

/// All settings.
pub struct Settings {
    pub database: DatabaseSettings,
    pub application: ApplicationSettings,
    pub email_client: EmailClientSettings,
}

/// How the database is reached.
pub struct DatabaseSettings {
    pub username: String,
    pub password: String,
    pub port: u16,
    pub host: String,
    pub database_name: String,
}

/// Where the service listens, and under which URL it is reached.
pub struct ApplicationSettings {
    pub port: u16,
    pub host: String,
    pub base_url: String,
}

/// How the email gateway is reached.
pub struct EmailClientSettings {
    pub base_url: String,
    pub sender_email: String,
    pub auth_token: String,
    pub timeout_millis: u64,
}

impl EmailClientSettings {
    /// The address that emails are sent from, if the setting is a valid
    /// address.
    pub fn sender(&self) -> (r: Result<SubscriberEmail, String>)
        ensures
            r is Ok <==> email_is_valid(self.sender_email@),
            r matches Ok(email) ==> email@ == self.sender_email@,
            r matches Err(message) ==> message@ == invalid_email_message(self.sender_email@),
    {
        SubscriberEmail::parse(self.sender_email.as_str())
    }

    /// The time allowed to a request to the gateway, in milliseconds.
    pub fn timeout(&self) -> (millis: u64)
        ensures
            millis == self.timeout_millis,
    {
        self.timeout_millis
    }
}

/// The options of a connection to the database, as plain values.
#[derive(Debug, PartialEq, Eq)]
pub struct ConnectOptions {
    pub host: String,
    pub username: String,
    pub password: String,
    pub port: u16,
    /// The database to connect to; none for the server's default.
    pub database: Option<String>,
    /// Whether statements are logged at trace level.
    pub trace_statements: bool,
}

/// What a `ConnectOptions` holds.
pub struct Connection {
    pub host: Seq<char>,
    pub username: Seq<char>,
    pub password: Seq<char>,
    pub port: u16,
    pub database: Option<Seq<char>>,
    pub trace_statements: bool,
}

impl View for ConnectOptions {
    type V = Connection;

    open spec fn view(&self) -> Connection {
        Connection {
            host: self.host@,
            username: self.username@,
            password: self.password@,
            port: self.port,
            database: match self.database {
                Some(name) => Some(name@),
                None => None,
            },
            trace_statements: self.trace_statements,
        }
    }
}

impl DatabaseSettings {
    /// The connection to the server, without a database.
    pub open spec fn server(&self) -> Connection {
        Connection {
            host: self.host@,
            username: self.username@,
            password: self.password@,
            port: self.port,
            database: None,
            trace_statements: false,
        }
    }

    /// The options that connect to the service's database, with
    /// statements logged at trace level.
    pub fn with_db(&self) -> (options: ConnectOptions)
        ensures
            options@ == (Connection {
                database: Some(self.database_name@),
                trace_statements: true,
                ..self.server()
            }),
    {
        let mut options = self.without_db();
        options.database = Some(self.database_name.clone());
        options.trace_statements = true;
        options
    }

    /// The options that connect to the server without naming a database.
    pub fn without_db(&self) -> (options: ConnectOptions)
        ensures
            options@ == self.server(),
    {
        ConnectOptions {
            host: self.host.clone(),
            username: self.username.clone(),
            password: self.password.clone(),
            port: self.port,
            database: None,
            trace_statements: false,
        }
    }
}

/// The deployment environments that the service knows.
#[derive(Clone, Copy, Debug, PartialEq, Eq, Structural)]
pub enum Environment {
    Local,
    Production,
}

/// What is answered to a name that is no environment.
pub open spec fn unsupported_environment(name: Seq<char>) -> Seq<char> {
    name + " is not a supported environment. Use either `local` or `production`."@
}

/// The environment with the lower-case name `lowered`.
pub open spec fn environment_named(lowered: Seq<char>) -> Result<Environment, Seq<char>> {
    if lowered == "local"@ {
        Ok(Environment::Local)
    } else if lowered == "production"@ {
        Ok(Environment::Production)
    } else {
        Err(unsupported_environment(lowered))
    }
}

/// Whether `r` is the result `expected`, the message compared by what it
/// holds.
pub open spec fn environment_matches(
    r: Result<Environment, String>,
    expected: Result<Environment, Seq<char>>,
) -> bool {
    match r {
        Ok(environment) => expected == Ok::<Environment, Seq<char>>(environment),
        Err(message) => expected == Err::<Environment, Seq<char>>(message@),
    }
}

impl Environment {
    pub open spec fn name(&self) -> Seq<char> {
        match self {
            Environment::Local => "local"@,
            Environment::Production => "production"@,
        }
    }

    /// The lower-case name of the environment, which is also the name of
    /// its settings file.
    pub fn as_str(&self) -> (name: &'static str)
        ensures
            name@ == self.name(),
    {
        match self {
            Environment::Local => "local",
            Environment::Production => "production",
        }
    }

    /// The environment with the lower-case name `lowered`.
    pub fn from_lowercase(lowered: &str) -> (r: Result<Environment, String>)
        ensures
            environment_matches(r, environment_named(lowered@)),
    {
        if same_text(lowered, "local") {
            Ok(Environment::Local)
        } else if same_text(lowered, "production") {
            Ok(Environment::Production)
        } else {
            let mut message = String::from_str(lowered);
            message.append(" is not a supported environment. Use either `local` or `production`.");
            Err(message)
        }
    }

    /// The environment that `s` names, in whatever case it is written.
    pub fn try_from(s: String) -> (r: Result<Environment, String>)
        ensures
            environment_matches(r, environment_named(lowercase(s@))),
    {
        let lowered = to_lowercase(s.as_str());
        Environment::from_lowercase(lowered.as_str())
    }

    /// The environment that the variable of the environment names, and
    /// the local one where the variable is not set.
    pub fn from_variable(variable: Option<String>) -> (r: Result<Environment, String>)
        ensures
            environment_matches(
                r,
                match variable {
                    Some(name) => environment_named(lowercase(name@)),
                    None => environment_named(lowercase("local"@)),
                },
            ),
    {
        match variable {
            Some(name) => Environment::try_from(name),
            None => Environment::try_from(String::from_str("local")),
        }
    }
}

} // verus!
