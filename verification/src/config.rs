//! Configuration and credential model: each backend (read/IMAP, send/SMTP)
//! carries a host, port, login and exactly one live credential variant.
//! The OAuth variant's access token is the only mutable part of a backend
//! configuration: it is replaced in place when a refresh-token grant
//! succeeds.

use vstd::prelude::*;

verus! {

/// Which kind of credential a backend was configured with.
#[derive(Debug, Clone, Copy, PartialEq, Eq, Structural)]
pub enum AuthKind {
    Password,
    OAuth,
}

/// Plain password credentials.
#[derive(Debug, Clone)]
pub struct PasswordConfig {
    pub raw: String,
}

/// OAuth client and token material for one backend. `access_token` is
/// mutated in place on a successful refresh; every other field is stable.
#[derive(Debug, Clone)]
pub struct OAuthConfig {
    pub client_id: String,
    pub client_secret: String,
    pub access_token: String,
    pub refresh_token: String,
    pub auth_url: String,
    pub token_url: String,
}

/// The credential tagged union: exactly one variant is live per backend.
#[derive(Debug, Clone)]
pub enum Auth {
    Password(PasswordConfig),
    OAuth(OAuthConfig),
}

impl Auth {
    /// The tag of the live variant.
    pub fn kind(&self) -> (k: AuthKind)
        ensures
            k == AuthKind::Password <==> self is Password,
            k == AuthKind::OAuth <==> self is OAuth,
    {
        match self {
            Auth::Password(_) => AuthKind::Password,
            Auth::OAuth(_) => AuthKind::OAuth,
        }
    }

    /// Installs a freshly granted access token. A no-op for password
    /// credentials; for OAuth credentials only `access_token` changes.
    pub fn apply_refreshed_token(&mut self, token: String)
        ensures
            *old(self) is Password ==> *final(self) == *old(self),
            *old(self) is OAuth ==> {
                &&& *final(self) is OAuth
                &&& (*final(self))->OAuth_0.access_token == token
                &&& (*final(self))->OAuth_0.client_id == (*old(self))->OAuth_0.client_id
                &&& (*final(self))->OAuth_0.client_secret == (*old(self))->OAuth_0.client_secret
                &&& (*final(self))->OAuth_0.refresh_token == (*old(self))->OAuth_0.refresh_token
                &&& (*final(self))->OAuth_0.auth_url == (*old(self))->OAuth_0.auth_url
                &&& (*final(self))->OAuth_0.token_url == (*old(self))->OAuth_0.token_url
            },
    {
        match self {
            Auth::Password(_) => {}
            Auth::OAuth(config) => {
                config.access_token = token;
            }
        }
    }
}

/// How a refresh-token grant against the token endpoint ended.
#[derive(Debug, Clone, PartialEq, Eq)]
pub enum RefreshOutcome {
    /// A new access token was granted.
    Granted { access_token: String },
    /// The grant failed; the cause is the server's words.
    Denied { cause: String },
}

/// The IMAP (read) backend configuration. Immutable except the embedded
/// access token.
#[derive(Debug, Clone)]
pub struct ImapConfig {
    pub host: String,
    pub port: u16,
    pub login: String,
    pub auth: Auth,
}

/// The SMTP (send) backend configuration. Immutable except the embedded
/// access token.
#[derive(Debug, Clone)]
pub struct SmtpConfig {
    pub host: String,
    pub port: u16,
    pub login: String,
    pub auth: Auth,
}

/// The tagged read-backend section of a configuration document.
#[derive(Debug, Clone)]
pub enum ReadBackend {
    Imap(ImapConfig),
}

/// The tagged send-backend section of a configuration document.
#[derive(Debug, Clone)]
pub enum SendBackend {
    Smtp(SmtpConfig),
}

/// A full configuration: one read backend and one send backend.
#[derive(Debug, Clone)]
pub struct Config {
    pub read: ReadBackend,
    pub send: SendBackend,
}

/// Configuration failures.
#[derive(Debug, Clone, PartialEq, Eq, Structural)]
pub enum ConfigError {
    /// No configuration file was found at any candidate location.
    NotFound,
}

/// A candidate location for the configuration file, together with whether a
/// file is already present there.
#[derive(Debug, Clone)]
pub struct ConfigCandidate {
    pub path: String,
    pub exists: bool,
}

/// Picks the configuration file to use: an explicitly given path always
/// wins; otherwise the file under the user's configuration directory is
/// taken when it exists; otherwise the file under the current directory when
/// it exists; otherwise no configuration can be found.
pub fn get_config_path(
    explicit: Option<String>,
    user_dir: Option<ConfigCandidate>,
    cwd: ConfigCandidate,
) -> (r: Result<String, ConfigError>)
    ensures
        explicit is Some ==> r == Ok::<String, ConfigError>(explicit->0),
        explicit is None && user_dir is Some && user_dir->0.exists
            ==> r == Ok::<String, ConfigError>(user_dir->0.path),
        explicit is None && !(user_dir is Some && user_dir->0.exists) && cwd.exists
            ==> r == Ok::<String, ConfigError>(cwd.path),
        explicit is None && !(user_dir is Some && user_dir->0.exists) && !cwd.exists
            ==> r == Err::<String, ConfigError>(ConfigError::NotFound),
{
    if let Some(path) = explicit {
        return Ok(path);
    }
    if let Some(candidate) = user_dir {
        if candidate.exists {
            return Ok(candidate.path);
        }
    }
    if cwd.exists {
        Ok(cwd.path)
    } else {
        Err(ConfigError::NotFound)
    }
}

} // verus!
