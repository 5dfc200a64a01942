//! The command-line surface as plain data: the two subcommands, the OAuth
//! provider catalogue with its fixed endpoints, and the configuration
//! choices of the interactive login.

use vstd::prelude::*;

verus! {

/// A supported OAuth provider.
#[derive(Debug, Clone, Copy, PartialEq, Eq, Structural)]
pub enum Provider {
    Gmail,
}

/// The endpoints and scope an authorization flow against a provider uses.
#[derive(Debug, Clone)]
pub struct ProviderEndpoints {
    pub auth_url: String,
    pub token_url: String,
    pub redirect_url: String,
    pub scope: String,
}

impl Provider {
    /// The provider's name as shown on the command line.
    pub fn name(&self) -> (r: String)
        ensures
            *self is Gmail ==> r@ == "gmail"@,
    {
        match self {
            Provider::Gmail => "gmail".to_owned(),
        }
    }

    /// The provider's fixed endpoints: where the user authorizes, where
    /// codes are exchanged, where the local listener receives the redirect,
    /// and the scope requested.
    pub fn endpoints(&self) -> (r: ProviderEndpoints)
        ensures
            *self is Gmail ==> {
                &&& r.auth_url@ == "https://accounts.google.com/o/oauth2/auth"@
                &&& r.token_url@ == "https://oauth2.googleapis.com/token"@
                &&& r.redirect_url@ == "http://localhost:3000"@
                &&& r.scope@ == "https://mail.google.com/"@
            },
    {
        match self {
            Provider::Gmail => ProviderEndpoints {
                auth_url: "https://accounts.google.com/o/oauth2/auth".to_owned(),
                token_url: "https://oauth2.googleapis.com/token".to_owned(),
                redirect_url: "http://localhost:3000".to_owned(),
                scope: "https://mail.google.com/".to_owned(),
            },
        }
    }
}

/// The subcommands: run the interactive login flow for a provider, or run
/// the client against a configuration file.
#[derive(Debug, Clone)]
pub enum Command {
    Login { provider: Provider },
    Run { config: Option<String> },
}

/// The parsed command line.
#[derive(Debug, Clone)]
pub struct App {
    pub command: Command,
}

/// Which credential kind an interactive configuration sets up.
#[derive(Debug, Clone, Copy, PartialEq, Eq, Structural)]
pub enum Authentication {
    OAuth,
    Password,
}

/// Options of the interactive configuration subcommand.
#[derive(Debug, Clone)]
pub struct Options {
    pub authentication: Authentication,
}

} // verus!
