//! The XOAUTH2 SASL response used to authenticate an IMAP session with a
//! bearer access token.

use vstd::prelude::*;

use crate::config::OAuthConfig;

verus! {

/// The XOAUTH2 initial client response for `user` carrying `token`:
/// `user=<user>\x01auth=Bearer <token>\x01\x01`.
pub open spec fn xoauth2_line(user: Seq<char>, token: Seq<char>) -> Seq<char> {
    "user="@ + user + "\u{1}auth=Bearer "@ + token + "\u{1}\u{1}"@
}

/// An IMAP XOAUTH2 authenticator: the login name together with the access
/// token it presents.
#[derive(Debug, Clone)]
pub struct OAuthConfigWithUser {
    pub user: String,
    pub access_token: String,
}

impl OAuthConfigWithUser {
    /// Binds a login name to the access token of an OAuth configuration.
    pub fn new(user: &str, config: &OAuthConfig) -> (r: OAuthConfigWithUser)
        ensures
            r.user@ == user@,
            r.access_token@ == config.access_token@,
    {
        OAuthConfigWithUser { user: user.to_owned(), access_token: config.access_token.clone() }
    }

    /// The SASL response sent for any server challenge: XOAUTH2 ignores the
    /// challenge bytes and always answers with the fixed bearer line.
    pub fn process(&self, _challenge: &[u8]) -> (r: String)
        ensures
            r@ == xoauth2_line(self.user@, self.access_token@),
    {
        let mut r = String::new();
        r.append("user=");
        r.append(self.user.as_str());
        r.append("\u{1}auth=Bearer ");
        r.append(self.access_token.as_str());
        r.append("\u{1}\u{1}");
        r
    }
}

} // verus!
