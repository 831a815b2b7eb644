//! The credentials of a user of the service, and the endpoints they sign
//! requests for.
use vstd::prelude::*;
use vstd::string::*;

verus! {

pub const BASE_URL: &'static str = "https://www.plurk.com";

pub const REQUEST_TOKEN_URL: &'static str = "/OAuth/request_token";

pub const AUTHORIZE_URL: &'static str = "/OAuth/authorize";

pub const ACCESS_TOKEN_URL: &'static str = "/OAuth/access_token";

/// A key and its secret.
#[derive(Debug, Clone)]
pub struct PlurkKeys {
    pub key: String,
    pub secret: String,
}

/// The application's consumer keys and, once granted, the user's access token.
#[derive(Debug, Clone)]
pub struct Plurk {
    pub consumer: PlurkKeys,
    pub oauth_token: Option<PlurkKeys>,
}

impl PlurkKeys {
    /// Both the key and the secret are set.
    pub open spec fn complete(&self) -> bool {
        self.key@.len() > 0 && self.secret@.len() > 0
    }
}

impl Plurk {
    /// Credentials from the command line: the access token is kept only where
    /// both its key and its secret are given.
    pub fn new(
        consumer_key: String,
        consumer_secret: String,
        token_key: Option<String>,
        token_secret: Option<String>,
    ) -> (r: Plurk)
        ensures
            r.consumer.key == consumer_key,
            r.consumer.secret == consumer_secret,
            match (token_key, token_secret) {
                (Some(k), Some(s)) => r.oauth_token == Some(PlurkKeys { key: k, secret: s }),
                _ => r.oauth_token is None,
            },
    {
        let oauth_token = match (token_key, token_secret) {
            (Some(key), Some(secret)) => Some(PlurkKeys { key, secret }),
            _ => None,
        };
        Plurk { consumer: PlurkKeys { key: consumer_key, secret: consumer_secret }, oauth_token }
    }

    /// Whether an access token with both parts is at hand.
    pub fn has_token(&self) -> (r: bool)
        ensures
            r == (self.oauth_token matches Some(t) && t.complete()),
    {
        match &self.oauth_token {
            Some(ot) => !(ot.key.as_str().is_empty() || ot.secret.as_str().is_empty()),
            None => false,
        }
    }

    /// The access token to sign with: the stored one where it has both parts,
    /// else none, and requests are signed with the consumer keys alone.
    pub fn usable_token(&self) -> (r: Option<&PlurkKeys>)
        ensures
            match self.oauth_token {
                Some(t) => if t.complete() {
                    r == Some(&t)
                } else {
                    r is None
                },
                None => r is None,
            },
    {
        match &self.oauth_token {
            Some(ot) => if ot.key.as_str().is_empty() || ot.secret.as_str().is_empty() {
                None
            } else {
                Some(ot)
            },
            None => None,
        }
    }

    /// Stores a granted access token.
    pub fn set_token(&mut self, key: String, secret: String)
        ensures
            final(self).consumer == old(self).consumer,
            final(self).oauth_token == Some(PlurkKeys { key, secret }),
    {
        self.oauth_token = Some(PlurkKeys { key, secret });
    }

    /// The full URL of an API path.
    pub fn cmd(api: &str) -> (r: String)
        ensures
            r@ == BASE_URL@ + api@,
    {
        String::from_str(BASE_URL).concat(api)
    }

    /// The page where the user grants access to the request token `token`.
    pub fn authorize_url(token: &str) -> (r: String)
        ensures
            r@ == BASE_URL@ + AUTHORIZE_URL@ + "?oauth_token="@ + token@,
    {
        String::from_str(BASE_URL).concat(AUTHORIZE_URL).concat("?oauth_token=").concat(token)
    }
}

} // verus!
