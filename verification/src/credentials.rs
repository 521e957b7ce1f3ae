//! The credential pairs that the flow passes around.
use vstd::prelude::*;

verus! {

/// Why a set of consumer credentials was not accepted at startup.
#[derive(Debug, PartialEq, Eq)]
pub enum ConfigError {
    /// No consumer key was configured, or it is the empty string.
    MissingConsumerKey,
    /// No consumer secret was configured, or it is the empty string.
    MissingConsumerSecret,
}

/// The key and secret that identify this application to the provider.
#[derive(Debug, PartialEq, Eq)]
pub struct ConsumerCredentials {
    pub key: String,
    pub secret: String,
}

/// A request token together with the secret that only the consumer and the
/// provider know.
#[derive(Debug, PartialEq, Eq)]
pub struct TemporaryToken {
    pub token: String,
    pub secret: String,
}

/// The outcome that `ConsumerCredentials::from_config` owes for a pair of
/// configured values: the key is looked at first.
pub open spec fn config_outcome(key: Option<Seq<char>>, secret: Option<Seq<char>>) -> Result<
    (Seq<char>, Seq<char>),
    ConfigError,
> {
    if key.is_none() || key.unwrap().len() == 0 {
        Err(ConfigError::MissingConsumerKey)
    } else if secret.is_none() || secret.unwrap().len() == 0 {
        Err(ConfigError::MissingConsumerSecret)
    } else {
        Ok((key.unwrap(), secret.unwrap()))
    }
}

/// The view of an optional string.
pub open spec fn opt_view(s: Option<String>) -> Option<Seq<char>> {
    match s {
        Some(s) => Some(s@),
        None => None,
    }
}

impl ConsumerCredentials {
    /// A pair of credentials, taken as given.
    pub fn new(key: String, secret: String) -> (r: Self)
        ensures
            r.key == key,
            r.secret == secret,
    {
        ConsumerCredentials { key, secret }
    }

    /// Both halves are non-empty.
    pub open spec fn is_complete(&self) -> bool {
        self.key@.len() > 0 && self.secret@.len() > 0
    }

    /// Builds the credentials from the two configured values, each of which
    /// may be absent. Both must be present and non-empty.
    pub fn from_config(key: Option<String>, secret: Option<String>) -> (r: Result<
        Self,
        ConfigError,
    >)
        ensures
            match r {
                Ok(c) => config_outcome(opt_view(key), opt_view(secret)) == Ok::<
                    (Seq<char>, Seq<char>),
                    ConfigError,
                >((c.key@, c.secret@)) && c.is_complete(),
                Err(e) => config_outcome(opt_view(key), opt_view(secret)) == Err::<
                    (Seq<char>, Seq<char>),
                    ConfigError,
                >(e),
            },
    {
        match key {
            None => Err(ConfigError::MissingConsumerKey),
            Some(k) => {
                if k.as_str().is_empty() {
                    Err(ConfigError::MissingConsumerKey)
                } else {
                    match secret {
                        None => Err(ConfigError::MissingConsumerSecret),
                        Some(s) => {
                            if s.as_str().is_empty() {
                                Err(ConfigError::MissingConsumerSecret)
                            } else {
                                Ok(ConsumerCredentials { key: k, secret: s })
                            }
                        },
                    }
                }
            },
        }
    }
}

impl Clone for ConsumerCredentials {
    fn clone(&self) -> (r: Self)
        ensures
            r == *self,
    {
        ConsumerCredentials { key: self.key.clone(), secret: self.secret.clone() }
    }
}

impl TemporaryToken {
    /// A token and its secret, taken as given.
    pub fn new(token: String, secret: String) -> (r: Self)
        ensures
            r.token == token,
            r.secret == secret,
    {
        TemporaryToken { token, secret }
    }
}

impl Clone for TemporaryToken {
    fn clone(&self) -> (r: Self)
        ensures
            r == *self,
    {
        TemporaryToken { token: self.token.clone(), secret: self.secret.clone() }
    }
}

} // verus!
