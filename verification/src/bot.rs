//! The client and its four secrets.

use vstd::prelude::*;
use crate::error::{Credential, TwitterBotError};
use crate::text::opt_text_view;

verus! {

/// A client of the service. It is made empty, given its four secrets one
/// by one, and from then on only read.
#[derive(Clone, Debug)]
pub struct TwitterBot {
    consumer_key: Option<String>,
    consumer_secret_key: Option<String>,
    access_token: Option<String>,
    secret_access_token: Option<String>,
}

/// The four secrets of a client that has them all.
pub(crate) struct Secrets<'a> {
    pub consumer_key: &'a str,
    pub consumer_secret_key: &'a str,
    pub access_token: &'a str,
    pub secret_access_token: &'a str,
}

/// What a [`TwitterBot`] holds: each secret, if it was given.
pub struct TwitterBotView {
    pub consumer_key: Option<Seq<char>>,
    pub consumer_secret_key: Option<Seq<char>>,
    pub access_token: Option<Seq<char>>,
    pub secret_access_token: Option<Seq<char>>,
}

impl TwitterBotView {
    /// The client that holds no secret.
    pub open spec fn empty() -> TwitterBotView {
        TwitterBotView {
            consumer_key: None,
            consumer_secret_key: None,
            access_token: None,
            secret_access_token: None,
        }
    }

    /// The secret of the given kind, if it was given.
    pub open spec fn secret(self, which: Credential) -> Option<Seq<char>> {
        match which {
            Credential::ConsumerKey => self.consumer_key,
            Credential::ConsumerSecretKey => self.consumer_secret_key,
            Credential::AccessToken => self.access_token,
            Credential::SecretAccessToken => self.secret_access_token,
        }
    }

    /// The first secret that is absent, in the order consumer key, consumer
    /// secret, access token, access token secret.
    pub open spec fn missing(self) -> Option<Credential> {
        if self.consumer_key is None {
            Some(Credential::ConsumerKey)
        } else if self.consumer_secret_key is None {
            Some(Credential::ConsumerSecretKey)
        } else if self.access_token is None {
            Some(Credential::AccessToken)
        } else if self.secret_access_token is None {
            Some(Credential::SecretAccessToken)
        } else {
            None
        }
    }

    /// Whether all four secrets are present.
    pub open spec fn ready(self) -> bool {
        self.missing() is None
    }
}

impl View for TwitterBot {
    type V = TwitterBotView;

    closed spec fn view(&self) -> TwitterBotView {
        TwitterBotView {
            consumer_key: opt_text_view(self.consumer_key),
            consumer_secret_key: opt_text_view(self.consumer_secret_key),
            access_token: opt_text_view(self.access_token),
            secret_access_token: opt_text_view(self.secret_access_token),
        }
    }
}

impl TwitterBot {
    /// A client without any secret.
    pub fn new() -> (bot: Self)
        ensures
            bot@ == TwitterBotView::empty(),
    {
        TwitterBot {
            consumer_key: None,
            consumer_secret_key: None,
            access_token: None,
            secret_access_token: None,
        }
    }

    /// Sets the application's key.
    pub fn consumer_key(self, consumer_key: &str) -> (bot: Self)
        ensures
            bot@ == (TwitterBotView { consumer_key: Some(consumer_key@), ..self@ }),
    {
        TwitterBot { consumer_key: Some(consumer_key.to_owned()), ..self }
    }

    /// Sets the application's secret.
    pub fn consumer_secret_key(self, consumer_secret_key: &str) -> (bot: Self)
        ensures
            bot@ == (TwitterBotView { consumer_secret_key: Some(consumer_secret_key@), ..self@ }),
    {
        TwitterBot { consumer_secret_key: Some(consumer_secret_key.to_owned()), ..self }
    }

    /// Sets the user's access token.
    pub fn access_token(self, access_token: &str) -> (bot: Self)
        ensures
            bot@ == (TwitterBotView { access_token: Some(access_token@), ..self@ }),
    {
        TwitterBot { access_token: Some(access_token.to_owned()), ..self }
    }

    /// Sets the secret of the user's access token.
    pub fn secret_access_token(self, secret_access_token: &str) -> (bot: Self)
        ensures
            bot@ == (TwitterBotView { secret_access_token: Some(secret_access_token@), ..self@ }),
    {
        TwitterBot { secret_access_token: Some(secret_access_token.to_owned()), ..self }
    }

    /// The secret of the given kind, if it was given.
    pub fn secret(&self, which: Credential) -> (r: Option<&str>)
        ensures
            match r {
                Some(text) => self@.secret(which) == Some(text@),
                None => self@.secret(which) is None,
            },
    {
        let held = match which {
            Credential::ConsumerKey => &self.consumer_key,
            Credential::ConsumerSecretKey => &self.consumer_secret_key,
            Credential::AccessToken => &self.access_token,
            Credential::SecretAccessToken => &self.secret_access_token,
        };
        match held {
            Some(text) => Some(text.as_str()),
            None => None,
        }
    }

    /// The four secrets, or the first that is missing. This is the one
    /// place where their presence is decided.
    pub(crate) fn secrets(&self) -> (r: Result<Secrets<'_>, TwitterBotError>)
        ensures
            match self@.missing() {
                Some(c) => r == Err::<Secrets<'_>, _>(TwitterBotError::MissingCredential(c)),
                None => {
                    &&& r matches Ok(secrets)
                    &&& Some(secrets.consumer_key@) == self@.consumer_key
                    &&& Some(secrets.consumer_secret_key@) == self@.consumer_secret_key
                    &&& Some(secrets.access_token@) == self@.access_token
                    &&& Some(secrets.secret_access_token@) == self@.secret_access_token
                },
            },
    {
        let consumer_key = match &self.consumer_key {
            Some(text) => text.as_str(),
            None => {
                return Err(TwitterBotError::MissingCredential(Credential::ConsumerKey));
            },
        };
        let consumer_secret_key = match &self.consumer_secret_key {
            Some(text) => text.as_str(),
            None => {
                return Err(TwitterBotError::MissingCredential(Credential::ConsumerSecretKey));
            },
        };
        let access_token = match &self.access_token {
            Some(text) => text.as_str(),
            None => {
                return Err(TwitterBotError::MissingCredential(Credential::AccessToken));
            },
        };
        let secret_access_token = match &self.secret_access_token {
            Some(text) => text.as_str(),
            None => {
                return Err(TwitterBotError::MissingCredential(Credential::SecretAccessToken));
            },
        };
        Ok(Secrets { consumer_key, consumer_secret_key, access_token, secret_access_token })
    }

    /// Reports the first secret that is still missing, if any. An operation
    /// on a client for which this returns an error fails with that error.
    pub fn is_connected(&self) -> (r: Option<TwitterBotError>)
        ensures
            r == match self@.missing() {
                Some(c) => Some(TwitterBotError::MissingCredential(c)),
                None => None,
            },
    {
        match self.secrets() {
            Ok(_) => None,
            Err(e) => Some(e),
        }
    }
}

impl Default for TwitterBot {
    fn default() -> (bot: Self)
        ensures
            bot@ == TwitterBotView::empty(),
    {
        TwitterBot::new()
    }
}

} // verus!
