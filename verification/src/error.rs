//! The ways in which an operation can fail.

use vstd::prelude::*;

verus! {

/// One of the four secrets that a client needs, in the order in which they
/// are looked for.
#[derive(Clone, Copy, Debug, PartialEq, Eq, Structural)]
pub enum Credential {
    ConsumerKey,
    ConsumerSecretKey,
    AccessToken,
    SecretAccessToken,
}

impl Credential {
    /// The name under which the secret is known to callers.
    pub open spec fn name_spec(self) -> Seq<char> {
        match self {
            Credential::ConsumerKey => "consumer_key"@,
            Credential::ConsumerSecretKey => "consumer_secret_key"@,
            Credential::AccessToken => "access_token"@,
            Credential::SecretAccessToken => "secret_access_token"@,
        }
    }

    /// The name under which the secret is known to callers.
    pub fn name(&self) -> (r: &'static str)
        ensures
            r@ == self.name_spec(),
    {
        match self {
            Credential::ConsumerKey => "consumer_key",
            Credential::ConsumerSecretKey => "consumer_secret_key",
            Credential::AccessToken => "access_token",
            Credential::SecretAccessToken => "secret_access_token",
        }
    }
}

/// Why an operation failed. Each failure ends the operation it occurred in;
/// nothing is retried and no partial result is handed out.
#[derive(Clone, Debug, PartialEq, Eq)]
pub enum TwitterBotError {
    /// A secret was never given to the client.
    MissingCredential(Credential),
    /// The address of the request is not a valid `http` or `https` URL.
    UrlParse,
    /// The request could not be exchanged for a response; the text says why.
    Transport(String),
    /// The service answered with an error of its own; `code` and `message`
    /// are those of the first entry it listed.
    Api { code: i64, message: String },
    /// The body of the response does not have the expected shape.
    Decode,
}

/// What a [`TwitterBotError`] stands for.
pub enum ErrorView {
    MissingCredential(Credential),
    UrlParse,
    Transport(Seq<char>),
    Api { code: int, message: Seq<char> },
    Decode,
}

impl View for TwitterBotError {
    type V = ErrorView;

    open spec fn view(&self) -> ErrorView {
        match self {
            TwitterBotError::MissingCredential(c) => ErrorView::MissingCredential(*c),
            TwitterBotError::UrlParse => ErrorView::UrlParse,
            TwitterBotError::Transport(text) => ErrorView::Transport(text@),
            TwitterBotError::Api { code, message } => ErrorView::Api {
                code: *code as int,
                message: message@,
            },
            TwitterBotError::Decode => ErrorView::Decode,
        }
    }
}

impl ErrorView {
    /// The text shown to a person for this error.
    pub open spec fn description(self) -> Seq<char> {
        match self {
            ErrorView::MissingCredential(c) => c.name_spec() + " missing"@,
            ErrorView::UrlParse => "invalid request URL"@,
            ErrorView::Transport(text) => text,
            ErrorView::Api { message, .. } => message,
            ErrorView::Decode => "unexpected response body"@,
        }
    }
}

impl TwitterBotError {
    /// The text shown to a person for this error: which secret is missing,
    /// or what the service or the transport said.
    pub fn description(&self) -> (r: String)
        ensures
            r@ == self@.description(),
    {
        match self {
            TwitterBotError::MissingCredential(c) => {
                let mut text = c.name().to_owned();
                text.append(" missing");
                text
            },
            TwitterBotError::UrlParse => "invalid request URL".to_owned(),
            TwitterBotError::Transport(text) => text.clone(),
            TwitterBotError::Api { message, .. } => message.clone(),
            TwitterBotError::Decode => "unexpected response body".to_owned(),
        }
    }
}

} // verus!
