//! Requests to the service: where they go, and how they are signed.

use vstd::prelude::*;
use crate::bot::{Secrets, TwitterBot, TwitterBotView};
use crate::error::{Credential, ErrorView, TwitterBotError};
use crate::query::{
    form_urlencode, lemma_plus_concat, lemma_plus_free_is_kept, lemma_query_is_sent_pair_by_pair,
    query_text, sent_query,
};
use crate::text::{
    decimal, decimal_text, has_prefix, lemma_decimal_has_no_plus, plus_as_percent20, replace_plus,
    starts_with,
};

verus! {

/// The HTTP methods that the service is addressed with.
#[derive(Clone, Copy, Debug, PartialEq, Eq, Structural)]
pub enum Method {
    Get,
    Post,
}

impl Method {
    /// The method's name as it stands in a request.
    pub open spec fn name(self) -> Seq<char> {
        match self {
            Method::Get => "GET"@,
            Method::Post => "POST"@,
        }
    }

    /// The method's name as it stands in a request.
    pub fn as_str(&self) -> (r: &'static str)
        ensures
            r@ == self.name(),
    {
        match self {
            Method::Get => "GET",
            Method::Post => "POST",
        }
    }
}

/// The operations of the service that this library speaks to.
#[derive(Clone, Copy, Debug, PartialEq, Eq, Structural)]
pub enum Endpoint {
    /// Publish a status.
    StatusesUpdate,
    /// Mark a status as a favorite.
    FavoritesCreate,
    /// Take the favorite mark off a status.
    FavoritesDestroy,
    /// Repeat the status with the given identifier.
    Retweet(i64),
    /// Take back the repetition of the status with the given identifier.
    Unretweet(i64),
    /// Look up one status.
    StatusesShow,
    /// Search for statuses.
    SearchTweets,
    /// Upload a file, to attach it to a status later.
    MediaUpload,
}

impl Endpoint {
    /// The method under which the service offers the operation.
    pub open spec fn method_spec(self) -> Method {
        match self {
            Endpoint::StatusesShow | Endpoint::SearchTweets => Method::Get,
            _ => Method::Post,
        }
    }

    /// The address of the operation, before any query is added to it.
    pub open spec fn address(self) -> Seq<char> {
        match self {
            Endpoint::StatusesUpdate => "https://api.twitter.com/1.1/statuses/update.json"@,
            Endpoint::FavoritesCreate => "https://api.twitter.com/1.1/favorites/create.json"@,
            Endpoint::FavoritesDestroy => "https://api.twitter.com/1.1/favorites/destroy.json"@,
            Endpoint::Retweet(id) => "https://api.twitter.com/1.1/statuses/retweet/"@ + decimal(
                id as int,
            ) + ".json"@,
            Endpoint::Unretweet(id) => "https://api.twitter.com/1.1/statuses/unretweet/"@
                + decimal(id as int) + ".json"@,
            Endpoint::StatusesShow => "https://api.twitter.com/1.1/statuses/show.json"@,
            Endpoint::SearchTweets => "https://api.twitter.com/1.1/search/tweets.json"@,
            Endpoint::MediaUpload => "https://upload.twitter.com/1.1/media/upload.json"@,
        }
    }

    /// The method under which the service offers the operation.
    pub fn method(&self) -> (m: Method)
        ensures
            m == self.method_spec(),
    {
        match self {
            Endpoint::StatusesShow | Endpoint::SearchTweets => Method::Get,
            _ => Method::Post,
        }
    }

    /// The address of the operation, before any query is added to it.
    pub fn url(&self) -> (r: String)
        ensures
            r@ == self.address(),
    {
        match self {
            Endpoint::StatusesUpdate => {
                "https://api.twitter.com/1.1/statuses/update.json".to_owned()
            },
            Endpoint::FavoritesCreate => {
                "https://api.twitter.com/1.1/favorites/create.json".to_owned()
            },
            Endpoint::FavoritesDestroy => {
                "https://api.twitter.com/1.1/favorites/destroy.json".to_owned()
            },
            Endpoint::Retweet(id) => {
                let mut text = "https://api.twitter.com/1.1/statuses/retweet/".to_owned();
                text.append(decimal_text(*id).as_str());
                text.append(".json");
                text
            },
            Endpoint::Unretweet(id) => {
                let mut text = "https://api.twitter.com/1.1/statuses/unretweet/".to_owned();
                text.append(decimal_text(*id).as_str());
                text.append(".json");
                text
            },
            Endpoint::StatusesShow => "https://api.twitter.com/1.1/statuses/show.json".to_owned(),
            Endpoint::SearchTweets => "https://api.twitter.com/1.1/search/tweets.json".to_owned(),
            Endpoint::MediaUpload => "https://upload.twitter.com/1.1/media/upload.json".to_owned(),
        }
    }
}

/// The text from which the address of a request is read: the operation's
/// address, then `?` and the query where there are parameters, and every
/// `+` of the whole rewritten as `%20`.
pub open spec fn request_text(endpoint: Endpoint, pairs: Seq<(Seq<char>, Seq<char>)>) -> Seq<char> {
    if pairs.len() == 0 {
        plus_as_percent20(endpoint.address())
    } else {
        plus_as_percent20(endpoint.address() + seq!['?'] + query_text(pairs))
    }
}

/// No address of the service holds a `+`.
pub proof fn lemma_address_has_no_plus(endpoint: Endpoint)
    ensures
        forall|i: int| 0 <= i < endpoint.address().len() ==> endpoint.address()[i] != '+',
{
    let address = endpoint.address();
    match endpoint {
        Endpoint::Retweet(id) => {
            let head = "https://api.twitter.com/1.1/statuses/retweet/"@;
            reveal_strlit("https://api.twitter.com/1.1/statuses/retweet/");
            reveal_strlit(".json");
            lemma_decimal_has_no_plus(id as int);
            assert forall|i: int| 0 <= i < address.len() implies address[i] != '+' by {
                if i < head.len() {
                    assert(address[i] == head[i]);
                } else if i < head.len() + decimal(id as int).len() {
                    assert(address[i] == decimal(id as int)[i - head.len()]);
                } else {
                    assert(address[i] == ".json"@[i - head.len() - decimal(id as int).len()]);
                }
            }
        },
        Endpoint::Unretweet(id) => {
            let head = "https://api.twitter.com/1.1/statuses/unretweet/"@;
            reveal_strlit("https://api.twitter.com/1.1/statuses/unretweet/");
            reveal_strlit(".json");
            lemma_decimal_has_no_plus(id as int);
            assert forall|i: int| 0 <= i < address.len() implies address[i] != '+' by {
                if i < head.len() {
                    assert(address[i] == head[i]);
                } else if i < head.len() + decimal(id as int).len() {
                    assert(address[i] == decimal(id as int)[i - head.len()]);
                } else {
                    assert(address[i] == ".json"@[i - head.len() - decimal(id as int).len()]);
                }
            }
        },
        Endpoint::StatusesUpdate => {
            reveal_strlit("https://api.twitter.com/1.1/statuses/update.json");
        },
        Endpoint::FavoritesCreate => {
            reveal_strlit("https://api.twitter.com/1.1/favorites/create.json");
        },
        Endpoint::FavoritesDestroy => {
            reveal_strlit("https://api.twitter.com/1.1/favorites/destroy.json");
        },
        Endpoint::StatusesShow => {
            reveal_strlit("https://api.twitter.com/1.1/statuses/show.json");
        },
        Endpoint::SearchTweets => {
            reveal_strlit("https://api.twitter.com/1.1/search/tweets.json");
        },
        Endpoint::MediaUpload => {
            reveal_strlit("https://upload.twitter.com/1.1/media/upload.json");
        },
    }
}

/// The request text is the operation's address as it stands, followed,
/// where there are parameters, by `?` and the query as it reaches the
/// service: rewriting `+` touches nothing but the names and the values.
pub proof fn law_request_text_shape(endpoint: Endpoint, pairs: Seq<(Seq<char>, Seq<char>)>)
    ensures
        request_text(endpoint, pairs) == if pairs.len() == 0 {
            endpoint.address()
        } else {
            endpoint.address() + seq!['?'] + sent_query(pairs)
        },
{
    lemma_address_has_no_plus(endpoint);
    lemma_plus_free_is_kept(endpoint.address());
    if pairs.len() > 0 {
        lemma_plus_free_is_kept(seq!['?']);
        lemma_plus_concat(endpoint.address() + seq!['?'], query_text(pairs));
        lemma_plus_concat(endpoint.address(), seq!['?']);
        lemma_query_is_sent_pair_by_pair(pairs);
    }
}

/// Assembles the text from which the address of a request is read.
pub fn build_request_text(endpoint: &Endpoint, pairs: &Vec<(String, String)>) -> (r: String)
    ensures
        r@ == request_text(*endpoint, pairs.deep_view()),
{
    let mut text = endpoint.url();
    if pairs.len() > 0 {
        text.append("?");
        text.append(form_urlencode(pairs).as_str());
        proof {
            reveal_strlit("?");
            assert("?"@ == seq!['?']);
        }
    }
    replace_plus(text.as_str())
}

/// The error of the `url` crate's parser.
#[verifier::external_type_specification]
#[verifier::external_body]
pub struct ExParseError(url::ParseError);

/// What `url::Url::parse` makes of a text: the serialisation of the URL it
/// reads from it, or nothing where it reads none.
pub uninterp spec fn url_normal_form(text: Seq<char>) -> Option<Seq<char>>;

/// Reads a URL from `text` and returns it in the parser's own writing.
///
/// Trusted: this is `url::Url::parse` followed by `Url::into_string`. The
/// parser works on its input alone; what it returns is given the name
/// [`url_normal_form`], and nothing more is claimed of it.
#[verifier::external_body]
pub(crate) fn parse_url(text: &str) -> (r: Result<String, url::ParseError>)
    ensures
        match r {
            Ok(url) => url_normal_form(text@) == Some(url@),
            Err(_) => url_normal_form(text@) is None,
        },
{
    url::Url::parse(text).map(url::Url::into_string)
}

/// Whether a serialised URL is one of the web: whether it begins with
/// `http://` or `https://`.
pub open spec fn is_http(url: Seq<char>) -> bool {
    has_prefix(url, "http://"@) || has_prefix(url, "https://"@)
}

/// Whether a request can be sent to the address read from `text`.
pub open spec fn sendable(text: Seq<char>) -> bool {
    match url_normal_form(text) {
        Some(url) => is_http(url),
        None => false,
    }
}

/// Computes the `Authorization` header of a request.
///
/// Trusted: this parses `text` with `url::Url::parse` and hands the URL to
/// `oauthcli::OAuthAuthorizationHeaderBuilder`, with the HMAC-SHA1 signature
/// method, `token` and `finish_for_twitter`, and returns the header's
/// `to_string()`. The builder draws a fresh nonce and reads the clock on
/// every call, so two calls on the same values differ; what its `Display`
/// shows of every header is that it begins with `OAuth `. `finish_for_twitter`
/// panics on a URL that has no host, or has a port under another scheme
/// than `http` or `https`. The `requires` rules both out: a serialisation
/// begins with the URL's scheme, and the parser gives every `http` and
/// `https` URL a host. The builder also expects a clock that is past 1970.
#[verifier::external_body]
pub(crate) fn oauth_header(
    method: &str,
    text: &str,
    consumer_key: &str,
    consumer_secret: &str,
    token: &str,
    token_secret: &str,
) -> (header: String)
    requires
        sendable(text@),
    ensures
        has_prefix(header@, "OAuth "@),
{
    let url = url::Url::parse(text).unwrap();
    oauthcli::OAuthAuthorizationHeaderBuilder::new(
        method,
        &url,
        consumer_key,
        consumer_secret,
        oauthcli::SignatureMethod::HmacSha1,
    ).token(token, token_secret).finish_for_twitter().to_string()
}

/// A request that is ready to be sent: built for one call and never reused,
/// since its header holds a nonce and a timestamp.
#[derive(Clone, Debug, PartialEq, Eq)]
pub struct SignedRequest {
    method: Method,
    url: String,
    authorization: String,
}

/// What a [`SignedRequest`] holds.
pub struct SignedRequestView {
    pub method: Method,
    pub url: Seq<char>,
    pub authorization: Seq<char>,
}

impl View for SignedRequest {
    type V = SignedRequestView;

    closed spec fn view(&self) -> SignedRequestView {
        SignedRequestView {
            method: self.method,
            url: self.url@,
            authorization: self.authorization@,
        }
    }
}

impl SignedRequest {
    /// The method to send the request with.
    pub fn method(&self) -> (m: Method)
        ensures
            m == self@.method,
    {
        self.method
    }

    /// The address to send the request to, query included.
    pub fn url(&self) -> (r: &str)
        ensures
            r@ == self@.url,
    {
        self.url.as_str()
    }

    /// The value of the request's `Authorization` header.
    pub fn authorization(&self) -> (r: &str)
        ensures
            r@ == self@.authorization,
    {
        self.authorization.as_str()
    }
}

/// How the making of a request fails, if it does: on the first missing
/// secret, and otherwise where the text holds no address of the web.
pub open spec fn request_failure(bot: TwitterBotView, text: Seq<char>) -> Option<ErrorView> {
    match bot.missing() {
        Some(c) => Some(ErrorView::MissingCredential(c)),
        None => if sendable(text) {
            None
        } else {
            Some(ErrorView::UrlParse)
        },
    }
}

/// What the making of a request from `text` by `bot` comes to: the failure
/// that [`request_failure`] names, or else a request with the given method,
/// for the address read from `text`, with an OAuth header.
pub open spec fn is_signed(
    bot: TwitterBotView,
    method: Method,
    text: Seq<char>,
    r: Result<SignedRequest, TwitterBotError>,
) -> bool {
    match request_failure(bot, text) {
        Some(failure) => r matches Err(e) && e@ == failure,
        None => {
            &&& r matches Ok(request)
            &&& request@.method == method
            &&& url_normal_form(text) == Some(request@.url)
            &&& has_prefix(request@.authorization, "OAuth "@)
        },
    }
}

/// A client that lacks a secret gets no request, whatever it asks for: the
/// operation fails with the first secret that is absent, looking for the
/// consumer key, the consumer secret, the access token and the access
/// token's secret in this order, and with nothing else.
pub proof fn law_first_missing_secret_is_reported(
    bot: TwitterBotView,
    method: Method,
    text: Seq<char>,
    r: Result<SignedRequest, TwitterBotError>,
)
    requires
        is_signed(bot, method, text, r),
        !bot.ready(),
    ensures
        r matches Err(e) && e@ == ErrorView::MissingCredential(bot.missing()->0),
        bot.missing() == Some(Credential::ConsumerKey) <==> bot.consumer_key is None,
        bot.missing() == Some(Credential::ConsumerSecretKey) <==> bot.consumer_key is Some
            && bot.consumer_secret_key is None,
        bot.missing() == Some(Credential::AccessToken) <==> bot.consumer_key is Some
            && bot.consumer_secret_key is Some && bot.access_token is None,
        bot.missing() == Some(Credential::SecretAccessToken) <==> bot.consumer_key is Some
            && bot.consumer_secret_key is Some && bot.access_token is Some
            && bot.secret_access_token is None,
{
}

/// Signs a request with secrets that are known to be there.
fn sign_with(secrets: &Secrets<'_>, method: Method, text: &str) -> (r: Result<
    SignedRequest,
    TwitterBotError,
>)
    ensures
        match r {
            Ok(request) => {
                &&& sendable(text@)
                &&& request@.method == method
                &&& url_normal_form(text@) == Some(request@.url)
                &&& has_prefix(request@.authorization, "OAuth "@)
            },
            Err(e) => !sendable(text@) && e@ == ErrorView::UrlParse,
        },
{
    let url = match parse_url(text) {
        Ok(url) => url,
        Err(_) => {
            return Err(TwitterBotError::UrlParse);
        },
    };
    if !starts_with(url.as_str(), "http://") && !starts_with(url.as_str(), "https://") {
        return Err(TwitterBotError::UrlParse);
    }
    let authorization = oauth_header(
        method.as_str(),
        text,
        secrets.consumer_key,
        secrets.consumer_secret_key,
        secrets.access_token,
        secrets.secret_access_token,
    );
    Ok(SignedRequest { method, url, authorization })
}

impl TwitterBot {
    /// Makes the signed request for `method` and the address that stands
    /// in `text`.
    ///
    /// The secrets are looked at first, and only here. The address is then
    /// read from `text`; it must be one of `http` or `https`. The header is
    /// computed anew on every call.
    pub fn sign(&self, method: Method, text: &str) -> (r: Result<SignedRequest, TwitterBotError>)
        ensures
            is_signed(self@, method, text@, r),
    {
        let secrets = match self.secrets() {
            Ok(secrets) => secrets,
            Err(e) => {
                return Err(e);
            },
        };
        sign_with(&secrets, method, text)
    }

    /// Makes the signed request for an operation of the service and its
    /// parameters, which travel in the query of the address.
    pub fn signed_request(&self, endpoint: &Endpoint, pairs: &Vec<(String, String)>) -> (r: Result<
        SignedRequest,
        TwitterBotError,
    >)
        ensures
            is_signed(
                self@,
                endpoint.method_spec(),
                request_text(*endpoint, pairs.deep_view()),
                r,
            ),
    {
        let secrets = match self.secrets() {
            Ok(secrets) => secrets,
            Err(e) => {
                return Err(e);
            },
        };
        let text = build_request_text(endpoint, pairs);
        sign_with(&secrets, endpoint.method(), text.as_str())
    }
}

} // verus!
