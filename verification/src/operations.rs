//! The operations of the service, each as the request that asks for it.
//! What the service answers is read with the functions of
//! [`crate::response`].

use vstd::prelude::*;
use crate::bot::TwitterBot;
use crate::error::TwitterBotError;
use crate::request::{is_signed, request_text, Endpoint, Method, SignedRequest};
use crate::text::{decimal, decimal_text};
use crate::tweet_structure::{QueryOption, QueryOptionView};

verus! {

/// What an optional text holds.
pub open spec fn opt_str_view(text: Option<&str>) -> Option<Seq<char>> {
    match text {
        Some(s) => Some(s@),
        None => None,
    }
}

/// The parameters of a new status: its text, and the uploaded files to
/// attach where there are any.
pub open spec fn tweet_pairs(content: Seq<char>, media_ids: Option<Seq<char>>) -> Seq<
    (Seq<char>, Seq<char>),
> {
    match media_ids {
        Some(ids) => seq![("status"@, content), ("media_ids"@, ids)],
        None => seq![("status"@, content)],
    }
}

/// The one parameter of the operations that name a status by `id`.
pub open spec fn id_pairs(id: Seq<char>) -> Seq<(Seq<char>, Seq<char>)> {
    seq![("id"@, id)]
}

/// The parameters of a search: the query, a page size of 100, and of
/// `result_type`, `since_id` and `max_id` those that are given, in this
/// order.
pub open spec fn search_pairs(query: Seq<char>, options: QueryOptionView) -> Seq<
    (Seq<char>, Seq<char>),
> {
    seq![("q"@, query), ("count"@, "100"@)] + (match options.result_type {
        Some(kind) => seq![("result_type"@, kind)],
        None => Seq::empty(),
    }) + (match options.since_id {
        Some(id) => seq![("since_id"@, decimal(id as int))],
        None => Seq::empty(),
    }) + (match options.max_id {
        Some(id) => seq![("max_id"@, decimal(id as int))],
        None => Seq::empty(),
    })
}

/// Whether a parameter called `name` is among `pairs`.
pub open spec fn has_name(pairs: Seq<(Seq<char>, Seq<char>)>, name: Seq<char>) -> bool {
    exists|i: int| 0 <= i < pairs.len() && (#[trigger] pairs[i]).0 == name
}

/// Whether the parameter `name` with the value `value` is among `pairs`.
pub open spec fn has_pair(
    pairs: Seq<(Seq<char>, Seq<char>)>,
    name: Seq<char>,
    value: Seq<char>,
) -> bool {
    exists|i: int| 0 <= i < pairs.len() && #[trigger] pairs[i] == (name, value)
}

/// Every search asks for the query it was given and for a page of 100,
/// whatever the options say. Each of `result_type`, `since_id` and `max_id`
/// is a parameter of the search if and only if the caller gave it, and then
/// with the value given.
pub proof fn law_search_parameters(query: Seq<char>, options: QueryOptionView)
    ensures
        search_pairs(query, options)[0] == ("q"@, query),
        search_pairs(query, options)[1] == ("count"@, "100"@),
        match options.result_type {
            Some(kind) => has_pair(search_pairs(query, options), "result_type"@, kind),
            None => !has_name(search_pairs(query, options), "result_type"@),
        },
        match options.since_id {
            Some(id) => has_pair(search_pairs(query, options), "since_id"@, decimal(id as int)),
            None => !has_name(search_pairs(query, options), "since_id"@),
        },
        match options.max_id {
            Some(id) => has_pair(search_pairs(query, options), "max_id"@, decimal(id as int)),
            None => !has_name(search_pairs(query, options), "max_id"@),
        },
{
    let pairs = search_pairs(query, options);
    reveal_strlit("q");
    reveal_strlit("count");
    reveal_strlit("result_type");
    reveal_strlit("since_id");
    reveal_strlit("max_id");
    assert("q"@ =~= seq!['q']);
    assert("count"@ =~= seq!['c', 'o', 'u', 'n', 't']);
    assert("result_type"@ =~= seq!['r', 'e', 's', 'u', 'l', 't', '_', 't', 'y', 'p', 'e']);
    assert("since_id"@ =~= seq!['s', 'i', 'n', 'c', 'e', '_', 'i', 'd']);
    assert("max_id"@ =~= seq!['m', 'a', 'x', '_', 'i', 'd']);
    let kinds = options.result_type is Some;
    let sinces = options.since_id is Some;
    let at_kind: int = 2;
    let at_since: int = if kinds { 3 } else { 2 };
    let at_max: int = at_since + if sinces { 1int } else { 0int };
    if options.result_type is Some {
        assert(pairs[at_kind] == ("result_type"@, options.result_type->0));
    }
    if options.since_id is Some {
        assert(pairs[at_since] == ("since_id"@, decimal(options.since_id->0 as int)));
    }
    if options.max_id is Some {
        assert(pairs[at_max] == ("max_id"@, decimal(options.max_id->0 as int)));
    }
    assert forall|i: int| 0 <= i < pairs.len() implies {
        let name = (#[trigger] pairs[i]).0;
        &&& name == "result_type"@ ==> options.result_type is Some
        &&& name == "since_id"@ ==> options.since_id is Some
        &&& name == "max_id"@ ==> options.max_id is Some
    } by {
        if i == 0 {
        } else if i == 1 {
        } else if i == at_kind && kinds {
        } else if i == at_since && sinces {
        } else {
            assert(i == at_max);
        }
    }
}

/// Lists the parameters of a search.
pub fn search_parameters(query: &str, options: &QueryOption) -> (pairs: Vec<(String, String)>)
    ensures
        pairs.deep_view() == search_pairs(query@, options@),
{
    let mut pairs: Vec<(String, String)> = Vec::new();
    pairs.push(("q".to_owned(), query.to_owned()));
    pairs.push(("count".to_owned(), "100".to_owned()));
    assert(pairs.deep_view() =~= seq![("q"@, query@), ("count"@, "100"@)]);
    let ghost so_far = pairs.deep_view();
    if let Some(kind) = &options.result_type {
        pairs.push(("result_type".to_owned(), kind.clone()));
        assert(pairs.deep_view() =~= so_far + seq![("result_type"@, kind@)]);
    } else {
        assert(so_far =~= so_far + Seq::empty());
    }
    let ghost so_far = pairs.deep_view();
    if let Some(id) = options.since_id {
        pairs.push(("since_id".to_owned(), decimal_text(id)));
        assert(pairs.deep_view() =~= so_far + seq![("since_id"@, decimal(id as int))]);
    } else {
        assert(so_far =~= so_far + Seq::empty());
    }
    let ghost so_far = pairs.deep_view();
    if let Some(id) = options.max_id {
        pairs.push(("max_id".to_owned(), decimal_text(id)));
        assert(pairs.deep_view() =~= so_far + seq![("max_id"@, decimal(id as int))]);
    } else {
        assert(so_far =~= so_far + Seq::empty());
    }
    pairs
}

impl TwitterBot {
    /// The request that publishes `content` as a new status, with the
    /// uploaded files named in `media_ids` attached to it.
    pub fn tweet(&self, content: &str, media_ids: Option<&str>) -> (r: Result<
        SignedRequest,
        TwitterBotError,
    >)
        ensures
            is_signed(
                self@,
                Method::Post,
                request_text(
                    Endpoint::StatusesUpdate,
                    tweet_pairs(content@, opt_str_view(media_ids)),
                ),
                r,
            ),
    {
        let mut pairs: Vec<(String, String)> = Vec::new();
        pairs.push(("status".to_owned(), content.to_owned()));
        if let Some(ids) = media_ids {
            pairs.push(("media_ids".to_owned(), ids.to_owned()));
        }
        assert(pairs.deep_view() =~= tweet_pairs(content@, opt_str_view(media_ids)));
        self.signed_request(&Endpoint::StatusesUpdate, &pairs)
    }

    /// The request that marks the status `tweet_id` as a favorite.
    pub fn favorite(&self, tweet_id: i64) -> (r: Result<SignedRequest, TwitterBotError>)
        ensures
            is_signed(
                self@,
                Method::Post,
                request_text(Endpoint::FavoritesCreate, id_pairs(decimal(tweet_id as int))),
                r,
            ),
    {
        let mut pairs: Vec<(String, String)> = Vec::new();
        pairs.push(("id".to_owned(), decimal_text(tweet_id)));
        assert(pairs.deep_view() =~= id_pairs(decimal(tweet_id as int)));
        self.signed_request(&Endpoint::FavoritesCreate, &pairs)
    }

    /// The request that takes the favorite mark off the status `tweet_id`.
    pub fn unfavorite(&self, tweet_id: i64) -> (r: Result<SignedRequest, TwitterBotError>)
        ensures
            is_signed(
                self@,
                Method::Post,
                request_text(Endpoint::FavoritesDestroy, id_pairs(decimal(tweet_id as int))),
                r,
            ),
    {
        let mut pairs: Vec<(String, String)> = Vec::new();
        pairs.push(("id".to_owned(), decimal_text(tweet_id)));
        assert(pairs.deep_view() =~= id_pairs(decimal(tweet_id as int)));
        self.signed_request(&Endpoint::FavoritesDestroy, &pairs)
    }

    /// The request that repeats the status `tweet_id`. The identifier is
    /// part of the address; there are no parameters.
    pub fn retweet(&self, tweet_id: i64) -> (r: Result<SignedRequest, TwitterBotError>)
        ensures
            is_signed(
                self@,
                Method::Post,
                request_text(Endpoint::Retweet(tweet_id), Seq::empty()),
                r,
            ),
    {
        let pairs: Vec<(String, String)> = Vec::new();
        assert(pairs.deep_view() =~= Seq::empty());
        self.signed_request(&Endpoint::Retweet(tweet_id), &pairs)
    }

    /// The request that takes back the repetition of the status
    /// `tweet_id`.
    pub fn unretweet(&self, tweet_id: i64) -> (r: Result<SignedRequest, TwitterBotError>)
        ensures
            is_signed(
                self@,
                Method::Post,
                request_text(Endpoint::Unretweet(tweet_id), Seq::empty()),
                r,
            ),
    {
        let pairs: Vec<(String, String)> = Vec::new();
        assert(pairs.deep_view() =~= Seq::empty());
        self.signed_request(&Endpoint::Unretweet(tweet_id), &pairs)
    }

    /// The request that looks up the status `tweet_id`.
    pub fn get_tweet(&self, tweet_id: &str) -> (r: Result<SignedRequest, TwitterBotError>)
        ensures
            is_signed(
                self@,
                Method::Get,
                request_text(Endpoint::StatusesShow, id_pairs(tweet_id@)),
                r,
            ),
    {
        let mut pairs: Vec<(String, String)> = Vec::new();
        pairs.push(("id".to_owned(), tweet_id.to_owned()));
        assert(pairs.deep_view() =~= id_pairs(tweet_id@));
        self.signed_request(&Endpoint::StatusesShow, &pairs)
    }

    /// The request that searches for statuses that match `query`. A page
    /// of at most 100 statuses is asked for, whatever `options` says.
    pub fn get_tweets_query(&self, query: &str, options: &QueryOption) -> (r: Result<
        SignedRequest,
        TwitterBotError,
    >)
        ensures
            is_signed(
                self@,
                Method::Get,
                request_text(Endpoint::SearchTweets, search_pairs(query@, options@)),
                r,
            ),
    {
        let pairs = search_parameters(query, options);
        self.signed_request(&Endpoint::SearchTweets, &pairs)
    }

    /// The request that uploads a file. The file travels in the body of the
    /// request, which is not signed; the address has no parameters.
    pub fn upload_file(&self) -> (r: Result<SignedRequest, TwitterBotError>)
        ensures
            is_signed(
                self@,
                Method::Post,
                request_text(Endpoint::MediaUpload, Seq::empty()),
                r,
            ),
    {
        let pairs: Vec<(String, String)> = Vec::new();
        assert(pairs.deep_view() =~= Seq::empty());
        self.signed_request(&Endpoint::MediaUpload, &pairs)
    }
}

} // verus!
