//! What an answer of the service comes to: the value that was asked for,
//! or the reason why there is none.

use vstd::prelude::*;
use crate::error::{ErrorView, TwitterBotError};
use crate::json::{Json, JsonView};
use crate::tweet_structure::{
    entry_of_json, error_of_json, media_of_json, search_of_json, tweet_of_json, Media,
    SearchResponse, Tweet, TweetView, TwitterError,
};

verus! {

/// The status with which the service reports success.
pub const STATUS_OK: u16 = 200;

/// What the body of an answer says, where it could be read as JSON.
pub open spec fn body_view(body: Option<Json>) -> Option<JsonView> {
    match body {
        Some(j) => Some(j@),
        None => None,
    }
}

/// The failure that an answer with another status than 200 stands for:
/// the code and the message of the first error that its body lists, or a
/// failure to decode where the body lists none.
pub open spec fn api_failure(body: Option<JsonView>) -> ErrorView {
    match body {
        Some(j) => match error_of_json(j) {
            Some(e) => ErrorView::Api {
                code: e.errors[0].code as int,
                message: e.errors[0].message,
            },
            None => ErrorView::Decode,
        },
        None => ErrorView::Decode,
    }
}

/// Whether an answer carries a payload, and otherwise why it fails. Only
/// the status decides which of the two shapes the body is read as: with
/// 200 it is the payload, with anything else the service's errors.
pub open spec fn payload(status: u16, body: Option<JsonView>) -> Result<JsonView, ErrorView> {
    if status == STATUS_OK {
        match body {
            Some(j) => Ok(j),
            None => Err(ErrorView::Decode),
        }
    } else {
        Err(api_failure(body))
    }
}

/// Tells the payload of an answer from a failure.
///
/// `body` is the body of the answer as JSON, or nothing where the body is
/// no JSON text.
pub fn check_status(status: u16, body: &Option<Json>) -> (r: Result<&Json, TwitterBotError>)
    ensures
        match r {
            Ok(j) => payload(status, body_view(*body)) == Ok::<JsonView, ErrorView>(j@),
            Err(e) => payload(status, body_view(*body)) == Err::<JsonView, ErrorView>(e@),
        },
{
    if status == STATUS_OK {
        match body {
            Some(j) => Ok(j),
            None => Err(TwitterBotError::Decode),
        }
    } else {
        match body {
            Some(j) => match TwitterError::from_json(j) {
                Some(e) => {
                    let code = e.code();
                    let message = e.message().to_owned();
                    Err(TwitterBotError::Api { code, message })
                },
                None => Err(TwitterBotError::Decode),
            },
            None => Err(TwitterBotError::Decode),
        }
    }
}

/// What an answer comes to where a status is expected.
pub open spec fn tweet_outcome(status: u16, body: Option<JsonView>) -> Result<
    TweetView,
    ErrorView,
> {
    match payload(status, body) {
        Ok(j) => match tweet_of_json(j) {
            Some(tweet) => Ok(tweet),
            None => Err(ErrorView::Decode),
        },
        Err(e) => Err(e),
    }
}

/// Reads the status that an answer carries.
pub fn read_tweet(status: u16, body: &Option<Json>) -> (r: Result<Tweet, TwitterBotError>)
    ensures
        match r {
            Ok(tweet) => tweet_outcome(status, body_view(*body)) == Ok::<TweetView, ErrorView>(
                tweet@,
            ),
            Err(e) => tweet_outcome(status, body_view(*body)) == Err::<TweetView, ErrorView>(e@),
        },
{
    match check_status(status, body) {
        Ok(j) => match Tweet::from_json(j) {
            Some(tweet) => Ok(tweet),
            None => Err(TwitterBotError::Decode),
        },
        Err(e) => Err(e),
    }
}

/// What an answer comes to where a page of search results is expected:
/// the statuses of the page.
pub open spec fn search_outcome(status: u16, body: Option<JsonView>) -> Result<
    Seq<TweetView>,
    ErrorView,
> {
    match payload(status, body) {
        Ok(j) => match search_of_json(j) {
            Some(page) => Ok(page.statuses),
            None => Err(ErrorView::Decode),
        },
        Err(e) => Err(e),
    }
}

/// Reads the statuses of the page of search results that an answer
/// carries. What the service reports about the search is checked and then
/// dropped.
pub fn read_search(status: u16, body: &Option<Json>) -> (r: Result<Vec<Tweet>, TwitterBotError>)
    ensures
        match r {
            Ok(tweets) => search_outcome(status, body_view(*body)) == Ok::<
                Seq<TweetView>,
                ErrorView,
            >(tweets@.map_values(|t: Tweet| t@)),
            Err(e) => search_outcome(status, body_view(*body)) == Err::<Seq<TweetView>, ErrorView>(
                e@,
            ),
        },
{
    match check_status(status, body) {
        Ok(j) => match SearchResponse::from_json(j) {
            Some(page) => Ok(page.into_statuses()),
            None => Err(TwitterBotError::Decode),
        },
        Err(e) => Err(e),
    }
}

/// What an answer comes to where the receipt of an upload is expected:
/// the identifier of the uploaded file.
pub open spec fn media_outcome(status: u16, body: Option<JsonView>) -> Result<u64, ErrorView> {
    match payload(status, body) {
        Ok(j) => match media_of_json(j) {
            Some(media) => Ok(media.media_id),
            None => Err(ErrorView::Decode),
        },
        Err(e) => Err(e),
    }
}

/// Reads the identifier of the uploaded file from the answer to an upload.
pub fn read_media(status: u16, body: &Option<Json>) -> (r: Result<u64, TwitterBotError>)
    ensures
        match r {
            Ok(id) => media_outcome(status, body_view(*body)) == Ok::<u64, ErrorView>(id),
            Err(e) => media_outcome(status, body_view(*body)) == Err::<u64, ErrorView>(e@),
        },
{
    match check_status(status, body) {
        Ok(j) => match Media::from_json(j) {
            Some(media) => Ok(media.media_id),
            None => Err(TwitterBotError::Decode),
        },
        Err(e) => Err(e),
    }
}

/// An answer with status 200 whose body describes a status comes to that
/// status: its identifier and its text are those that the body gives under
/// `id` and `text`.
pub proof fn law_success_carries_the_status(body: JsonView)
    requires
        tweet_of_json(body) is Some,
    ensures
        tweet_outcome(STATUS_OK, Some(body)) matches Ok(tweet) && Some(tweet.id)
            == body.i64_member("id"@) && Some(tweet.text) == body.text_member("text"@),
{
}

/// An answer with any other status than 200 never comes to a value. Where
/// its body lists the service's errors, the failure is an error of the
/// service with the code and the message of the first entry listed.
pub proof fn law_failure_carries_first_error(status: u16, items: Seq<JsonView>, body: JsonView)
    requires
        status != STATUS_OK,
        body.member("errors"@) == Some(JsonView::Array(items)),
        error_of_json(body) is Some,
    ensures
        0 < items.len(),
        entry_of_json(items[0]) matches Some(first) && {
            let failure = ErrorView::Api { code: first.code as int, message: first.message };
            &&& tweet_outcome(status, Some(body)) == Err::<TweetView, ErrorView>(failure)
            &&& search_outcome(status, Some(body)) == Err::<Seq<TweetView>, ErrorView>(failure)
            &&& media_outcome(status, Some(body)) == Err::<u64, ErrorView>(failure)
        },
{
}

} // verus!
