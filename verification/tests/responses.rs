use rust_twitter_bot_lib::error::TwitterBotError;
use rust_twitter_bot_lib::json::{Json, Number};
use rust_twitter_bot_lib::response::{check_status, read_media, read_search, read_tweet};
use rust_twitter_bot_lib::tweet_structure::{Media, SearchResponse, Tweet, TwitterError, User};

/// Turns a value of the JSON reader into the library's.
fn convert(value: &serde_json::Value) -> Json {
    match value {
        serde_json::Value::Null => Json::Null,
        serde_json::Value::Bool(b) => Json::Bool(*b),
        serde_json::Value::Number(n) => {
            if let Some(i) = n.as_i64() {
                Json::Number(Number::Integer(i128::from(i)))
            } else if let Some(u) = n.as_u64() {
                Json::Number(Number::Integer(i128::from(u)))
            } else {
                Json::Number(Number::Real(n.as_f64().unwrap().to_bits()))
            }
        }
        serde_json::Value::String(s) => Json::Str(s.clone()),
        serde_json::Value::Array(items) => Json::Array(items.iter().map(convert).collect()),
        serde_json::Value::Object(members) => {
            Json::Object(members.iter().map(|(name, value)| (name.clone(), convert(value))).collect())
        }
    }
}

/// The body of an answer as the transport hands it over.
fn body(text: &str) -> Option<Json> {
    serde_json::from_str::<serde_json::Value>(text).ok().map(|value| convert(&value))
}

const USER: &str = r#"{
    "id": 2244994945,
    "id_str": "2244994945",
    "name": "Twitter Dev",
    "screen_name": "TwitterDev",
    "location": "Internet",
    "description": null,
    "url": "https://t.co/FGl7VOULyL",
    "followers_count": 429831,
    "friends_count": 1535,
    "listed_count": 1065,
    "favourites_count": 2041,
    "statuses_count": 3301,
    "following": true,
    "profile_background_color": "FFFFFF"
}"#;

fn tweet_text(id: i64, text: &str) -> String {
    format!(
        r#"{{
    "created_at": "Wed Oct 10 20:19:24 +0000 2018",
    "id": {id},
    "id_str": "{id}",
    "text": "{text}",
    "truncated": false,
    "in_reply_to_status_id": null,
    "in_reply_to_status_id_str": null,
    "in_reply_to_user_id": null,
    "in_reply_to_user_id_str": null,
    "in_reply_to_screen_name": null,
    "user": {USER},
    "is_quote_status": false,
    "retweet_count": 161,
    "favorite_count": 296,
    "favorited": false,
    "retweeted": true,
    "lang": "en"
}}"#
    )
}

const ERRORS: &str = r#"{"errors":[{"code":32,"message":"Could not authenticate you"}]}"#;

#[test]
fn success_with_a_status_gives_the_status() {
    let answer = body(&tweet_text(1050118621198921728, "To make room for more expression"));
    let tweet = read_tweet(200, &answer).unwrap();
    assert_eq!(tweet.id(), 1050118621198921728);
    assert_eq!(tweet.content(), "To make room for more expression");
    assert_eq!(tweet.reply_to(), None);
    assert_eq!(tweet.user().id(), "2244994945");
    assert_eq!(tweet.user().name(), "TwitterDev");
}

#[test]
fn forbidden_with_errors_gives_the_first_error() {
    assert_eq!(
        read_tweet(403, &body(ERRORS)),
        Err(TwitterBotError::Api { code: 32, message: "Could not authenticate you".to_string() })
    );
    assert_eq!(
        read_search(403, &body(ERRORS)),
        Err(TwitterBotError::Api { code: 32, message: "Could not authenticate you".to_string() })
    );
    assert_eq!(
        read_media(403, &body(ERRORS)),
        Err(TwitterBotError::Api { code: 32, message: "Could not authenticate you".to_string() })
    );
}

#[test]
fn only_the_first_of_several_errors_is_reported() {
    let answer = body(
        r#"{"errors":[{"code":88,"message":"Rate limit exceeded"},{"code":32,"message":"Could not authenticate you"}]}"#,
    );
    assert_eq!(
        read_tweet(429, &answer),
        Err(TwitterBotError::Api { code: 88, message: "Rate limit exceeded".to_string() })
    );
}

#[test]
fn the_status_alone_decides_how_the_body_is_read() {
    // A status with another code than 200 is never read as a value.
    let answer = body(&tweet_text(1, "hi"));
    assert_eq!(read_tweet(201, &answer), Err(TwitterBotError::Decode));
    assert_eq!(read_tweet(500, &answer), Err(TwitterBotError::Decode));
    // Errors under the code 200 are never read as a failure of the service.
    assert_eq!(read_tweet(200, &body(ERRORS)), Err(TwitterBotError::Decode));
    assert_eq!(read_search(200, &body(ERRORS)), Err(TwitterBotError::Decode));
    assert_eq!(read_media(200, &body(ERRORS)), Err(TwitterBotError::Decode));
}

#[test]
fn a_body_that_is_no_json_cannot_be_decoded() {
    assert_eq!(body("<html>Bad Gateway</html>"), None);
    assert_eq!(read_tweet(200, &None), Err(TwitterBotError::Decode));
    assert_eq!(read_tweet(502, &None), Err(TwitterBotError::Decode));
    assert_eq!(read_search(200, &None), Err(TwitterBotError::Decode));
    assert_eq!(read_media(404, &None), Err(TwitterBotError::Decode));
}

#[test]
fn check_status_hands_the_payload_on() {
    let answer = body(r#"{"anything": 1}"#);
    assert_eq!(check_status(200, &answer), Ok(answer.as_ref().unwrap()));
    assert_eq!(check_status(200, &None), Err(TwitterBotError::Decode));
    assert_eq!(check_status(400, &answer), Err(TwitterBotError::Decode));
    assert_eq!(
        check_status(401, &body(ERRORS)),
        Err(TwitterBotError::Api { code: 32, message: "Could not authenticate you".to_string() })
    );
}

#[test]
fn errors_need_at_least_one_entry() {
    assert_eq!(read_tweet(403, &body(r#"{"errors":[]}"#)), Err(TwitterBotError::Decode));
    assert_eq!(TwitterError::from_json(&body(r#"{"errors":[]}"#).unwrap()), None);
    assert_eq!(TwitterError::from_json(&body(r#"{"errors":{}}"#).unwrap()), None);
    assert_eq!(TwitterError::from_json(&body(r#"{}"#).unwrap()), None);
    assert_eq!(
        TwitterError::from_json(&body(r#"{"errors":[{"code":32}]}"#).unwrap()),
        None
    );
    assert_eq!(
        TwitterError::from_json(&body(r#"{"errors":[{"code":"32","message":"m"}]}"#).unwrap()),
        None
    );
    assert_eq!(
        TwitterError::from_json(
            &body(r#"{"errors":[{"code":1,"message":"first"},{"message":"second"}]}"#).unwrap()
        ),
        None
    );
}

#[test]
fn twitter_error_shows_its_first_entry() {
    let error = TwitterError::from_json(
        &body(r#"{"errors":[{"code":187,"message":"Status is a duplicate."},{"code":1,"message":"x"}]}"#)
            .unwrap(),
    )
    .unwrap();
    assert_eq!(error.message(), "Status is a duplicate.");
    assert_eq!(error.code(), 187);
}

#[test]
fn a_status_without_a_required_member_cannot_be_decoded() {
    let complete = tweet_text(5, "hi");
    assert!(read_tweet(200, &body(&complete)).is_ok());
    let without_text = complete.replace("\"text\": \"hi\",", "");
    assert_eq!(read_tweet(200, &body(&without_text)), Err(TwitterBotError::Decode));
    let without_user_name = complete.replace("\"screen_name\": \"TwitterDev\",", "");
    assert_eq!(read_tweet(200, &body(&without_user_name)), Err(TwitterBotError::Decode));
    let null_flag = complete.replace("\"truncated\": false", "\"truncated\": null");
    assert_eq!(read_tweet(200, &body(&null_flag)), Err(TwitterBotError::Decode));
    let text_as_number = complete.replace("\"text\": \"hi\"", "\"text\": 5");
    assert_eq!(read_tweet(200, &body(&text_as_number)), Err(TwitterBotError::Decode));
    let id_as_real = complete.replace("\"id\": 5,", "\"id\": 5.5,");
    assert_eq!(read_tweet(200, &body(&id_as_real)), Err(TwitterBotError::Decode));
    let id_too_large = complete.replace("\"id\": 5,", "\"id\": 9223372036854775808,");
    assert_eq!(read_tweet(200, &body(&id_too_large)), Err(TwitterBotError::Decode));
    assert_eq!(read_tweet(200, &body("[]")), Err(TwitterBotError::Decode));
    assert_eq!(read_tweet(200, &body("null")), Err(TwitterBotError::Decode));
}

#[test]
fn members_that_may_be_left_out() {
    let complete = tweet_text(5, "hi");
    let answering = complete
        .replace("\"in_reply_to_status_id\": null,", "\"in_reply_to_status_id\": 4,")
        .replace("\"in_reply_to_status_id_str\": null,", "");
    let tweet = read_tweet(200, &body(&answering)).unwrap();
    assert_eq!(tweet.reply_to(), Some(4));
    let wrong_kind =
        complete.replace("\"in_reply_to_status_id\": null,", "\"in_reply_to_status_id\": \"4\",");
    assert_eq!(read_tweet(200, &body(&wrong_kind)), Err(TwitterBotError::Decode));
    // `follow_request_sent` is absent from the user above and `description` is null.
    let user = User::from_json(&body(USER).unwrap()).unwrap();
    assert_eq!(user.name(), "TwitterDev");
}

#[test]
fn status_round_trip() {
    let text = tweet_text(1050118621198921728, "round and round")
        .replace("\"in_reply_to_status_id\": null,", "\"in_reply_to_status_id\": 77,");
    let tweet = Tweet::from_json(&body(&text).unwrap()).unwrap();
    let written = tweet.to_json();
    let again = Tweet::from_json(&written).unwrap();
    assert_eq!(again.id(), tweet.id());
    assert_eq!(again.content(), tweet.content());
    assert_eq!(again.user().name(), tweet.user().name());
    assert_eq!(again.id(), 1050118621198921728);
    assert_eq!(again.content(), "round and round");
    assert_eq!(again.user().name(), "TwitterDev");
    assert_eq!(again.reply_to(), Some(77));
    assert_eq!(again, tweet);
    assert_eq!(again.to_json(), written);
}

#[test]
fn written_status_uses_the_service_names() {
    let tweet = Tweet::from_json(&body(&tweet_text(9, "names")).unwrap()).unwrap();
    let written = tweet.to_json();
    let names: Vec<&str> = match &written {
        Json::Object(members) => members.iter().map(|(name, _)| name.as_str()).collect(),
        _ => panic!("a status is written as an object"),
    };
    assert_eq!(
        names,
        vec![
            "id",
            "id_str",
            "text",
            "truncated",
            "in_reply_to_status_id",
            "in_reply_to_status_id_str",
            "in_reply_to_user_id",
            "in_reply_to_user_id_str",
            "in_reply_to_screen_name",
            "user",
            "is_quote_status",
            "retweet_count",
            "favorite_count",
            "favorited",
            "retweeted",
        ]
    );
    assert_eq!(written.member("id"), Some(&Json::Number(Number::Integer(9))));
    assert_eq!(written.member("text"), Some(&Json::Str("names".to_string())));
    assert_eq!(written.member("in_reply_to_status_id"), Some(&Json::Null));
    assert_eq!(written.member("retweeted"), Some(&Json::Bool(true)));
    let user = written.member("user").unwrap();
    assert_eq!(user.member("screen_name"), Some(&Json::Str("TwitterDev".to_string())));
    assert_eq!(user.member("description"), Some(&Json::Null));
    assert_eq!(user.member("follow_request_sent"), Some(&Json::Null));
    assert_eq!(user.member("following"), Some(&Json::Bool(true)));
    assert_eq!(user.member("followers_count"), Some(&Json::Number(Number::Integer(429831))));
}

#[test]
fn user_round_trip() {
    let user = User::from_json(&body(USER).unwrap()).unwrap();
    let again = User::from_json(&user.to_json()).unwrap();
    assert_eq!(again, user);
    assert_eq!(again.id(), "2244994945");
    assert_eq!(again.name(), "TwitterDev");
}

fn search_text(statuses: &str) -> String {
    format!(
        r#"{{
    "statuses": [{statuses}],
    "search_metadata": {{
        "completed_in": 0.047,
        "max_id": 1125490788736032770,
        "max_id_str": "1125490788736032770",
        "next_results": "?max_id=1124690280777699327&q=rust",
        "query": "rust",
        "refresh_url": "?since_id=1125490788736032770&q=rust",
        "count": 100,
        "since_id": 0,
        "since_id_str": "0"
    }}
}}"#
    )
}

#[test]
fn search_gives_the_statuses_in_order() {
    let statuses = format!(
        "{},{},{}",
        tweet_text(3, "third"),
        tweet_text(1, "first"),
        tweet_text(2, "second")
    );
    let answer = body(&search_text(&statuses));
    let tweets = read_search(200, &answer).unwrap();
    let ids: Vec<i64> = tweets.iter().map(|t| t.id()).collect();
    assert_eq!(ids, vec![3, 1, 2]);
    let texts: Vec<&str> = tweets.iter().map(|t| t.content()).collect();
    assert_eq!(texts, vec!["third", "first", "second"]);
}

#[test]
fn search_page_keeps_what_the_service_reports() {
    let page = SearchResponse::from_json(&body(&search_text(&tweet_text(8, "x"))).unwrap()).unwrap();
    assert_eq!(page.statuses.len(), 1);
    assert_eq!(page.statuses[0].id(), 8);
    let report = page.search_metadata();
    assert_eq!(report.completed_in(), Number::Real(0.047f64.to_bits()));
    assert_eq!(report.max_id(), 1125490788736032770);
    assert_eq!(report.since_id(), 0);
    assert_eq!(report.query(), "rust");
    assert_eq!(report.count(), 100);
    assert_eq!(page.into_statuses().len(), 1);
}

#[test]
fn search_with_no_result_is_an_empty_page() {
    assert_eq!(read_search(200, &body(&search_text(""))), Ok(Vec::new()));
}

#[test]
fn search_page_must_be_complete() {
    let good = search_text(&tweet_text(8, "x"));
    assert!(read_search(200, &body(&good)).is_ok());
    let whole_seconds = good.replace("\"completed_in\": 0.047", "\"completed_in\": 1");
    assert!(read_search(200, &body(&whole_seconds)).is_ok());
    let no_time = good.replace("\"completed_in\": 0.047,", "");
    assert_eq!(read_search(200, &body(&no_time)), Err(TwitterBotError::Decode));
    let time_as_text = good.replace("\"completed_in\": 0.047", "\"completed_in\": \"fast\"");
    assert_eq!(read_search(200, &body(&time_as_text)), Err(TwitterBotError::Decode));
    let no_count = good.replace("\"count\": 100,", "");
    assert_eq!(read_search(200, &body(&no_count)), Err(TwitterBotError::Decode));
    let broken_status = search_text(&format!("{},{{}}", tweet_text(8, "x")));
    assert_eq!(read_search(200, &body(&broken_status)), Err(TwitterBotError::Decode));
    assert_eq!(
        read_search(200, &body(r#"{"statuses": []}"#)),
        Err(TwitterBotError::Decode)
    );
    assert_eq!(
        read_search(200, &body(&good.replace("\"statuses\": [", "\"statuses\": [[], "))),
        Err(TwitterBotError::Decode)
    );
}

#[test]
fn upload_gives_the_media_id() {
    let answer = body(
        r#"{"media_id":710511363345354753,"media_id_string":"710511363345354753","size":11065,"expires_after_secs":86400}"#,
    );
    assert_eq!(read_media(200, &answer), Ok(710511363345354753));
    assert_eq!(
        Media::from_json(answer.as_ref().unwrap()),
        Some(Media { media_id: 710511363345354753 })
    );
    assert_eq!(read_media(200, &body(r#"{"media_id":18446744073709551615}"#)), Ok(u64::MAX));
    assert_eq!(read_media(200, &body(r#"{"media_id":0}"#)), Ok(0));
}

#[test]
fn media_id_must_be_an_unsigned_integer() {
    assert_eq!(read_media(200, &body(r#"{"media_id":-1}"#)), Err(TwitterBotError::Decode));
    assert_eq!(read_media(200, &body(r#"{"media_id":1.5}"#)), Err(TwitterBotError::Decode));
    assert_eq!(read_media(200, &body(r#"{"media_id":"1"}"#)), Err(TwitterBotError::Decode));
    assert_eq!(read_media(200, &body(r#"{"media":1}"#)), Err(TwitterBotError::Decode));
    assert_eq!(
        read_media(200, &Some(Json::Object(vec![(
            "media_id".to_string(),
            Json::Number(Number::Integer(18446744073709551616))
        )]))),
        Err(TwitterBotError::Decode)
    );
}

#[test]
fn json_values_by_kind() {
    let value = Json::Object(vec![
        ("n".to_string(), Json::Number(Number::Integer(-5))),
        ("t".to_string(), Json::Str("text".to_string())),
        ("b".to_string(), Json::Bool(true)),
        ("z".to_string(), Json::Null),
        ("a".to_string(), Json::Array(vec![Json::Null, Json::Bool(false)])),
        ("n".to_string(), Json::Number(Number::Integer(6))),
        ("r".to_string(), Json::Number(Number::Real(1.5f64.to_bits()))),
    ]);
    // The first member of a name is the one that counts.
    assert_eq!(value.i64_member("n"), Some(-5));
    assert_eq!(value.u64_member("n"), None);
    assert_eq!(value.text_member("t"), Some("text".to_string()));
    assert_eq!(value.bool_member("b"), Some(true));
    assert_eq!(value.member("z"), Some(&Json::Null));
    assert_eq!(value.member("missing"), None);
    assert_eq!(value.i64_member("t"), None);
    assert_eq!(value.i64_member("r"), None);
    assert_eq!(value.text_member("n"), None);
    assert_eq!(value.bool_member("z"), None);
    assert_eq!(value.optional_i64("n"), Some(Some(-5)));
    assert_eq!(value.optional_i64("z"), Some(None));
    assert_eq!(value.optional_i64("missing"), Some(None));
    assert_eq!(value.optional_i64("t"), None);
    assert_eq!(value.optional_text("t"), Some(Some("text".to_string())));
    assert_eq!(value.optional_text("z"), Some(None));
    assert_eq!(value.optional_text("b"), None);
    assert_eq!(value.optional_bool("b"), Some(Some(true)));
    assert_eq!(value.optional_bool("missing"), Some(None));
    assert_eq!(value.optional_bool("n"), None);
    assert_eq!(
        value.member("a").unwrap().as_array(),
        Some(&vec![Json::Null, Json::Bool(false)])
    );
    assert_eq!(value.member("r").unwrap().as_number(), Some(Number::Real(1.5f64.to_bits())));
    assert_eq!(value.as_array(), None);
    assert_eq!(Json::Null.member("n"), None);
    assert_eq!(Json::Array(Vec::new()).member("n"), None);
}

#[test]
fn json_integers_by_range() {
    assert_eq!(Json::Number(Number::Integer(i128::from(i64::MAX))).as_i64(), Some(i64::MAX));
    assert_eq!(Json::Number(Number::Integer(i128::from(i64::MIN))).as_i64(), Some(i64::MIN));
    assert_eq!(Json::Number(Number::Integer(i128::from(i64::MAX) + 1)).as_i64(), None);
    assert_eq!(Json::Number(Number::Integer(i128::from(i64::MIN) - 1)).as_i64(), None);
    assert_eq!(Json::Number(Number::Integer(i128::from(u64::MAX))).as_u64(), Some(u64::MAX));
    assert_eq!(Json::Number(Number::Integer(i128::from(u64::MAX) + 1)).as_u64(), None);
    assert_eq!(Json::Number(Number::Integer(-1)).as_u64(), None);
    assert_eq!(Json::Number(Number::Real(0)).as_i64(), None);
    assert_eq!(Json::Str("1".to_string()).as_i64(), None);
    assert_eq!(Json::Bool(true).as_bool(), Some(true));
    assert_eq!(Json::Str("s".to_string()).as_text(), Some(&"s".to_string()));
}
