use rust_twitter_bot_lib::error::TwitterBotError;
use rust_twitter_bot_lib::request::{build_request_text, Endpoint, Method};
use rust_twitter_bot_lib::text::{decimal_text, replace_plus, starts_with};
use rust_twitter_bot_lib::tweet_structure::QueryOption;
use rust_twitter_bot_lib::TwitterBot;

fn dummy_bot() -> TwitterBot {
    TwitterBot::new()
        .consumer_key("my consumer key")
        .consumer_secret_key("cs")
        .access_token("at")
        .secret_access_token("ats")
}

fn pair(name: &str, value: &str) -> (String, String) {
    (name.to_string(), value.to_string())
}

/// The names of the parameters of an OAuth header, in the header's order.
fn header_names(header: &str) -> Vec<String> {
    let params = header.strip_prefix("OAuth ").expect("the scheme comes first");
    let mut names = Vec::new();
    for param in params.split(',') {
        let (name, value) = param.split_once('=').expect("name=value");
        assert!(value.len() >= 2 && value.starts_with('"') && value.ends_with('"'));
        names.push(name.trim().to_string());
    }
    names
}

#[test]
fn post_status_hello_world() {
    let request = dummy_bot().tweet("hello world", None).unwrap();
    assert_eq!(request.method(), Method::Post);
    let (address, query) = request.url().split_once('?').unwrap();
    assert_eq!(address, "https://api.twitter.com/1.1/statuses/update.json");
    assert_eq!(query, "status=hello%20world");
    let header = request.authorization();
    assert!(!header.is_empty());
    assert!(header.starts_with("OAuth oauth_consumer_key=\"my%20consumer%20key\""));
    let mut names = header_names(header);
    names.sort();
    assert_eq!(
        names,
        vec![
            "oauth_consumer_key",
            "oauth_nonce",
            "oauth_signature",
            "oauth_signature_method",
            "oauth_timestamp",
            "oauth_token",
            "oauth_version",
        ]
    );
    assert!(header.contains("oauth_signature_method=\"HMAC-SHA1\""));
    assert!(header.contains("oauth_token=\"at\""));
    assert!(header.contains("oauth_version=\"1.0\""));
}

#[test]
fn every_request_is_signed_anew() {
    let bot = dummy_bot();
    let first = bot.tweet("hello", None).unwrap();
    let second = bot.tweet("hello", None).unwrap();
    assert_eq!(first.url(), second.url());
    assert_ne!(first.authorization(), second.authorization());
}

#[test]
fn space_is_sent_as_percent20_not_plus() {
    let request = dummy_bot().tweet("a b  c", None).unwrap();
    assert_eq!(
        request.url(),
        "https://api.twitter.com/1.1/statuses/update.json?status=a%20b%20%20c"
    );
    assert!(!request.url().contains('+'));
}

#[test]
fn reserved_characters_are_percent_encoded() {
    let request = dummy_bot().tweet("a&b#c=d+e", None).unwrap();
    assert_eq!(
        request.url(),
        "https://api.twitter.com/1.1/statuses/update.json?status=a%26b%23c%3Dd%2Be"
    );
}

#[test]
fn unreserved_characters_are_kept() {
    let request = dummy_bot().tweet("Az09*-._", None).unwrap();
    assert_eq!(
        request.url(),
        "https://api.twitter.com/1.1/statuses/update.json?status=Az09*-._"
    );
}

#[test]
fn other_characters_are_encoded_by_their_utf8_bytes() {
    let request = dummy_bot().tweet("\u{e9}~/%\u{1f426}", None).unwrap();
    assert_eq!(
        request.url(),
        "https://api.twitter.com/1.1/statuses/update.json?status=%C3%A9%7E%2F%25%F0%9F%90%A6"
    );
}

#[test]
fn empty_status_still_has_its_parameter() {
    let request = dummy_bot().tweet("", None).unwrap();
    assert_eq!(request.url(), "https://api.twitter.com/1.1/statuses/update.json?status=");
}

#[test]
fn media_ids_follow_the_status() {
    let request = dummy_bot().tweet("This tweet has an image", Some("710511363345354753")).unwrap();
    assert_eq!(
        request.url(),
        "https://api.twitter.com/1.1/statuses/update.json?status=This%20tweet%20has%20an%20image&media_ids=710511363345354753"
    );
    let request = dummy_bot().tweet("two", Some("1,2")).unwrap();
    assert_eq!(
        request.url(),
        "https://api.twitter.com/1.1/statuses/update.json?status=two&media_ids=1%2C2"
    );
}

#[test]
fn favorite_and_unfavorite() {
    let request = dummy_bot().favorite(1122130188203171840).unwrap();
    assert_eq!(request.method(), Method::Post);
    assert_eq!(
        request.url(),
        "https://api.twitter.com/1.1/favorites/create.json?id=1122130188203171840"
    );
    let request = dummy_bot().unfavorite(1122130188203171840).unwrap();
    assert_eq!(request.method(), Method::Post);
    assert_eq!(
        request.url(),
        "https://api.twitter.com/1.1/favorites/destroy.json?id=1122130188203171840"
    );
}

#[test]
fn retweet_and_unretweet_name_the_status_in_the_path() {
    let request = dummy_bot().retweet(1122130188203171840).unwrap();
    assert_eq!(request.method(), Method::Post);
    assert_eq!(
        request.url(),
        "https://api.twitter.com/1.1/statuses/retweet/1122130188203171840.json"
    );
    let request = dummy_bot().unretweet(42).unwrap();
    assert_eq!(request.method(), Method::Post);
    assert_eq!(request.url(), "https://api.twitter.com/1.1/statuses/unretweet/42.json");
    let request = dummy_bot().retweet(-7).unwrap();
    assert_eq!(request.url(), "https://api.twitter.com/1.1/statuses/retweet/-7.json");
}

#[test]
fn get_tweet_is_a_get() {
    let request = dummy_bot().get_tweet("1122130188203171840").unwrap();
    assert_eq!(request.method(), Method::Get);
    assert_eq!(
        request.url(),
        "https://api.twitter.com/1.1/statuses/show.json?id=1122130188203171840"
    );
    assert!(request.authorization().starts_with("OAuth "));
}

#[test]
fn search_always_asks_for_a_page_of_100() {
    let request = dummy_bot().get_tweets_query("rust lang", &QueryOption::default()).unwrap();
    assert_eq!(request.method(), Method::Get);
    assert_eq!(
        request.url(),
        "https://api.twitter.com/1.1/search/tweets.json?q=rust%20lang&count=100"
    );
}

#[test]
fn search_sends_only_the_options_that_are_given() {
    let options = QueryOption { result_type: None, since_id: None, max_id: Some(9) };
    let request = dummy_bot().get_tweets_query("q", &options).unwrap();
    assert_eq!(
        request.url(),
        "https://api.twitter.com/1.1/search/tweets.json?q=q&count=100&max_id=9"
    );
    let options = QueryOption { result_type: None, since_id: Some(-3), max_id: None };
    let request = dummy_bot().get_tweets_query("q", &options).unwrap();
    assert_eq!(
        request.url(),
        "https://api.twitter.com/1.1/search/tweets.json?q=q&count=100&since_id=-3"
    );
    let options =
        QueryOption { result_type: Some("recent".to_string()), since_id: None, max_id: None };
    let request = dummy_bot().get_tweets_query("q", &options).unwrap();
    assert_eq!(
        request.url(),
        "https://api.twitter.com/1.1/search/tweets.json?q=q&count=100&result_type=recent"
    );
    let options =
        QueryOption { result_type: Some("mixed".to_string()), since_id: Some(5), max_id: Some(50) };
    let request = dummy_bot().get_tweets_query("#rust", &options).unwrap();
    assert_eq!(
        request.url(),
        "https://api.twitter.com/1.1/search/tweets.json?q=%23rust&count=100&result_type=mixed&since_id=5&max_id=50"
    );
}

#[test]
fn default_query_option_gives_nothing() {
    assert_eq!(
        QueryOption::default(),
        QueryOption { result_type: None, since_id: None, max_id: None }
    );
}

#[test]
fn upload_goes_to_the_upload_host() {
    let request = dummy_bot().upload_file().unwrap();
    assert_eq!(request.method(), Method::Post);
    assert_eq!(request.url(), "https://upload.twitter.com/1.1/media/upload.json");
    assert!(request.authorization().starts_with("OAuth "));
}

#[test]
fn endpoints_have_their_methods_and_addresses() {
    assert_eq!(Endpoint::StatusesUpdate.method(), Method::Post);
    assert_eq!(Endpoint::FavoritesCreate.method(), Method::Post);
    assert_eq!(Endpoint::FavoritesDestroy.method(), Method::Post);
    assert_eq!(Endpoint::Retweet(1).method(), Method::Post);
    assert_eq!(Endpoint::Unretweet(1).method(), Method::Post);
    assert_eq!(Endpoint::StatusesShow.method(), Method::Get);
    assert_eq!(Endpoint::SearchTweets.method(), Method::Get);
    assert_eq!(Endpoint::MediaUpload.method(), Method::Post);
    assert_eq!(Endpoint::StatusesUpdate.url(), "https://api.twitter.com/1.1/statuses/update.json");
    assert_eq!(Endpoint::FavoritesCreate.url(), "https://api.twitter.com/1.1/favorites/create.json");
    assert_eq!(
        Endpoint::FavoritesDestroy.url(),
        "https://api.twitter.com/1.1/favorites/destroy.json"
    );
    assert_eq!(Endpoint::Retweet(12).url(), "https://api.twitter.com/1.1/statuses/retweet/12.json");
    assert_eq!(
        Endpoint::Unretweet(12).url(),
        "https://api.twitter.com/1.1/statuses/unretweet/12.json"
    );
    assert_eq!(Endpoint::StatusesShow.url(), "https://api.twitter.com/1.1/statuses/show.json");
    assert_eq!(Endpoint::SearchTweets.url(), "https://api.twitter.com/1.1/search/tweets.json");
    assert_eq!(Endpoint::MediaUpload.url(), "https://upload.twitter.com/1.1/media/upload.json");
    assert_eq!(Method::Get.as_str(), "GET");
    assert_eq!(Method::Post.as_str(), "POST");
}

#[test]
fn request_text_joins_address_and_query() {
    let pairs = vec![pair("a b", "c d"), pair("e", "")];
    assert_eq!(
        build_request_text(&Endpoint::StatusesShow, &pairs),
        "https://api.twitter.com/1.1/statuses/show.json?a%20b=c%20d&e="
    );
    assert_eq!(
        build_request_text(&Endpoint::StatusesShow, &Vec::new()),
        "https://api.twitter.com/1.1/statuses/show.json"
    );
}

#[test]
fn signed_request_takes_any_parameters() {
    let pairs = vec![pair("id", "5"), pair("trim_user", "true")];
    let request = dummy_bot().signed_request(&Endpoint::StatusesShow, &pairs).unwrap();
    assert_eq!(request.method(), Method::Get);
    assert_eq!(
        request.url(),
        "https://api.twitter.com/1.1/statuses/show.json?id=5&trim_user=true"
    );
}

#[test]
fn sign_sends_the_address_as_the_parser_writes_it() {
    let request = dummy_bot().sign(Method::Get, "HTTPS://Example.COM:443/a b?x=1").unwrap();
    assert_eq!(request.url(), "https://example.com/a%20b?x=1");
    assert_eq!(request.method(), Method::Get);
    assert!(request.authorization().starts_with("OAuth "));
    let request = dummy_bot().sign(Method::Post, "http://example.com:8080").unwrap();
    assert_eq!(request.url(), "http://example.com:8080/");
}

#[test]
fn sign_refuses_what_is_no_address_of_the_web() {
    assert_eq!(dummy_bot().sign(Method::Get, "not a url"), Err(TwitterBotError::UrlParse));
    assert_eq!(dummy_bot().sign(Method::Get, ""), Err(TwitterBotError::UrlParse));
    assert_eq!(dummy_bot().sign(Method::Get, "https://"), Err(TwitterBotError::UrlParse));
    assert_eq!(
        dummy_bot().sign(Method::Get, "ftp://example.com/file"),
        Err(TwitterBotError::UrlParse)
    );
    assert_eq!(
        dummy_bot().sign(Method::Get, "mailto:someone@example.com"),
        Err(TwitterBotError::UrlParse)
    );
}

#[test]
fn decimal_text_of_integers() {
    assert_eq!(decimal_text(0), "0");
    assert_eq!(decimal_text(7), "7");
    assert_eq!(decimal_text(10), "10");
    assert_eq!(decimal_text(-1), "-1");
    assert_eq!(decimal_text(1234567890), "1234567890");
    assert_eq!(decimal_text(i64::MAX), "9223372036854775807");
    assert_eq!(decimal_text(i64::MIN), "-9223372036854775808");
    assert_eq!(decimal_text(i64::MIN + 1), "-9223372036854775807");
}

#[test]
fn replace_plus_rewrites_every_plus() {
    assert_eq!(replace_plus(""), "");
    assert_eq!(replace_plus("abc"), "abc");
    assert_eq!(replace_plus("+"), "%20");
    assert_eq!(replace_plus("a+b++c+"), "a%20b%20%20c%20");
    assert_eq!(replace_plus("\u{e9}+%2B"), "\u{e9}%20%2B");
}

#[test]
fn starts_with_compares_characters() {
    assert!(starts_with("https://x", "https://"));
    assert!(starts_with("abc", ""));
    assert!(starts_with("abc", "abc"));
    assert!(!starts_with("ab", "abc"));
    assert!(!starts_with("http://x", "https://"));
    assert!(starts_with("\u{e9}t\u{e9}", "\u{e9}t"));
    assert!(!starts_with("", "a"));
}
