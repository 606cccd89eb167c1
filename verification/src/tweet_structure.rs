//! What the service sends back: statuses, their authors, search results,
//! upload receipts and errors, and how each is written in JSON. The names of
//! the members are the service's own.

use vstd::prelude::*;
use crate::json::{
    i64_json, json_of_i64, json_of_opt_bool, json_of_opt_i64, json_of_opt_text, json_view,
    lemma_find_at, opt_bool_json, opt_i64_json, opt_text_json, Json, JsonView, Number,
};
use crate::text::opt_text_view;

verus! {

/// The author of a status.
#[derive(Debug, PartialEq)]
pub struct User {
    id: i64,
    id_str: String,
    name: String,
    screen_name: String,
    location: Option<String>,
    description: Option<String>,
    url: Option<String>,
    followers_count: i64,
    friends_count: i64,
    listed_count: i64,
    favourites_count: i64,
    statuses_count: i64,
    following: Option<bool>,
    follow_request_sent: Option<bool>,
}

/// What a [`User`] holds.
pub struct UserView {
    pub id: i64,
    pub id_str: Seq<char>,
    pub name: Seq<char>,
    pub screen_name: Seq<char>,
    pub location: Option<Seq<char>>,
    pub description: Option<Seq<char>>,
    pub url: Option<Seq<char>>,
    pub followers_count: i64,
    pub friends_count: i64,
    pub listed_count: i64,
    pub favourites_count: i64,
    pub statuses_count: i64,
    pub following: Option<bool>,
    pub follow_request_sent: Option<bool>,
}

impl View for User {
    type V = UserView;

    closed spec fn view(&self) -> UserView {
        UserView {
            id: self.id,
            id_str: self.id_str@,
            name: self.name@,
            screen_name: self.screen_name@,
            location: opt_text_view(self.location),
            description: opt_text_view(self.description),
            url: opt_text_view(self.url),
            followers_count: self.followers_count,
            friends_count: self.friends_count,
            listed_count: self.listed_count,
            favourites_count: self.favourites_count,
            statuses_count: self.statuses_count,
            following: self.following,
            follow_request_sent: self.follow_request_sent,
        }
    }
}

/// The user that a JSON value describes: an object in which every member
/// of a user is there under its name and with its kind. The location, the
/// description, the URL and the two flags on following may be absent or
/// `null`; members that the library does not know are passed over.
pub open spec fn user_of_json(j: JsonView) -> Option<UserView> {
    if j.i64_member("id"@) is Some
        && j.text_member("id_str"@) is Some
        && j.text_member("name"@) is Some
        && j.text_member("screen_name"@) is Some
        && j.optional_text("location"@) is Some
        && j.optional_text("description"@) is Some
        && j.optional_text("url"@) is Some
        && j.i64_member("followers_count"@) is Some
        && j.i64_member("friends_count"@) is Some
        && j.i64_member("listed_count"@) is Some
        && j.i64_member("favourites_count"@) is Some
        && j.i64_member("statuses_count"@) is Some
        && j.optional_bool("following"@) is Some
        && j.optional_bool("follow_request_sent"@) is Some {
        Some(
            UserView {
                id: j.i64_member("id"@)->0,
                id_str: j.text_member("id_str"@)->0,
                name: j.text_member("name"@)->0,
                screen_name: j.text_member("screen_name"@)->0,
                location: j.optional_text("location"@)->0,
                description: j.optional_text("description"@)->0,
                url: j.optional_text("url"@)->0,
                followers_count: j.i64_member("followers_count"@)->0,
                friends_count: j.i64_member("friends_count"@)->0,
                listed_count: j.i64_member("listed_count"@)->0,
                favourites_count: j.i64_member("favourites_count"@)->0,
                statuses_count: j.i64_member("statuses_count"@)->0,
                following: j.optional_bool("following"@)->0,
                follow_request_sent: j.optional_bool("follow_request_sent"@)->0,
            },
        )
    } else {
        None
    }
}

/// The JSON value that describes a user: an object with one member for
/// each of its fields, under the field's name; a field that is not given
/// is written `null`.
pub open spec fn user_to_json(v: UserView) -> JsonView {
    JsonView::Object(
        seq![
            ("id"@, json_of_i64(v.id)),
            ("id_str"@, JsonView::Str(v.id_str)),
            ("name"@, JsonView::Str(v.name)),
            ("screen_name"@, JsonView::Str(v.screen_name)),
            ("location"@, json_of_opt_text(v.location)),
            ("description"@, json_of_opt_text(v.description)),
            ("url"@, json_of_opt_text(v.url)),
            ("followers_count"@, json_of_i64(v.followers_count)),
            ("friends_count"@, json_of_i64(v.friends_count)),
            ("listed_count"@, json_of_i64(v.listed_count)),
            ("favourites_count"@, json_of_i64(v.favourites_count)),
            ("statuses_count"@, json_of_i64(v.statuses_count)),
            ("following"@, json_of_opt_bool(v.following)),
            ("follow_request_sent"@, json_of_opt_bool(v.follow_request_sent)),
        ],
    )
}

impl User {
    /// The user's identifier, in its decimal writing.
    pub fn id(&self) -> (r: &str)
        ensures
            r@ == self@.id_str,
    {
        self.id_str.as_str()
    }

    /// The user's handle.
    pub fn name(&self) -> (r: &str)
        ensures
            r@ == self@.screen_name,
    {
        self.screen_name.as_str()
    }

    /// Reads a user from the JSON value that describes it.
    pub fn from_json(j: &Json) -> (r: Option<User>)
        ensures
            match r {
                Some(v) => user_of_json(j@) == Some(v@),
                None => user_of_json(j@) is None,
            },
    {
        let id = j.i64_member("id")?;
        let id_str = j.text_member("id_str")?;
        let name = j.text_member("name")?;
        let screen_name = j.text_member("screen_name")?;
        let location = j.optional_text("location")?;
        let description = j.optional_text("description")?;
        let url = j.optional_text("url")?;
        let followers_count = j.i64_member("followers_count")?;
        let friends_count = j.i64_member("friends_count")?;
        let listed_count = j.i64_member("listed_count")?;
        let favourites_count = j.i64_member("favourites_count")?;
        let statuses_count = j.i64_member("statuses_count")?;
        let following = j.optional_bool("following")?;
        let follow_request_sent = j.optional_bool("follow_request_sent")?;
        Some(User {
            id,
            id_str,
            name,
            screen_name,
            location,
            description,
            url,
            followers_count,
            friends_count,
            listed_count,
            favourites_count,
            statuses_count,
            following,
            follow_request_sent,
        })
    }

    /// Writes the user as the JSON value that describes it.
    pub fn to_json(&self) -> (j: Json)
        ensures
            j@ == user_to_json(self@),
    {
        let mut members: Vec<(String, Json)> = Vec::new();
        members.push(("id".to_owned(), i64_json(self.id)));
        members.push(("id_str".to_owned(), Json::Str(self.id_str.clone())));
        members.push(("name".to_owned(), Json::Str(self.name.clone())));
        members.push(("screen_name".to_owned(), Json::Str(self.screen_name.clone())));
        members.push(("location".to_owned(), opt_text_json(&self.location)));
        members.push(("description".to_owned(), opt_text_json(&self.description)));
        members.push(("url".to_owned(), opt_text_json(&self.url)));
        members.push(("followers_count".to_owned(), i64_json(self.followers_count)));
        members.push(("friends_count".to_owned(), i64_json(self.friends_count)));
        members.push(("listed_count".to_owned(), i64_json(self.listed_count)));
        members.push(("favourites_count".to_owned(), i64_json(self.favourites_count)));
        members.push(("statuses_count".to_owned(), i64_json(self.statuses_count)));
        members.push(("following".to_owned(), opt_bool_json(self.following)));
        members.push(("follow_request_sent".to_owned(), opt_bool_json(self.follow_request_sent)));
        let j = Json::Object(members);
        proof {
            reveal_with_fuel(json_view, 2);
            let written = j@->Object_0;
            let wanted = user_to_json(self@)->Object_0;
            assert(written.len() == wanted.len());
            assert(written[0] == wanted[0]);
            assert(written[1] == wanted[1]);
            assert(written[2] == wanted[2]);
            assert(written[3] == wanted[3]);
            assert(written[4] == wanted[4]);
            assert(written[5] == wanted[5]);
            assert(written[6] == wanted[6]);
            assert(written[7] == wanted[7]);
            assert(written[8] == wanted[8]);
            assert(written[9] == wanted[9]);
            assert(written[10] == wanted[10]);
            assert(written[11] == wanted[11]);
            assert(written[12] == wanted[12]);
            assert(written[13] == wanted[13]);
            assert(written =~= wanted);
        }
        j
    }
}

/// Writing a user as JSON and reading it back gives the same user.
pub proof fn law_user_round_trip(v: UserView)
    ensures
        user_of_json(user_to_json(v)) == Some(v),
{
    let members = user_to_json(v)->Object_0;
    reveal_strlit("id");
    assert("id"@ =~= seq!['i', 'd']);
    reveal_strlit("id_str");
    assert("id_str"@ =~= seq!['i', 'd', '_', 's', 't', 'r']);
    reveal_strlit("name");
    assert("name"@ =~= seq!['n', 'a', 'm', 'e']);
    reveal_strlit("screen_name");
    assert("screen_name"@ =~= seq!['s', 'c', 'r', 'e', 'e', 'n', '_', 'n', 'a', 'm', 'e']);
    reveal_strlit("location");
    assert("location"@ =~= seq!['l', 'o', 'c', 'a', 't', 'i', 'o', 'n']);
    reveal_strlit("description");
    assert("description"@ =~= seq!['d', 'e', 's', 'c', 'r', 'i', 'p', 't', 'i', 'o', 'n']);
    reveal_strlit("url");
    assert("url"@ =~= seq!['u', 'r', 'l']);
    reveal_strlit("followers_count");
    assert("followers_count"@ =~= seq![
        'f', 'o', 'l', 'l', 'o', 'w', 'e', 'r', 's', '_', 'c', 'o', 'u', 'n', 't',
    ]);
    reveal_strlit("friends_count");
    assert("friends_count"@ =~= seq![
        'f', 'r', 'i', 'e', 'n', 'd', 's', '_', 'c', 'o', 'u', 'n', 't',
    ]);
    reveal_strlit("listed_count");
    assert("listed_count"@ =~= seq!['l', 'i', 's', 't', 'e', 'd', '_', 'c', 'o', 'u', 'n', 't']);
    reveal_strlit("favourites_count");
    assert("favourites_count"@ =~= seq![
        'f', 'a', 'v', 'o', 'u', 'r', 'i', 't', 'e', 's', '_', 'c', 'o', 'u', 'n', 't',
    ]);
    reveal_strlit("statuses_count");
    assert("statuses_count"@ =~= seq![
        's', 't', 'a', 't', 'u', 's', 'e', 's', '_', 'c', 'o', 'u', 'n', 't',
    ]);
    reveal_strlit("following");
    assert("following"@ =~= seq!['f', 'o', 'l', 'l', 'o', 'w', 'i', 'n', 'g']);
    reveal_strlit("follow_request_sent");
    assert("follow_request_sent"@ =~= seq![
        'f', 'o', 'l', 'l', 'o', 'w', '_', 'r', 'e', 'q', 'u', 'e', 's', 't', '_', 's', 'e', 'n',
        't',
    ]);
    lemma_find_at(members, 0);
    lemma_find_at(members, 1);
    lemma_find_at(members, 2);
    lemma_find_at(members, 3);
    lemma_find_at(members, 4);
    lemma_find_at(members, 5);
    lemma_find_at(members, 6);
    lemma_find_at(members, 7);
    lemma_find_at(members, 8);
    lemma_find_at(members, 9);
    lemma_find_at(members, 10);
    lemma_find_at(members, 11);
    lemma_find_at(members, 12);
    lemma_find_at(members, 13);
}

/// The member `name` of `j` as a user.
pub open spec fn user_member(j: JsonView, name: Seq<char>) -> Option<UserView> {
    match j.member(name) {
        Some(value) => user_of_json(value),
        None => None,
    }
}

/// A status.
#[derive(Debug, PartialEq)]
pub struct Tweet {
    id: i64,
    id_str: String,
    text: String,
    truncated: bool,
    in_reply_to_status_id: Option<i64>,
    in_reply_to_status_id_str: Option<String>,
    in_reply_to_user_id: Option<i64>,
    in_reply_to_user_id_str: Option<String>,
    in_reply_to_screen_name: Option<String>,
    user: User,
    is_quote_status: bool,
    retweet_count: i64,
    favorite_count: i64,
    favorited: bool,
    retweeted: bool,
}

/// What a [`Tweet`] holds.
pub struct TweetView {
    pub id: i64,
    pub id_str: Seq<char>,
    pub text: Seq<char>,
    pub truncated: bool,
    pub in_reply_to_status_id: Option<i64>,
    pub in_reply_to_status_id_str: Option<Seq<char>>,
    pub in_reply_to_user_id: Option<i64>,
    pub in_reply_to_user_id_str: Option<Seq<char>>,
    pub in_reply_to_screen_name: Option<Seq<char>>,
    pub user: UserView,
    pub is_quote_status: bool,
    pub retweet_count: i64,
    pub favorite_count: i64,
    pub favorited: bool,
    pub retweeted: bool,
}

impl View for Tweet {
    type V = TweetView;

    closed spec fn view(&self) -> TweetView {
        TweetView {
            id: self.id,
            id_str: self.id_str@,
            text: self.text@,
            truncated: self.truncated,
            in_reply_to_status_id: self.in_reply_to_status_id,
            in_reply_to_status_id_str: opt_text_view(self.in_reply_to_status_id_str),
            in_reply_to_user_id: self.in_reply_to_user_id,
            in_reply_to_user_id_str: opt_text_view(self.in_reply_to_user_id_str),
            in_reply_to_screen_name: opt_text_view(self.in_reply_to_screen_name),
            user: self.user@,
            is_quote_status: self.is_quote_status,
            retweet_count: self.retweet_count,
            favorite_count: self.favorite_count,
            favorited: self.favorited,
            retweeted: self.retweeted,
        }
    }
}

/// The status that a JSON value describes: an object in which every member
/// of a status is there under its name and with its kind, the author under
/// `user`. The members that say what the status answers may be absent or
/// `null`; members that the library does not know are passed over.
pub open spec fn tweet_of_json(j: JsonView) -> Option<TweetView> {
    if j.i64_member("id"@) is Some
        && j.text_member("id_str"@) is Some
        && j.text_member("text"@) is Some
        && j.bool_member("truncated"@) is Some
        && j.optional_i64("in_reply_to_status_id"@) is Some
        && j.optional_text("in_reply_to_status_id_str"@) is Some
        && j.optional_i64("in_reply_to_user_id"@) is Some
        && j.optional_text("in_reply_to_user_id_str"@) is Some
        && j.optional_text("in_reply_to_screen_name"@) is Some
        && user_member(j, "user"@) is Some
        && j.bool_member("is_quote_status"@) is Some
        && j.i64_member("retweet_count"@) is Some
        && j.i64_member("favorite_count"@) is Some
        && j.bool_member("favorited"@) is Some
        && j.bool_member("retweeted"@) is Some {
        Some(
            TweetView {
                id: j.i64_member("id"@)->0,
                id_str: j.text_member("id_str"@)->0,
                text: j.text_member("text"@)->0,
                truncated: j.bool_member("truncated"@)->0,
                in_reply_to_status_id: j.optional_i64("in_reply_to_status_id"@)->0,
                in_reply_to_status_id_str: j.optional_text("in_reply_to_status_id_str"@)->0,
                in_reply_to_user_id: j.optional_i64("in_reply_to_user_id"@)->0,
                in_reply_to_user_id_str: j.optional_text("in_reply_to_user_id_str"@)->0,
                in_reply_to_screen_name: j.optional_text("in_reply_to_screen_name"@)->0,
                user: user_member(j, "user"@)->0,
                is_quote_status: j.bool_member("is_quote_status"@)->0,
                retweet_count: j.i64_member("retweet_count"@)->0,
                favorite_count: j.i64_member("favorite_count"@)->0,
                favorited: j.bool_member("favorited"@)->0,
                retweeted: j.bool_member("retweeted"@)->0,
            },
        )
    } else {
        None
    }
}

/// The JSON value that describes a status: an object with one member for
/// each of its fields, under the field's name; a field that is not given
/// is written `null`.
pub open spec fn tweet_to_json(v: TweetView) -> JsonView {
    JsonView::Object(
        seq![
            ("id"@, json_of_i64(v.id)),
            ("id_str"@, JsonView::Str(v.id_str)),
            ("text"@, JsonView::Str(v.text)),
            ("truncated"@, JsonView::Bool(v.truncated)),
            ("in_reply_to_status_id"@, json_of_opt_i64(v.in_reply_to_status_id)),
            ("in_reply_to_status_id_str"@, json_of_opt_text(v.in_reply_to_status_id_str)),
            ("in_reply_to_user_id"@, json_of_opt_i64(v.in_reply_to_user_id)),
            ("in_reply_to_user_id_str"@, json_of_opt_text(v.in_reply_to_user_id_str)),
            ("in_reply_to_screen_name"@, json_of_opt_text(v.in_reply_to_screen_name)),
            ("user"@, user_to_json(v.user)),
            ("is_quote_status"@, JsonView::Bool(v.is_quote_status)),
            ("retweet_count"@, json_of_i64(v.retweet_count)),
            ("favorite_count"@, json_of_i64(v.favorite_count)),
            ("favorited"@, JsonView::Bool(v.favorited)),
            ("retweeted"@, JsonView::Bool(v.retweeted)),
        ],
    )
}

impl Tweet {
    /// The status's identifier.
    pub fn id(&self) -> (r: i64)
        ensures
            r == self@.id,
    {
        self.id
    }

    /// The identifier of the status that this one answers, if it answers
    /// one.
    pub fn reply_to(&self) -> (r: Option<i64>)
        ensures
            r == self@.in_reply_to_status_id,
    {
        self.in_reply_to_status_id
    }

    /// The author of the status.
    pub fn user(&self) -> (r: &User)
        ensures
            r@ == self@.user,
    {
        &self.user
    }

    /// The text of the status.
    pub fn content(&self) -> (r: &str)
        ensures
            r@ == self@.text,
    {
        self.text.as_str()
    }

    /// Reads a status from the JSON value that describes it.
    pub fn from_json(j: &Json) -> (r: Option<Tweet>)
        ensures
            match r {
                Some(v) => tweet_of_json(j@) == Some(v@),
                None => tweet_of_json(j@) is None,
            },
    {
        let id = j.i64_member("id")?;
        let id_str = j.text_member("id_str")?;
        let text = j.text_member("text")?;
        let truncated = j.bool_member("truncated")?;
        let in_reply_to_status_id = j.optional_i64("in_reply_to_status_id")?;
        let in_reply_to_status_id_str = j.optional_text("in_reply_to_status_id_str")?;
        let in_reply_to_user_id = j.optional_i64("in_reply_to_user_id")?;
        let in_reply_to_user_id_str = j.optional_text("in_reply_to_user_id_str")?;
        let in_reply_to_screen_name = j.optional_text("in_reply_to_screen_name")?;
        let user = match j.member("user") {
            Some(value) => User::from_json(value)?,
            None => {
                return None;
            },
        };
        let is_quote_status = j.bool_member("is_quote_status")?;
        let retweet_count = j.i64_member("retweet_count")?;
        let favorite_count = j.i64_member("favorite_count")?;
        let favorited = j.bool_member("favorited")?;
        let retweeted = j.bool_member("retweeted")?;
        Some(Tweet {
            id,
            id_str,
            text,
            truncated,
            in_reply_to_status_id,
            in_reply_to_status_id_str,
            in_reply_to_user_id,
            in_reply_to_user_id_str,
            in_reply_to_screen_name,
            user,
            is_quote_status,
            retweet_count,
            favorite_count,
            favorited,
            retweeted,
        })
    }

    /// Writes the status as the JSON value that describes it.
    pub fn to_json(&self) -> (j: Json)
        ensures
            j@ == tweet_to_json(self@),
    {
        let mut members: Vec<(String, Json)> = Vec::new();
        members.push(("id".to_owned(), i64_json(self.id)));
        members.push(("id_str".to_owned(), Json::Str(self.id_str.clone())));
        members.push(("text".to_owned(), Json::Str(self.text.clone())));
        members.push(("truncated".to_owned(), Json::Bool(self.truncated)));
        members.push(
            ("in_reply_to_status_id".to_owned(), opt_i64_json(self.in_reply_to_status_id)),
        );
        members.push(
            (
                "in_reply_to_status_id_str".to_owned(),
                opt_text_json(&self.in_reply_to_status_id_str),
            ),
        );
        members.push(("in_reply_to_user_id".to_owned(), opt_i64_json(self.in_reply_to_user_id)));
        members.push(
            ("in_reply_to_user_id_str".to_owned(), opt_text_json(&self.in_reply_to_user_id_str)),
        );
        members.push(
            ("in_reply_to_screen_name".to_owned(), opt_text_json(&self.in_reply_to_screen_name)),
        );
        members.push(("user".to_owned(), self.user.to_json()));
        members.push(("is_quote_status".to_owned(), Json::Bool(self.is_quote_status)));
        members.push(("retweet_count".to_owned(), i64_json(self.retweet_count)));
        members.push(("favorite_count".to_owned(), i64_json(self.favorite_count)));
        members.push(("favorited".to_owned(), Json::Bool(self.favorited)));
        members.push(("retweeted".to_owned(), Json::Bool(self.retweeted)));
        let j = Json::Object(members);
        proof {
            reveal_with_fuel(json_view, 2);
            let written = j@->Object_0;
            let wanted = tweet_to_json(self@)->Object_0;
            assert(written.len() == wanted.len());
            assert(written[0] == wanted[0]);
            assert(written[1] == wanted[1]);
            assert(written[2] == wanted[2]);
            assert(written[3] == wanted[3]);
            assert(written[4] == wanted[4]);
            assert(written[5] == wanted[5]);
            assert(written[6] == wanted[6]);
            assert(written[7] == wanted[7]);
            assert(written[8] == wanted[8]);
            assert(written[9] == wanted[9]);
            assert(written[10] == wanted[10]);
            assert(written[11] == wanted[11]);
            assert(written[12] == wanted[12]);
            assert(written[13] == wanted[13]);
            assert(written[14] == wanted[14]);
            assert(written =~= wanted);
        }
        j
    }
}

/// Writing a status as JSON and reading it back gives the same status:
/// the same identifier, text, author and everything else.
pub proof fn law_tweet_round_trip(v: TweetView)
    ensures
        tweet_of_json(tweet_to_json(v)) == Some(v),
{
    let members = tweet_to_json(v)->Object_0;
    reveal_strlit("id");
    assert("id"@ =~= seq!['i', 'd']);
    reveal_strlit("id_str");
    assert("id_str"@ =~= seq!['i', 'd', '_', 's', 't', 'r']);
    reveal_strlit("text");
    assert("text"@ =~= seq!['t', 'e', 'x', 't']);
    reveal_strlit("truncated");
    assert("truncated"@ =~= seq!['t', 'r', 'u', 'n', 'c', 'a', 't', 'e', 'd']);
    reveal_strlit("in_reply_to_status_id");
    assert("in_reply_to_status_id"@ =~= seq![
        'i', 'n', '_', 'r', 'e', 'p', 'l', 'y', '_', 't', 'o', '_', 's', 't', 'a', 't', 'u', 's',
        '_', 'i', 'd',
    ]);
    reveal_strlit("in_reply_to_status_id_str");
    assert("in_reply_to_status_id_str"@ =~= seq![
        'i', 'n', '_', 'r', 'e', 'p', 'l', 'y', '_', 't', 'o', '_', 's', 't', 'a', 't', 'u', 's',
        '_', 'i', 'd', '_', 's', 't', 'r',
    ]);
    reveal_strlit("in_reply_to_user_id");
    assert("in_reply_to_user_id"@ =~= seq![
        'i', 'n', '_', 'r', 'e', 'p', 'l', 'y', '_', 't', 'o', '_', 'u', 's', 'e', 'r', '_', 'i',
        'd',
    ]);
    reveal_strlit("in_reply_to_user_id_str");
    assert("in_reply_to_user_id_str"@ =~= seq![
        'i', 'n', '_', 'r', 'e', 'p', 'l', 'y', '_', 't', 'o', '_', 'u', 's', 'e', 'r', '_', 'i',
        'd', '_', 's', 't', 'r',
    ]);
    reveal_strlit("in_reply_to_screen_name");
    assert("in_reply_to_screen_name"@ =~= seq![
        'i', 'n', '_', 'r', 'e', 'p', 'l', 'y', '_', 't', 'o', '_', 's', 'c', 'r', 'e', 'e', 'n',
        '_', 'n', 'a', 'm', 'e',
    ]);
    reveal_strlit("user");
    assert("user"@ =~= seq!['u', 's', 'e', 'r']);
    reveal_strlit("is_quote_status");
    assert("is_quote_status"@ =~= seq![
        'i', 's', '_', 'q', 'u', 'o', 't', 'e', '_', 's', 't', 'a', 't', 'u', 's',
    ]);
    reveal_strlit("retweet_count");
    assert("retweet_count"@ =~= seq![
        'r', 'e', 't', 'w', 'e', 'e', 't', '_', 'c', 'o', 'u', 'n', 't',
    ]);
    reveal_strlit("favorite_count");
    assert("favorite_count"@ =~= seq![
        'f', 'a', 'v', 'o', 'r', 'i', 't', 'e', '_', 'c', 'o', 'u', 'n', 't',
    ]);
    reveal_strlit("favorited");
    assert("favorited"@ =~= seq!['f', 'a', 'v', 'o', 'r', 'i', 't', 'e', 'd']);
    reveal_strlit("retweeted");
    assert("retweeted"@ =~= seq!['r', 'e', 't', 'w', 'e', 'e', 't', 'e', 'd']);
    lemma_find_at(members, 0);
    lemma_find_at(members, 1);
    lemma_find_at(members, 2);
    lemma_find_at(members, 3);
    lemma_find_at(members, 4);
    lemma_find_at(members, 5);
    lemma_find_at(members, 6);
    lemma_find_at(members, 7);
    lemma_find_at(members, 8);
    lemma_find_at(members, 9);
    lemma_find_at(members, 10);
    lemma_find_at(members, 11);
    lemma_find_at(members, 12);
    lemma_find_at(members, 13);
    lemma_find_at(members, 14);
    law_user_round_trip(v.user);
}

/// What the service reports about a search.
#[derive(Debug, PartialEq)]
pub struct SearchMetadata {
    completed_in: Number,
    max_id: i64,
    max_id_str: String,
    query: String,
    refresh_url: String,
    count: i64,
    since_id: i64,
    since_id_str: String,
}

/// What a [`SearchMetadata`] holds.
pub struct SearchMetadataView {
    pub completed_in: Number,
    pub max_id: i64,
    pub max_id_str: Seq<char>,
    pub query: Seq<char>,
    pub refresh_url: Seq<char>,
    pub count: i64,
    pub since_id: i64,
    pub since_id_str: Seq<char>,
}

impl View for SearchMetadata {
    type V = SearchMetadataView;

    closed spec fn view(&self) -> SearchMetadataView {
        SearchMetadataView {
            completed_in: self.completed_in,
            max_id: self.max_id,
            max_id_str: self.max_id_str@,
            query: self.query@,
            refresh_url: self.refresh_url@,
            count: self.count,
            since_id: self.since_id,
            since_id_str: self.since_id_str@,
        }
    }
}

/// The report on a search that a JSON value describes: an object in which
/// every member of such a report is there under its name and with its
/// kind. The time taken may be any number; members that the library does
/// not know are passed over.
pub open spec fn metadata_of_json(j: JsonView) -> Option<SearchMetadataView> {
    if j.number_member("completed_in"@) is Some
        && j.i64_member("max_id"@) is Some
        && j.text_member("max_id_str"@) is Some
        && j.text_member("query"@) is Some
        && j.text_member("refresh_url"@) is Some
        && j.i64_member("count"@) is Some
        && j.i64_member("since_id"@) is Some
        && j.text_member("since_id_str"@) is Some {
        Some(
            SearchMetadataView {
                completed_in: j.number_member("completed_in"@)->0,
                max_id: j.i64_member("max_id"@)->0,
                max_id_str: j.text_member("max_id_str"@)->0,
                query: j.text_member("query"@)->0,
                refresh_url: j.text_member("refresh_url"@)->0,
                count: j.i64_member("count"@)->0,
                since_id: j.i64_member("since_id"@)->0,
                since_id_str: j.text_member("since_id_str"@)->0,
            },
        )
    } else {
        None
    }
}

impl SearchMetadata {
    /// The time that the search took, in seconds.
    pub fn completed_in(&self) -> (r: Number)
        ensures
            r == self@.completed_in,
    {
        self.completed_in
    }

    /// The highest identifier that the search looked at: the place to go
    /// on from.
    pub fn max_id(&self) -> (r: i64)
        ensures
            r == self@.max_id,
    {
        self.max_id
    }

    /// The identifier above which the search looked.
    pub fn since_id(&self) -> (r: i64)
        ensures
            r == self@.since_id,
    {
        self.since_id
    }

    /// The query as the service understood it.
    pub fn query(&self) -> (r: &str)
        ensures
            r@ == self@.query,
    {
        self.query.as_str()
    }

    /// The size of the page that was asked for.
    pub fn count(&self) -> (r: i64)
        ensures
            r == self@.count,
    {
        self.count
    }

    /// Reads the report on a search from the JSON value that describes it.
    pub fn from_json(j: &Json) -> (r: Option<SearchMetadata>)
        ensures
            match r {
                Some(v) => metadata_of_json(j@) == Some(v@),
                None => metadata_of_json(j@) is None,
            },
    {
        let completed_in = match j.member("completed_in") {
            Some(value) => value.as_number()?,
            None => {
                return None;
            },
        };
        let max_id = j.i64_member("max_id")?;
        let max_id_str = j.text_member("max_id_str")?;
        let query = j.text_member("query")?;
        let refresh_url = j.text_member("refresh_url")?;
        let count = j.i64_member("count")?;
        let since_id = j.i64_member("since_id")?;
        let since_id_str = j.text_member("since_id_str")?;
        Some(SearchMetadata {
            completed_in,
            max_id,
            max_id_str,
            query,
            refresh_url,
            count,
            since_id,
            since_id_str,
        })
    }
}

/// The statuses that the items of a JSON array describe, where every item
/// describes one.
pub open spec fn tweets_of_json(items: Seq<JsonView>) -> Option<Seq<TweetView>> {
    if forall|i: int| 0 <= i < items.len() ==> (#[trigger] tweet_of_json(items[i])) is Some {
        Some(Seq::new(items.len(), |i: int| tweet_of_json(items[i])->0))
    } else {
        None
    }
}

/// Reads one status from each item of a JSON array.
pub fn tweets_from_json(items: &Vec<Json>) -> (r: Option<Vec<Tweet>>)
    ensures
        match r {
            Some(tweets) => tweets_of_json(items@.map_values(|j: Json| j@)) == Some(
                tweets@.map_values(|t: Tweet| t@),
            ),
            None => tweets_of_json(items@.map_values(|j: Json| j@)) is None,
        },
{
    let ghost views = items@.map_values(|j: Json| j@);
    let mut tweets: Vec<Tweet> = Vec::new();
    let mut i: usize = 0;
    while i < items.len()
        invariant
            i <= items.len(),
            tweets.len() == i,
            views == items@.map_values(|j: Json| j@),
            forall|k: int| 0 <= k < i ==> tweet_of_json(views[k]) == Some(#[trigger] tweets@[k]@),
        decreases items.len() - i,
    {
        match Tweet::from_json(&items[i]) {
            Some(tweet) => {
                tweets.push(tweet);
            },
            None => {
                proof {
                    assert(tweet_of_json(views[i as int]) is None);
                }
                return None;
            },
        }
        i = i + 1;
    }
    proof {
        let have = tweets@.map_values(|t: Tweet| t@);
        assert forall|k: int| 0 <= k < views.len() implies (#[trigger] tweet_of_json(
            views[k],
        )) is Some by {
            assert(tweet_of_json(views[k]) == Some(tweets@[k]@));
        }
        let got = tweets_of_json(views)->0;
        assert forall|k: int| 0 <= k < got.len() implies got[k] == have[k] by {
            assert(tweet_of_json(views[k]) == Some(tweets@[k]@));
        }
        assert(got =~= have);
    }
    Some(tweets)
}

/// One page of search results: the statuses found, in the service's order,
/// and what the service reports about the search. A further page is had by
/// asking again.
#[derive(Debug, PartialEq)]
pub struct SearchResponse {
    pub statuses: Vec<Tweet>,
    search_metadata: SearchMetadata,
}

/// What a [`SearchResponse`] holds.
pub struct SearchResponseView {
    pub statuses: Seq<TweetView>,
    pub search_metadata: SearchMetadataView,
}

impl View for SearchResponse {
    type V = SearchResponseView;

    closed spec fn view(&self) -> SearchResponseView {
        SearchResponseView {
            statuses: self.statuses@.map_values(|t: Tweet| t@),
            search_metadata: self.search_metadata@,
        }
    }
}

/// The page of results that a JSON value describes: an object with an
/// array `statuses` of statuses and an object `search_metadata`.
pub open spec fn search_of_json(j: JsonView) -> Option<SearchResponseView> {
    match (j.member("statuses"@), j.member("search_metadata"@)) {
        (Some(JsonView::Array(items)), Some(metadata)) => match (
            tweets_of_json(items),
            metadata_of_json(metadata),
        ) {
            (Some(statuses), Some(search_metadata)) => Some(
                SearchResponseView { statuses, search_metadata },
            ),
            _ => None,
        },
        _ => None,
    }
}

impl SearchResponse {
    /// Reads a page of results from the JSON value that describes it.
    pub fn from_json(j: &Json) -> (r: Option<SearchResponse>)
        ensures
            match r {
                Some(v) => search_of_json(j@) == Some(v@),
                None => search_of_json(j@) is None,
            },
    {
        let items = match j.member("statuses") {
            Some(value) => value.as_array()?,
            None => {
                return None;
            },
        };
        let statuses = tweets_from_json(items)?;
        let search_metadata = match j.member("search_metadata") {
            Some(value) => SearchMetadata::from_json(value)?,
            None => {
                return None;
            },
        };
        Some(SearchResponse { statuses, search_metadata })
    }

    /// What the service reports about the search.
    pub fn search_metadata(&self) -> (r: &SearchMetadata)
        ensures
            r@ == self@.search_metadata,
    {
        &self.search_metadata
    }

    /// The statuses of the page, without what the service reports about
    /// the search.
    pub fn into_statuses(self) -> (r: Vec<Tweet>)
        ensures
            r@.map_values(|t: Tweet| t@) == self@.statuses,
    {
        self.statuses
    }
}

/// The receipt for an uploaded file: the identifier under which a status
/// can refer to it.
#[derive(Clone, Copy, Debug, PartialEq, Eq, Structural)]
pub struct Media {
    pub media_id: u64,
}

/// The receipt that a JSON value describes: an object with an unsigned
/// integer `media_id`.
pub open spec fn media_of_json(j: JsonView) -> Option<Media> {
    match j.u64_member("media_id"@) {
        Some(media_id) => Some(Media { media_id }),
        None => None,
    }
}

impl Media {
    /// Reads a receipt from the JSON value that describes it.
    pub fn from_json(j: &Json) -> (r: Option<Media>)
        ensures
            r == media_of_json(j@),
    {
        let media_id = j.u64_member("media_id")?;
        Some(Media { media_id })
    }
}

/// One entry of the list of errors that the service answers with.
#[derive(Debug, PartialEq)]
struct Errors {
    code: i64,
    message: String,
}

/// What one entry of the service's list of errors says.
pub struct ErrorsView {
    pub code: i64,
    pub message: Seq<char>,
}

impl View for Errors {
    type V = ErrorsView;

    closed spec fn view(&self) -> ErrorsView {
        ErrorsView { code: self.code, message: self.message@ }
    }
}

/// The entry that a JSON value describes: an object with an integer `code`
/// and a text `message`.
pub open spec fn entry_of_json(j: JsonView) -> Option<ErrorsView> {
    match (j.i64_member("code"@), j.text_member("message"@)) {
        (Some(code), Some(message)) => Some(ErrorsView { code, message }),
        _ => None,
    }
}

/// The entries that the items of a JSON array describe, where every item
/// describes one.
pub open spec fn entries_of_json(items: Seq<JsonView>) -> Option<Seq<ErrorsView>> {
    if forall|i: int| 0 <= i < items.len() ==> (#[trigger] entry_of_json(items[i])) is Some {
        Some(Seq::new(items.len(), |i: int| entry_of_json(items[i])->0))
    } else {
        None
    }
}

/// Reads one entry from each item of a JSON array.
fn entries_from_json(items: &Vec<Json>) -> (r: Option<Vec<Errors>>)
    ensures
        match r {
            Some(errors) => entries_of_json(items@.map_values(|j: Json| j@)) == Some(
                errors@.map_values(|e: Errors| e@),
            ),
            None => entries_of_json(items@.map_values(|j: Json| j@)) is None,
        },
{
    let ghost views = items@.map_values(|j: Json| j@);
    let mut errors: Vec<Errors> = Vec::new();
    let mut i: usize = 0;
    while i < items.len()
        invariant
            i <= items.len(),
            errors.len() == i,
            views == items@.map_values(|j: Json| j@),
            forall|k: int| 0 <= k < i ==> entry_of_json(views[k]) == Some(#[trigger] errors@[k]@),
        decreases items.len() - i,
    {
        let code = items[i].i64_member("code");
        let message = items[i].text_member("message");
        match (code, message) {
            (Some(code), Some(message)) => {
                errors.push(Errors { code, message });
            },
            _ => {
                proof {
                    assert(entry_of_json(views[i as int]) is None);
                }
                return None;
            },
        }
        i = i + 1;
    }
    proof {
        let have = errors@.map_values(|e: Errors| e@);
        assert forall|k: int| 0 <= k < views.len() implies (#[trigger] entry_of_json(
            views[k],
        )) is Some by {
            assert(entry_of_json(views[k]) == Some(errors@[k]@));
        }
        let got = entries_of_json(views)->0;
        assert forall|k: int| 0 <= k < got.len() implies got[k] == have[k] by {
            assert(entry_of_json(views[k]) == Some(errors@[k]@));
        }
        assert(got =~= have);
    }
    Some(errors)
}

/// The errors that the service answers a request with. There is always at
/// least one entry.
#[derive(Debug, PartialEq)]
pub struct TwitterError {
    errors: Vec<Errors>,
}

/// What a [`TwitterError`] holds: the entries in the service's order.
pub struct TwitterErrorView {
    pub errors: Seq<ErrorsView>,
}

impl View for TwitterError {
    type V = TwitterErrorView;

    closed spec fn view(&self) -> TwitterErrorView {
        TwitterErrorView { errors: self.errors@.map_values(|e: Errors| e@) }
    }
}

/// The errors that a JSON value describes: an object with an array
/// `errors` of at least one entry.
pub open spec fn error_of_json(j: JsonView) -> Option<TwitterErrorView> {
    match j.member("errors"@) {
        Some(JsonView::Array(items)) => match entries_of_json(items) {
            Some(errors) => if errors.len() > 0 {
                Some(TwitterErrorView { errors })
            } else {
                None
            },
            None => None,
        },
        _ => None,
    }
}

impl TwitterError {
    #[verifier::type_invariant]
    spec fn has_entry(self) -> bool {
        self.errors@.len() > 0
    }

    /// Reads the service's errors from the JSON value that describes them.
    pub fn from_json(j: &Json) -> (r: Option<TwitterError>)
        ensures
            match r {
                Some(v) => error_of_json(j@) == Some(v@),
                None => error_of_json(j@) is None,
            },
    {
        let items = match j.member("errors") {
            Some(value) => value.as_array()?,
            None => {
                return None;
            },
        };
        let errors = entries_from_json(items)?;
        if errors.len() == 0 {
            return None;
        }
        Some(TwitterError { errors })
    }

    /// The message of the first entry: the text that is shown for the
    /// failure.
    pub fn message(&self) -> (r: &str)
        ensures
            self@.errors.len() > 0,
            r@ == self@.errors[0].message,
    {
        proof {
            use_type_invariant(self);
        }
        self.errors[0].message.as_str()
    }

    /// The code of the first entry.
    pub fn code(&self) -> (r: i64)
        ensures
            self@.errors.len() > 0,
            r == self@.errors[0].code,
    {
        proof {
            use_type_invariant(self);
        }
        self.errors[0].code
    }
}

/// What a search can be narrowed by. Whatever is not given is left out of
/// the request.
#[derive(Clone, Debug, PartialEq, Eq)]
pub struct QueryOption {
    /// Which results are wanted: `recent`, `popular` or `mixed`.
    pub result_type: Option<String>,
    /// Only statuses with an identifier above this one.
    pub since_id: Option<i64>,
    /// Only statuses with an identifier up to this one.
    pub max_id: Option<i64>,
}

/// What a [`QueryOption`] holds.
pub struct QueryOptionView {
    pub result_type: Option<Seq<char>>,
    pub since_id: Option<i64>,
    pub max_id: Option<i64>,
}

impl View for QueryOption {
    type V = QueryOptionView;

    open spec fn view(&self) -> QueryOptionView {
        QueryOptionView {
            result_type: opt_text_view(self.result_type),
            since_id: self.since_id,
            max_id: self.max_id,
        }
    }
}

impl Default for QueryOption {
    fn default() -> (r: Self)
        ensures
            r@ == (QueryOptionView { result_type: None, since_id: None, max_id: None }),
    {
        QueryOption { result_type: None, since_id: None, max_id: None }
    }
}

} // verus!
