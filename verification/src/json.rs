//! The bodies that the service sends, as values: what a JSON text says,
//! once it has been read.

use vstd::prelude::*;
use crate::text::opt_text_view;

verus! {

/// A JSON number.
///
/// A number without fraction or exponent is an `Integer`. Any other number
/// is a `Real`, kept as the bits of its double-precision value; the library
/// never computes with one.
#[derive(Clone, Copy, Debug, PartialEq, Eq, Structural)]
pub enum Number {
    Integer(i128),
    Real(u64),
}

/// A JSON value.
#[derive(Debug, PartialEq)]
pub enum Json {
    Null,
    Bool(bool),
    Number(Number),
    Str(String),
    Array(Vec<Json>),
    /// The members of an object in the order in which they were written.
    Object(Vec<(String, Json)>),
}

/// What a [`Json`] value stands for.
pub enum JsonView {
    Null,
    Bool(bool),
    Number(Number),
    Str(Seq<char>),
    Array(Seq<JsonView>),
    Object(Seq<(Seq<char>, JsonView)>),
}

/// What `value` stands for: the same shape, with texts and sequences in
/// place of strings and vectors.
pub open spec fn json_view(value: Json) -> JsonView
    decreases value,
{
    match value {
        Json::Null => JsonView::Null,
        Json::Bool(b) => JsonView::Bool(b),
        Json::Number(n) => JsonView::Number(n),
        Json::Str(s) => JsonView::Str(s@),
        Json::Array(items) => JsonView::Array(
            Seq::new(
                items@.len(),
                |i: int|
                    if 0 <= i < items@.len() {
                        json_view(items@[i])
                    } else {
                        JsonView::Null
                    },
            ),
        ),
        Json::Object(members) => JsonView::Object(
            Seq::new(
                members@.len(),
                |i: int|
                    if 0 <= i < members@.len() {
                        (members@[i].0@, json_view(members@[i].1))
                    } else {
                        (Seq::empty(), JsonView::Null)
                    },
            ),
        ),
    }
}

impl View for Json {
    type V = JsonView;

    open spec fn view(&self) -> JsonView {
        json_view(*self)
    }
}

/// The value of the first member called `name`, if there is one.
pub open spec fn find(members: Seq<(Seq<char>, JsonView)>, name: Seq<char>) -> Option<JsonView>
    decreases members.len(),
{
    if members.len() == 0 {
        None
    } else if members[0].0 == name {
        Some(members[0].1)
    } else {
        find(members.drop_first(), name)
    }
}

impl JsonView {
    /// The member `name` of an object; nothing for a value that is no
    /// object or has no such member.
    pub open spec fn member(self, name: Seq<char>) -> Option<JsonView> {
        match self {
            JsonView::Object(members) => find(members, name),
            _ => None,
        }
    }

    /// The value as a 64-bit signed integer, if it is one.
    pub open spec fn as_i64(self) -> Option<i64> {
        match self {
            JsonView::Number(Number::Integer(i)) => if i64::MIN <= i <= i64::MAX {
                Some(i as i64)
            } else {
                None
            },
            _ => None,
        }
    }

    /// The value as a 64-bit unsigned integer, if it is one.
    pub open spec fn as_u64(self) -> Option<u64> {
        match self {
            JsonView::Number(Number::Integer(i)) => if 0 <= i <= u64::MAX {
                Some(i as u64)
            } else {
                None
            },
            _ => None,
        }
    }

    /// The value as a truth value, if it is one.
    pub open spec fn as_bool(self) -> Option<bool> {
        match self {
            JsonView::Bool(b) => Some(b),
            _ => None,
        }
    }

    /// The value as a text, if it is one.
    pub open spec fn as_text(self) -> Option<Seq<char>> {
        match self {
            JsonView::Str(s) => Some(s),
            _ => None,
        }
    }

    /// The items of the value, if it is an array.
    pub open spec fn as_array(self) -> Option<Seq<JsonView>> {
        match self {
            JsonView::Array(items) => Some(items),
            _ => None,
        }
    }

    /// The value as a number of either kind, if it is one.
    pub open spec fn as_number(self) -> Option<Number> {
        match self {
            JsonView::Number(n) => Some(n),
            _ => None,
        }
    }

    /// The member `name` as a 64-bit signed integer; nothing where the
    /// member is absent or is something else.
    pub open spec fn i64_member(self, name: Seq<char>) -> Option<i64> {
        match self.member(name) {
            Some(value) => value.as_i64(),
            None => None,
        }
    }

    /// The member `name` as a number of either kind; nothing where the
    /// member is absent or is something else.
    pub open spec fn number_member(self, name: Seq<char>) -> Option<Number> {
        match self.member(name) {
            Some(value) => value.as_number(),
            None => None,
        }
    }

    /// The member `name` as a 64-bit unsigned integer; nothing where the
    /// member is absent or is something else.
    pub open spec fn u64_member(self, name: Seq<char>) -> Option<u64> {
        match self.member(name) {
            Some(value) => value.as_u64(),
            None => None,
        }
    }

    /// The member `name` as a truth value; nothing where the member is
    /// absent or is something else.
    pub open spec fn bool_member(self, name: Seq<char>) -> Option<bool> {
        match self.member(name) {
            Some(value) => value.as_bool(),
            None => None,
        }
    }

    /// The member `name` as a text; nothing where the member is absent or
    /// is something else.
    pub open spec fn text_member(self, name: Seq<char>) -> Option<Seq<char>> {
        match self.member(name) {
            Some(value) => value.as_text(),
            None => None,
        }
    }

    /// The member `name` where it may be left out: an absent member and
    /// `null` both stand for "not given". Nothing where the member is
    /// there and is no integer.
    pub open spec fn optional_i64(self, name: Seq<char>) -> Option<Option<i64>> {
        match self.member(name) {
            None | Some(JsonView::Null) => Some(None),
            Some(value) => match value.as_i64() {
                Some(i) => Some(Some(i)),
                None => None,
            },
        }
    }

    /// As [`Self::optional_i64`], for a truth value.
    pub open spec fn optional_bool(self, name: Seq<char>) -> Option<Option<bool>> {
        match self.member(name) {
            None | Some(JsonView::Null) => Some(None),
            Some(value) => match value.as_bool() {
                Some(b) => Some(Some(b)),
                None => None,
            },
        }
    }

    /// As [`Self::optional_i64`], for a text.
    pub open spec fn optional_text(self, name: Seq<char>) -> Option<Option<Seq<char>>> {
        match self.member(name) {
            None | Some(JsonView::Null) => Some(None),
            Some(value) => match value.as_text() {
                Some(text) => Some(Some(text)),
                None => None,
            },
        }
    }
}

/// The JSON value for an integer.
pub open spec fn json_of_i64(i: i64) -> JsonView {
    JsonView::Number(Number::Integer(i as i128))
}

/// The JSON value for an integer that may not be given: `null` if it is
/// not.
pub open spec fn json_of_opt_i64(i: Option<i64>) -> JsonView {
    match i {
        Some(i) => json_of_i64(i),
        None => JsonView::Null,
    }
}

/// The JSON value for a truth value that may not be given.
pub open spec fn json_of_opt_bool(b: Option<bool>) -> JsonView {
    match b {
        Some(b) => JsonView::Bool(b),
        None => JsonView::Null,
    }
}

/// The JSON value for a text that may not be given.
pub open spec fn json_of_opt_text(text: Option<Seq<char>>) -> JsonView {
    match text {
        Some(text) => JsonView::Str(text),
        None => JsonView::Null,
    }
}

/// The value of the first of the leading `upto` members that is called
/// `name`.
proof fn lemma_find_skips(members: Seq<(Seq<char>, JsonView)>, name: Seq<char>, upto: int)
    requires
        0 <= upto <= members.len(),
        forall|k: int| 0 <= k < upto ==> (#[trigger] members[k]).0 != name,
    ensures
        find(members, name) == find(members.subrange(upto, members.len() as int), name),
    decreases upto,
{
    if upto == 0 {
        assert(members.subrange(0, members.len() as int) == members);
    } else {
        let rest = members.drop_first();
        assert forall|k: int| 0 <= k < upto - 1 implies (#[trigger] rest[k]).0 != name by {
            assert(rest[k] == members[k + 1]);
        }
        lemma_find_skips(rest, name, upto - 1);
        assert(rest.subrange(upto - 1, rest.len() as int) == members.subrange(
            upto,
            members.len() as int,
        ));
        assert(members[0].0 != name);
    }
}

/// A member is found under its name when no earlier member has that name.
pub proof fn lemma_find_at(members: Seq<(Seq<char>, JsonView)>, at: int)
    requires
        0 <= at < members.len(),
        forall|k: int| 0 <= k < at ==> (#[trigger] members[k]).0 != members[at].0,
    ensures
        find(members, members[at].0) == Some(members[at].1),
{
    lemma_find_skips(members, members[at].0, at);
    let rest = members.subrange(at, members.len() as int);
    assert(rest[0] == members[at]);
}

/// The JSON value for an integer.
pub fn i64_json(i: i64) -> (j: Json)
    ensures
        j@ == json_of_i64(i),
{
    Json::Number(Number::Integer(i as i128))
}

/// The JSON value for an integer that may not be given.
pub fn opt_i64_json(i: Option<i64>) -> (j: Json)
    ensures
        j@ == json_of_opt_i64(i),
{
    match i {
        Some(i) => i64_json(i),
        None => Json::Null,
    }
}

/// The JSON value for a truth value that may not be given.
pub fn opt_bool_json(b: Option<bool>) -> (j: Json)
    ensures
        j@ == json_of_opt_bool(b),
{
    match b {
        Some(b) => Json::Bool(b),
        None => Json::Null,
    }
}

/// The JSON value for a text that may not be given.
pub fn opt_text_json(text: &Option<String>) -> (j: Json)
    ensures
        j@ == json_of_opt_text(opt_text_view(*text)),
{
    match text {
        Some(text) => Json::Str(text.clone()),
        None => Json::Null,
    }
}

impl Json {
    /// The member `name` of an object.
    pub fn member(&self, name: &str) -> (r: Option<&Json>)
        ensures
            match r {
                Some(value) => self@.member(name@) == Some(value@),
                None => self@.member(name@) is None,
            },
    {
        match self {
            Json::Object(members) => {
                let key = name.to_owned();
                let ghost all = self@->Object_0;
                let mut i: usize = 0;
                while i < members.len()
                    invariant
                        i <= members.len(),
                        key@ == name@,
                        self@.member(name@) == find(all, name@),
                        all.len() == members.len(),
                        forall|k: int|
                            0 <= k < members.len() ==> #[trigger] all[k] == (
                                members[k].0@,
                                members[k].1@,
                            ),
                        forall|k: int| 0 <= k < i ==> (#[trigger] all[k]).0 != name@,
                    decreases members.len() - i,
                {
                    if members[i].0 == key {
                        proof {
                            assert(all[i as int] == (members[i as int].0@, members[i as int].1@));
                            lemma_find_at(all, i as int);
                        }
                        return Some(&members[i].1);
                    }
                    i = i + 1;
                }
                proof {
                    lemma_find_skips(all, name@, all.len() as int);
                    assert(all.subrange(all.len() as int, all.len() as int).len() == 0);
                }
                None
            },
            _ => None,
        }
    }

    /// The value as a 64-bit signed integer, if it is one.
    pub fn as_i64(&self) -> (r: Option<i64>)
        ensures
            r == self@.as_i64(),
    {
        match self {
            Json::Number(Number::Integer(i)) => if -0x8000_0000_0000_0000 <= *i && *i
                <= 0x7fff_ffff_ffff_ffff {
                Some(*i as i64)
            } else {
                None
            },
            _ => None,
        }
    }

    /// The value as a 64-bit unsigned integer, if it is one.
    pub fn as_u64(&self) -> (r: Option<u64>)
        ensures
            r == self@.as_u64(),
    {
        match self {
            Json::Number(Number::Integer(i)) => if 0 <= *i && *i <= 0xffff_ffff_ffff_ffff {
                Some(*i as u64)
            } else {
                None
            },
            _ => None,
        }
    }

    /// The value as a truth value, if it is one.
    pub fn as_bool(&self) -> (r: Option<bool>)
        ensures
            r == self@.as_bool(),
    {
        match self {
            Json::Bool(b) => Some(*b),
            _ => None,
        }
    }

    /// The value as a text, if it is one.
    pub fn as_text(&self) -> (r: Option<&String>)
        ensures
            match r {
                Some(text) => self@.as_text() == Some(text@),
                None => self@.as_text() is None,
            },
    {
        match self {
            Json::Str(s) => Some(s),
            _ => None,
        }
    }

    /// The items of the value, if it is an array.
    pub fn as_array(&self) -> (r: Option<&Vec<Json>>)
        ensures
            match r {
                Some(items) => self@.as_array() == Some(items@.map_values(|j: Json| j@)),
                None => self@.as_array() is None,
            },
    {
        match self {
            Json::Array(items) => {
                assert(self@->Array_0 == items@.map_values(|j: Json| j@));
                Some(items)
            },
            _ => None,
        }
    }

    /// The value as a number of either kind, if it is one.
    pub fn as_number(&self) -> (r: Option<Number>)
        ensures
            r == self@.as_number(),
    {
        match self {
            Json::Number(n) => Some(*n),
            _ => None,
        }
    }

    /// The member `name` as a 64-bit signed integer.
    pub fn i64_member(&self, name: &str) -> (r: Option<i64>)
        ensures
            r == self@.i64_member(name@),
    {
        match self.member(name) {
            Some(value) => value.as_i64(),
            None => None,
        }
    }

    /// The member `name` as a 64-bit unsigned integer.
    pub fn u64_member(&self, name: &str) -> (r: Option<u64>)
        ensures
            r == self@.u64_member(name@),
    {
        match self.member(name) {
            Some(value) => value.as_u64(),
            None => None,
        }
    }

    /// The member `name` as a truth value.
    pub fn bool_member(&self, name: &str) -> (r: Option<bool>)
        ensures
            r == self@.bool_member(name@),
    {
        match self.member(name) {
            Some(value) => value.as_bool(),
            None => None,
        }
    }

    /// The member `name` as a text.
    pub fn text_member(&self, name: &str) -> (r: Option<String>)
        ensures
            opt_text_view(r) == self@.text_member(name@),
    {
        match self.member(name) {
            Some(value) => match value.as_text() {
                Some(text) => Some(text.clone()),
                None => None,
            },
            None => None,
        }
    }

    /// The member `name` where it may be left out, as an integer.
    pub fn optional_i64(&self, name: &str) -> (r: Option<Option<i64>>)
        ensures
            r == self@.optional_i64(name@),
    {
        match self.member(name) {
            None | Some(Json::Null) => Some(None),
            Some(value) => match value.as_i64() {
                Some(i) => Some(Some(i)),
                None => None,
            },
        }
    }

    /// The member `name` where it may be left out, as a truth value.
    pub fn optional_bool(&self, name: &str) -> (r: Option<Option<bool>>)
        ensures
            r == self@.optional_bool(name@),
    {
        match self.member(name) {
            None | Some(Json::Null) => Some(None),
            Some(value) => match value.as_bool() {
                Some(b) => Some(Some(b)),
                None => None,
            },
        }
    }

    /// The member `name` where it may be left out, as a text.
    pub fn optional_text(&self, name: &str) -> (r: Option<Option<String>>)
        ensures
            match r {
                Some(text) => self@.optional_text(name@) == Some(opt_text_view(text)),
                None => self@.optional_text(name@) is None,
            },
    {
        match self.member(name) {
            None | Some(Json::Null) => Some(None),
            Some(value) => match value.as_text() {
                Some(text) => Some(Some(text.clone())),
                None => None,
            },
        }
    }
}

} // verus!
