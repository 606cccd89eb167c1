//! The query string of a request: names and values in
//! `application/x-www-form-urlencoded` syntax.

use vstd::prelude::*;
use vstd::utf8::{encode_utf8, is_ascii_chars, is_ascii_chars_encode_utf8};
use crate::text::{digit_char, plus_as_percent20};

verus! {

/// The bytes that the form encoding writes as they are: ASCII letters and
/// digits, and `*`, `-`, `.`, `_`.
pub open spec fn is_unreserved(b: u8) -> bool {
    ||| b == 0x2A
    ||| b == 0x2D
    ||| b == 0x2E
    ||| b == 0x5F
    ||| 0x30 <= b <= 0x39
    ||| 0x41 <= b <= 0x5A
    ||| 0x61 <= b <= 0x7A
}

/// The upper-case hexadecimal digit for `n`, where `0 <= n < 16`.
pub open spec fn hex_upper(n: int) -> char {
    if n < 10 {
        digit_char(n)
    } else if n == 10 {
        'A'
    } else if n == 11 {
        'B'
    } else if n == 12 {
        'C'
    } else if n == 13 {
        'D'
    } else if n == 14 {
        'E'
    } else {
        'F'
    }
}

/// How the form encoding writes one byte: unreserved bytes as themselves, a
/// space as `+`, and any other byte as `%` and two upper-case hex digits.
pub open spec fn encode_byte(b: u8) -> Seq<char> {
    if is_unreserved(b) {
        seq![b as char]
    } else if b == 0x20 {
        seq!['+']
    } else {
        seq!['%', hex_upper(b as int / 16), hex_upper(b as int % 16)]
    }
}

/// The form encoding of a byte string: that of each byte, in order.
pub open spec fn encode_bytes(bytes: Seq<u8>) -> Seq<char>
    decreases bytes.len(),
{
    if bytes.len() == 0 {
        Seq::empty()
    } else {
        encode_byte(bytes[0]) + encode_bytes(bytes.drop_first())
    }
}

/// The form encoding of a text: that of its UTF-8 bytes.
pub open spec fn form_encode(text: Seq<char>) -> Seq<char> {
    encode_bytes(encode_utf8(text))
}

/// One `name=value` pair of a query string.
pub open spec fn encode_pair(pair: (Seq<char>, Seq<char>)) -> Seq<char> {
    form_encode(pair.0) + seq!['='] + form_encode(pair.1)
}

/// The query string for a list of pairs: the encoded pairs in order, with
/// `&` between them.
pub open spec fn query_text(pairs: Seq<(Seq<char>, Seq<char>)>) -> Seq<char>
    decreases pairs.len(),
{
    if pairs.len() == 0 {
        Seq::empty()
    } else if pairs.len() == 1 {
        encode_pair(pairs[0])
    } else {
        query_text(pairs.drop_last()) + seq!['&'] + encode_pair(pairs.last())
    }
}

/// Serialises name and value pairs as a query string.
///
/// Trusted: this is `url::form_urlencoded::Serializer` on an empty `String`,
/// with `extend_pairs` and `finish`. The serializer appends the pairs in
/// order and puts `&` before every pair but the first; each pair is the
/// name, `=`, and the value, both run through the crate's byte serializer on
/// their UTF-8 bytes, which keeps ASCII letters, digits and `*-._`, writes a
/// space as `+` and any other byte as `%` with two upper-case hex digits.
#[verifier::external_body]
pub(crate) fn form_urlencode(pairs: &Vec<(String, String)>) -> (r: String)
    ensures
        r@ == query_text(pairs.deep_view()),
{
    url::form_urlencoded::Serializer::new(String::new()).extend_pairs(pairs).finish()
}

/// The characters that can occur in an encoded name or value once `+` has
/// been rewritten: ASCII letters and digits, `*`, `-`, `.`, `_` and `%`.
pub open spec fn is_query_safe(c: char) -> bool {
    ||| c == '*'
    ||| c == '-'
    ||| c == '.'
    ||| c == '_'
    ||| c == '%'
    ||| '0' <= c <= '9'
    ||| 'A' <= c <= 'Z'
    ||| 'a' <= c <= 'z'
}

/// The text in which a name or a value reaches the service: its form
/// encoding, with each `+` rewritten as `%20`.
pub open spec fn sent_text(text: Seq<char>) -> Seq<char> {
    plus_as_percent20(form_encode(text))
}

proof fn lemma_utf8_concat(a: Seq<char>, b: Seq<char>)
    ensures
        encode_utf8(a + b) == encode_utf8(a) + encode_utf8(b),
    decreases a.len(),
{
    if a.len() == 0 {
        assert(a + b == b);
    } else {
        assert((a + b).drop_first() == a.drop_first() + b);
        lemma_utf8_concat(a.drop_first(), b);
    }
}

proof fn lemma_encode_bytes_concat(a: Seq<u8>, b: Seq<u8>)
    ensures
        encode_bytes(a + b) == encode_bytes(a) + encode_bytes(b),
    decreases a.len(),
{
    if a.len() == 0 {
        assert(a + b == b);
    } else {
        assert((a + b).drop_first() == a.drop_first() + b);
        lemma_encode_bytes_concat(a.drop_first(), b);
    }
}

pub proof fn lemma_plus_concat(a: Seq<char>, b: Seq<char>)
    ensures
        plus_as_percent20(a + b) == plus_as_percent20(a) + plus_as_percent20(b),
    decreases b.len(),
{
    if b.len() == 0 {
        assert(a + b == a);
    } else {
        assert((a + b).drop_last() == a + b.drop_last());
        lemma_plus_concat(a, b.drop_last());
    }
}

/// Encoding is done piece by piece: the text sent for `a` followed by `b`
/// is the text sent for `a` followed by the text sent for `b`.
pub proof fn lemma_sent_text_concat(a: Seq<char>, b: Seq<char>)
    ensures
        form_encode(a + b) == form_encode(a) + form_encode(b),
        sent_text(a + b) == sent_text(a) + sent_text(b),
{
    lemma_utf8_concat(a, b);
    lemma_encode_bytes_concat(encode_utf8(a), encode_utf8(b));
    lemma_plus_concat(form_encode(a), form_encode(b));
}

/// The text sent for a single ASCII character is that of its byte.
pub proof fn lemma_sent_text_ascii(c: char)
    requires
        c <= '\u{7f}',
    ensures
        form_encode(seq![c]) == encode_byte(c as u8),
{
    let one = seq![c];
    assert(is_ascii_chars(one));
    is_ascii_chars_encode_utf8(one);
    let bytes = encode_utf8(one);
    assert(bytes == seq![c as u8]);
    assert(bytes.drop_first() == Seq::<u8>::empty());
    assert(encode_bytes(bytes) == encode_byte(bytes[0]) + encode_bytes(bytes.drop_first()));
    assert(encode_bytes(bytes.drop_first()) == Seq::<char>::empty());
}

proof fn lemma_plus_of_short(s: Seq<char>)
    requires
        s.len() <= 3,
    ensures
        s.len() == 1 && s[0] == '+' ==> plus_as_percent20(s) == seq!['%', '2', '0'],
        (forall|i: int| 0 <= i < s.len() ==> s[i] != '+') ==> plus_as_percent20(s) == s,
    decreases s.len(),
{
    if s.len() > 0 {
        lemma_plus_of_short(s.drop_last());
        assert(plus_as_percent20(Seq::<char>::empty()) == Seq::<char>::empty());
        if forall|i: int| 0 <= i < s.len() ==> s[i] != '+' {
            assert forall|i: int| 0 <= i < s.drop_last().len() implies s.drop_last()[i] != '+' by {
                assert(s.drop_last()[i] == s[i]);
            }
            assert(s.drop_last().push(s.last()) == s);
        }
        if s.len() == 1 && s[0] == '+' {
            assert(s.drop_last() == Seq::<char>::empty());
            assert(Seq::<char>::empty() + seq!['%', '2', '0'] == seq!['%', '2', '0']);
        }
    }
}

/// A space in a name or a value reaches the service as `%20`, never as
/// `+`: whatever stands before and after it, the text sent is the text
/// sent for what stands before, `%20`, and the text sent for what follows.
pub proof fn law_space_is_sent_as_percent20(before: Seq<char>, after: Seq<char>)
    ensures
        sent_text(before + seq![' '] + after) == sent_text(before) + seq!['%', '2', '0']
            + sent_text(after),
{
    lemma_sent_text_concat(before + seq![' '], after);
    lemma_sent_text_concat(before, seq![' ']);
    lemma_sent_text_ascii(' ');
    lemma_plus_of_short(encode_byte(0x20));
}

/// The characters that have a meaning of their own in a URL are escaped in
/// the standard way: `&` as `%26`, `#` as `%23`, `=` as `%3D`, and a
/// literal `+` as `%2B`.
pub proof fn law_reserved_characters_are_escaped(before: Seq<char>, after: Seq<char>)
    ensures
        sent_text(before + seq!['&'] + after) == sent_text(before) + seq!['%', '2', '6']
            + sent_text(after),
        sent_text(before + seq!['#'] + after) == sent_text(before) + seq!['%', '2', '3']
            + sent_text(after),
        sent_text(before + seq!['='] + after) == sent_text(before) + seq!['%', '3', 'D']
            + sent_text(after),
        sent_text(before + seq!['+'] + after) == sent_text(before) + seq!['%', '2', 'B']
            + sent_text(after),
{
    lemma_sent_text_concat(before + seq!['&'], after);
    lemma_sent_text_concat(before, seq!['&']);
    lemma_sent_text_ascii('&');
    lemma_plus_of_short(encode_byte(0x26));
    lemma_sent_text_concat(before + seq!['#'], after);
    lemma_sent_text_concat(before, seq!['#']);
    lemma_sent_text_ascii('#');
    lemma_plus_of_short(encode_byte(0x23));
    lemma_sent_text_concat(before + seq!['='], after);
    lemma_sent_text_concat(before, seq!['=']);
    lemma_sent_text_ascii('=');
    lemma_plus_of_short(encode_byte(0x3D));
    lemma_sent_text_concat(before + seq!['+'], after);
    lemma_sent_text_concat(before, seq!['+']);
    lemma_sent_text_ascii('+');
    lemma_plus_of_short(encode_byte(0x2B));
}

/// One pair of a query as it reaches the service.
pub open spec fn sent_pair(pair: (Seq<char>, Seq<char>)) -> Seq<char> {
    sent_text(pair.0) + seq!['='] + sent_text(pair.1)
}

/// A query as it reaches the service: the pairs in order, each name and
/// each value as [`sent_text`] gives it, with `=` within a pair and `&`
/// between pairs.
pub open spec fn sent_query(pairs: Seq<(Seq<char>, Seq<char>)>) -> Seq<char>
    decreases pairs.len(),
{
    if pairs.len() == 0 {
        Seq::empty()
    } else if pairs.len() == 1 {
        sent_pair(pairs[0])
    } else {
        sent_query(pairs.drop_last()) + seq!['&'] + sent_pair(pairs.last())
    }
}

/// Rewriting `+` in a whole query string comes to the same as rewriting it
/// in every name and every value: the separators are untouched.
pub proof fn lemma_query_is_sent_pair_by_pair(pairs: Seq<(Seq<char>, Seq<char>)>)
    ensures
        plus_as_percent20(query_text(pairs)) == sent_query(pairs),
    decreases pairs.len(),
{
    lemma_plus_of_short(seq!['=']);
    lemma_plus_of_short(seq!['&']);
    if pairs.len() == 0 {
    } else {
        let last = pairs.last();
        lemma_plus_concat(form_encode(last.0) + seq!['='], form_encode(last.1));
        lemma_plus_concat(form_encode(last.0), seq!['=']);
        if pairs.len() > 1 {
            lemma_query_is_sent_pair_by_pair(pairs.drop_last());
            lemma_plus_concat(query_text(pairs.drop_last()) + seq!['&'], encode_pair(last));
            lemma_plus_concat(query_text(pairs.drop_last()), seq!['&']);
        }
    }
}

/// A text without `+` is left as it is.
pub proof fn lemma_plus_free_is_kept(text: Seq<char>)
    requires
        forall|i: int| 0 <= i < text.len() ==> text[i] != '+',
    ensures
        plus_as_percent20(text) == text,
    decreases text.len(),
{
    if text.len() > 0 {
        assert forall|i: int| 0 <= i < text.drop_last().len() implies text.drop_last()[i]
            != '+' by {
            assert(text.drop_last()[i] == text[i]);
        }
        lemma_plus_free_is_kept(text.drop_last());
        assert(text.drop_last().push(text.last()) == text);
    }
}

proof fn lemma_encode_bytes_alphabet(bytes: Seq<u8>)
    ensures
        forall|i: int|
            0 <= i < encode_bytes(bytes).len() ==> {
                let c = #[trigger] encode_bytes(bytes)[i];
                c == '+' || is_query_safe(c)
            },
    decreases bytes.len(),
{
    if bytes.len() > 0 {
        lemma_encode_bytes_alphabet(bytes.drop_first());
        let head = encode_byte(bytes[0]);
        let tail = encode_bytes(bytes.drop_first());
        assert forall|i: int| 0 <= i < head.len() implies {
            let c = #[trigger] head[i];
            c == '+' || is_query_safe(c)
        } by {}
        assert forall|i: int| 0 <= i < (head + tail).len() implies {
            let c = #[trigger] (head + tail)[i];
            c == '+' || is_query_safe(c)
        } by {
            if i < head.len() {
                assert((head + tail)[i] == head[i]);
            } else {
                assert((head + tail)[i] == tail[i - head.len()]);
            }
        }
    }
}

proof fn lemma_plus_alphabet(s: Seq<char>)
    requires
        forall|i: int| 0 <= i < s.len() ==> (#[trigger] s[i]) == '+' || is_query_safe(s[i]),
    ensures
        forall|i: int|
            0 <= i < plus_as_percent20(s).len() ==> is_query_safe(
                #[trigger] plus_as_percent20(s)[i],
            ),
    decreases s.len(),
{
    if s.len() > 0 {
        assert forall|i: int| 0 <= i < s.drop_last().len() implies (#[trigger] s.drop_last()[i])
            == '+' || is_query_safe(s.drop_last()[i]) by {
            assert(s.drop_last()[i] == s[i]);
        }
        lemma_plus_alphabet(s.drop_last());
        let init = plus_as_percent20(s.drop_last());
        let all = plus_as_percent20(s);
        assert(s.last() == s[s.len() - 1]);
        assert forall|i: int| 0 <= i < all.len() implies is_query_safe(#[trigger] all[i]) by {
            if i < init.len() {
                assert(all[i] == init[i]);
            } else if s.last() == '+' {
                assert(all[i] == seq!['%', '2', '0'][i - init.len()]);
            } else {
                assert(all[i] == s.last());
            }
        }
    }
}

/// Nothing that could be mistaken for a part of the URL's structure is left
/// in the text sent for a name or a value: it consists of ASCII letters,
/// digits, `*`, `-`, `.`, `_` and `%` only, so it holds no space and none
/// of `+`, `&`, `#`, `=`.
pub proof fn law_sent_text_is_query_safe(text: Seq<char>)
    ensures
        forall|i: int|
            0 <= i < sent_text(text).len() ==> is_query_safe(#[trigger] sent_text(text)[i]),
{
    lemma_encode_bytes_alphabet(encode_utf8(text));
    lemma_plus_alphabet(form_encode(text));
}

} // verus!
