//! Small verified helpers on text: decimal rendering of integers, prefix
//! tests, and the rewriting of `+` that the service asks for.

use vstd::prelude::*;

verus! {

/// Appends one character to `s`.
///
/// Trusted: this is `String::push` of the standard library, which appends the
/// given `char` to the end of the string and changes nothing else.
#[verifier::external_body]
pub(crate) fn push_char(s: &mut String, c: char)
    ensures
        final(s)@ == old(s)@.push(c),
{
    s.push(c)
}

/// What an optional string holds.
pub open spec fn opt_text_view(text: Option<String>) -> Option<Seq<char>> {
    match text {
        Some(s) => Some(s@),
        None => None,
    }
}

/// The character that stands for the decimal digit `d`.
pub open spec fn digit_char(d: int) -> char {
    if d == 0 {
        '0'
    } else if d == 1 {
        '1'
    } else if d == 2 {
        '2'
    } else if d == 3 {
        '3'
    } else if d == 4 {
        '4'
    } else if d == 5 {
        '5'
    } else if d == 6 {
        '6'
    } else if d == 7 {
        '7'
    } else if d == 8 {
        '8'
    } else {
        '9'
    }
}

/// The decimal digits of a natural number, most significant first, without
/// leading zeros (`0` is written `"0"`).
pub open spec fn decimal_nat(n: nat) -> Seq<char>
    decreases n,
{
    if n < 10 {
        seq![digit_char(n as int)]
    } else {
        decimal_nat(n / 10).push(digit_char((n % 10) as int))
    }
}

/// The decimal rendering of an integer: a `-` for negative numbers, then
/// the digits of its magnitude.
pub open spec fn decimal(i: int) -> Seq<char> {
    if i < 0 {
        seq!['-'] + decimal_nat((-i) as nat)
    } else {
        decimal_nat(i as nat)
    }
}

/// The decimal rendering of an integer holds no `+`.
pub proof fn lemma_decimal_has_no_plus(i: int)
    ensures
        forall|k: int| 0 <= k < decimal(i).len() ==> decimal(i)[k] != '+',
{
    if i < 0 {
        lemma_decimal_nat_has_no_plus((-i) as nat);
    } else {
        lemma_decimal_nat_has_no_plus(i as nat);
    }
}

proof fn lemma_decimal_nat_has_no_plus(n: nat)
    ensures
        forall|k: int| 0 <= k < decimal_nat(n).len() ==> decimal_nat(n)[k] != '+',
    decreases n,
{
    if n >= 10 {
        lemma_decimal_nat_has_no_plus(n / 10);
        let init = decimal_nat(n / 10);
        assert forall|k: int| 0 <= k < decimal_nat(n).len() implies decimal_nat(n)[k] != '+' by {
            if k < init.len() {
                assert(decimal_nat(n)[k] == init[k]);
            }
        }
    }
}

fn digit(d: u64) -> (c: char)
    requires
        d < 10,
    ensures
        c == digit_char(d as int),
{
    if d == 0 {
        '0'
    } else if d == 1 {
        '1'
    } else if d == 2 {
        '2'
    } else if d == 3 {
        '3'
    } else if d == 4 {
        '4'
    } else if d == 5 {
        '5'
    } else if d == 6 {
        '6'
    } else if d == 7 {
        '7'
    } else if d == 8 {
        '8'
    } else {
        '9'
    }
}

/// Appends the decimal digits of `n` to `out`.
fn push_decimal_nat(out: &mut String, n: u64)
    ensures
        final(out)@ == old(out)@ + decimal_nat(n as nat),
    decreases n,
{
    if n < 10 {
        push_char(out, digit(n));
    } else {
        push_decimal_nat(out, n / 10);
        push_char(out, digit(n % 10));
    }
}

/// Renders `n` in decimal, as the service expects identifiers in a URL.
pub fn decimal_text(n: i64) -> (r: String)
    ensures
        r@ == decimal(n as int),
{
    let mut out = String::new();
    if n < 0 {
        push_char(&mut out, '-');
        // The magnitude of `i64::MIN` does not fit in an `i64`.
        let magnitude: u64 = if n == i64::MIN {
            0x8000_0000_0000_0000u64
        } else {
            (-n) as u64
        };
        push_decimal_nat(&mut out, magnitude);
    } else {
        push_decimal_nat(&mut out, n as u64);
    }
    out
}

/// Whether `text` begins with `prefix`.
pub open spec fn has_prefix(text: Seq<char>, prefix: Seq<char>) -> bool {
    prefix.len() <= text.len() && text.subrange(0, prefix.len() as int) == prefix
}

/// Tests whether `text` begins with `prefix`.
///
/// Meant for short prefixes: each character of the prefix is looked up from
/// the start of both strings.
pub fn starts_with(text: &str, prefix: &str) -> (b: bool)
    ensures
        b == has_prefix(text@, prefix@),
{
    let n: usize = prefix.unicode_len();
    if text.unicode_len() < n {
        return false;
    }
    let mut i: usize = 0;
    while i < n
        invariant
            i <= n,
            n == prefix@.len(),
            n <= text@.len(),
            text@.subrange(0, i as int) == prefix@.subrange(0, i as int),
        decreases n - i,
    {
        if text.get_char(i) != prefix.get_char(i) {
            proof {
                assert(text@.subrange(0, n as int)[i as int] != prefix@[i as int]);
            }
            return false;
        }
        proof {
            assert(text@.subrange(0, i + 1) == text@.subrange(0, i as int).push(text@[i as int]));
            assert(prefix@.subrange(0, i + 1) == prefix@.subrange(0, i as int).push(
                prefix@[i as int],
            ));
        }
        i = i + 1;
    }
    proof {
        assert(prefix@.subrange(0, n as int) == prefix@);
    }
    true
}

/// `text` with each `+` replaced by `%20`, and every other character kept.
pub open spec fn plus_as_percent20(text: Seq<char>) -> Seq<char>
    decreases text.len(),
{
    if text.len() == 0 {
        text
    } else if text.last() == '+' {
        plus_as_percent20(text.drop_last()) + seq!['%', '2', '0']
    } else {
        plus_as_percent20(text.drop_last()).push(text.last())
    }
}

/// Rewrites every `+` of `text` as `%20`.
///
/// The service rejects a space that is written as `+`; this runs on a text
/// that is already encoded, so a literal plus sign can no longer occur in it
/// (it was written `%2B`) and every `+` stands for a space.
pub fn replace_plus(text: &str) -> (r: String)
    ensures
        r@ == plus_as_percent20(text@),
{
    let mut out = String::new();
    for c in it: text.chars()
        invariant
            it.seq() == text@,
            out@ == plus_as_percent20(text@.take(it.index() as int)),
    {
        proof {
            let k = it.index() as int;
            assert(text@.take(k + 1).drop_last() == text@.take(k));
            assert(text@.take(k + 1).last() == c);
        }
        if c == '+' {
            push_char(&mut out, '%');
            push_char(&mut out, '2');
            push_char(&mut out, '0');
        } else {
            push_char(&mut out, c);
        }
    }
    proof {
        assert(text@.take(text@.len() as int) == text@);
    }
    out
}

} // verus!
