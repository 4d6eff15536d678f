//! A plain model of JSON values, and the text operations on it that the
//! protocol needs: parsing, quoting and decimal numbers.

use vstd::prelude::*;
use vstd::string::*;
use serde_json::Error as JsonError;

verus! {

#[verifier::external_type_specification]
#[verifier::external_body]
pub struct ExJsonValue(serde_json::Value);

#[verifier::external_type_specification]
#[verifier::external_body]
pub struct ExJsonError(JsonError);

/// A JSON value as the protocol reads it.
#[derive(Debug)]
pub enum Json {
    Null,
    Bool(bool),
    /// A number that fits in an `i64`.
    Int(i64),
    /// Any other number, in its decimal text.
    Number(String),
    Str(String),
    Array(Vec<Json>),
    /// Members in order, each key once.
    Object(Vec<(String, Json)>),
}

/// What `serde_json` reads from a text: `None` where the text is no JSON.
pub uninterp spec fn parsed_json(text: Seq<char>) -> Option<Json>;

/// The JSON string literal that `serde_json` writes for a text.
pub uninterp spec fn json_string_literal(s: Seq<char>) -> Seq<char>;

/// Relies on the variants of `serde_json::Value` and on `Number::as_i64`:
/// each variant goes to its counterpart, members and elements in order. Only
/// `parse_json` calls it, to convert what `serde_json` read.
#[verifier::external_body]
fn json_from_value(v: serde_json::Value) -> Json {
    match v {
        serde_json::Value::Null => Json::Null,
        serde_json::Value::Bool(b) => Json::Bool(b),
        serde_json::Value::Number(n) => match n.as_i64() {
            Some(i) => Json::Int(i),
            None => Json::Number(n.to_string()),
        },
        serde_json::Value::String(s) => Json::Str(s),
        serde_json::Value::Array(a) => Json::Array(a.into_iter().map(json_from_value).collect()),
        serde_json::Value::Object(m) => Json::Object(m.into_iter().map(|(k, x)| (k, json_from_value(x))).collect()),
    }
}

/// Relies on `serde_json::from_str::<Value>`: the value that a text holds,
/// or the error that says why it holds none.
#[verifier::external_body]
pub(crate) fn parse_json(text: &str) -> (r: Result<Json, serde_json::Error>)
    ensures
        r is Ok <==> parsed_json(text@) is Some,
        r is Ok ==> parsed_json(text@) == Some(r->Ok_0),
{
    serde_json::from_str::<serde_json::Value>(text).map(json_from_value)
}

/// The character of a decimal digit.
pub open spec fn digit_char(d: int) -> char {
    if d == 0 { '0' } else if d == 1 { '1' } else if d == 2 { '2' } else if d == 3 { '3' }
    else if d == 4 { '4' } else if d == 5 { '5' } else if d == 6 { '6' } else if d == 7 { '7' }
    else if d == 8 { '8' } else { '9' }
}

/// The decimal digits of a natural number, without leading zeros.
pub open spec fn decimal_digits(n: nat) -> Seq<char>
    decreases n,
{
    if n < 10 {
        seq![digit_char(n as int)]
    } else {
        decimal_digits(n / 10).push(digit_char((n % 10) as int))
    }
}

/// The decimal text of an integer, with a minus sign when it is negative.
pub open spec fn decimal_text(n: int) -> Seq<char> {
    if n < 0 {
        seq!['-'] + decimal_digits((-n) as nat)
    } else {
        decimal_digits(n as nat)
    }
}

/// Relies on `i64::to_string`: the decimal text of the number.
#[verifier::external_body]
pub(crate) fn i64_text(n: i64) -> (r: String)
    ensures
        r@ == decimal_text(n as int),
{
    n.to_string()
}

/// Relies on `u64::to_string`: the decimal text of the number.
#[verifier::external_body]
pub(crate) fn u64_text(n: u64) -> (r: String)
    ensures
        r@ == decimal_digits(n as nat),
{
    n.to_string()
}

/// Whether a character is an ASCII decimal digit.
pub open spec fn is_digit(c: char) -> bool {
    '0' <= c && c <= '9'
}

/// The value of a run of decimal digits.
pub open spec fn digits_value(s: Seq<char>) -> int
    decreases s.len(),
{
    if s.len() == 0 {
        0
    } else {
        digits_value(s.drop_last()) * 10 + ((s.last() as u32) as int - ('0' as u32) as int)
    }
}

/// The number that `i64::from_str` reads: an optional sign, then one or more
/// ASCII digits, nothing else, and a value in range.
pub open spec fn decimal_i64(s: Seq<char>) -> Option<int> {
    let neg = s.len() > 0 && s[0] == '-';
    let body = if s.len() > 0 && (s[0] == '-' || s[0] == '+') { s.drop_first() } else { s };
    let v = if neg { -digits_value(body) } else { digits_value(body) };
    if body.len() > 0 && (forall|i: int| 0 <= i < body.len() ==> is_digit(#[trigger] body[i]))
        && i64::MIN <= v <= i64::MAX {
        Some(v)
    } else {
        None
    }
}

/// Relies on `str::parse::<i64>`: the number a text spells, if any.
#[verifier::external_body]
pub(crate) fn parse_i64(s: &str) -> (r: Option<i64>)
    ensures
        r is Some <==> decimal_i64(s@) is Some,
        r is Some ==> decimal_i64(s@) == Some(r->Some_0 as int),
{
    s.parse::<i64>().ok()
}

/// Whether `s` begins with `prefix`.
pub fn starts_with(s: &str, prefix: &str) -> (r: bool)
    ensures
        r == (prefix@.len() <= s@.len() && s@.subrange(0, prefix@.len() as int) == prefix@),
{
    let n = prefix.unicode_len();
    let m = s.unicode_len();
    if n > m {
        return false;
    }
    let mut i: usize = 0;
    while i < n
        invariant
            n == prefix@.len(),
            m == s@.len(),
            n <= m,
            i <= n,
            forall|j: int| 0 <= j < i ==> s@[j] == prefix@[j],
        decreases n - i,
    {
        if s.get_char(i) != prefix.get_char(i) {
            assert(s@.subrange(0, n as int)[i as int] != prefix@[i as int]);
            return false;
        }
        i = i + 1;
    }
    assert(s@.subrange(0, n as int) =~= prefix@);
    true
}

/// Whether two texts are equal.
pub fn text_eq(a: &str, b: &str) -> (r: bool)
    ensures
        r == (a@ == b@),
{
    if a.unicode_len() != b.unicode_len() {
        return false;
    }
    let r = starts_with(a, b);
    proof {
        if a@ == b@ {
            assert(a@.subrange(0, b@.len() as int) =~= a@);
        }
        if r {
            assert(a@ =~= a@.subrange(0, b@.len() as int));
        }
    }
    r
}

/// The value of the first member named `key` among `ms`.
pub open spec fn first_member(ms: Seq<(String, Json)>, key: Seq<char>) -> Option<Json>
    decreases ms.len(),
{
    if ms.len() == 0 {
        None
    } else if ms[0].0@ == key {
        Some(ms[0].1)
    } else {
        first_member(ms.drop_first(), key)
    }
}

impl Json {
    /// The member `key` of an object, if this is an object that has one.
    pub open spec fn member(self, key: Seq<char>) -> Option<Json> {
        match self {
            Json::Object(ms) => first_member(ms@, key),
            _ => None,
        }
    }

    /// The member `key` of an object: the first member of that name.
    pub fn get(&self, key: &str) -> (r: Option<&Json>)
        ensures
            r matches Some(v) ==> self.member(key@) == Some(*v),
            r is None <==> self.member(key@) is None,
    {
        match self {
            Json::Object(ms) => {
                let mut i: usize = 0;
                assert(ms@.subrange(0, ms@.len() as int) =~= ms@);
                while i < ms.len()
                    invariant
                        i <= ms@.len(),
                        self.member(key@) == first_member(ms@, key@),
                        first_member(ms@, key@) == first_member(ms@.subrange(i as int, ms@.len() as int), key@),
                    decreases ms@.len() - i,
                {
                    let ghost rest = ms@.subrange(i as int, ms@.len() as int);
                    assert(rest.drop_first() =~= ms@.subrange(i + 1, ms@.len() as int));
                    assert(rest[0] == ms@[i as int]);
                    if text_eq(ms[i].0.as_str(), key) {
                        assert(first_member(rest, key@) == Some(rest[0].1));
                        return Some(&ms[i].1);
                    }
                    i = i + 1;
                }
                assert(ms@.subrange(i as int, ms@.len() as int).len() == 0);
                None
            },
            _ => None,
        }
    }

    /// Takes the member `key` out of an object: the first member of that name.
    pub fn into_member(self, key: &str) -> (r: Option<Json>)
        ensures
            r == self.member(key@),
    {
        let ghost target = self.member(key@);
        match self {
            Json::Object(ms) => {
                let mut ms = ms;
                let ghost all = ms@;
                assert(target == first_member(all, key@));
                let mut i: usize = 0;
                assert(all.subrange(0, all.len() as int) =~= all);
                while i < ms.len()
                    invariant
                        ms@ == all,
                        target == first_member(all, key@),
                        target == self.member(key@),
                        i <= all.len(),
                        first_member(all, key@) == first_member(all.subrange(i as int, all.len() as int), key@),
                    decreases all.len() - i,
                {
                    let ghost rest = all.subrange(i as int, all.len() as int);
                    assert(rest.drop_first() =~= all.subrange(i + 1, all.len() as int));
                    assert(rest[0] == all[i as int]);
                    if text_eq(ms[i].0.as_str(), key) {
                        assert(first_member(rest, key@) == Some(rest[0].1));
                        let (_, v) = ms.remove(i);
                        return Some(v);
                    }
                    i = i + 1;
                }
                assert(all.subrange(i as int, all.len() as int).len() == 0);
                None
            },
            _ => None,
        }
    }
}

} // verus!
