//! A JSON document as plain values, read and written through serde_json.
use vstd::prelude::*;
use vstd::string::*;

verus! {

#[verifier::external_type_specification]
#[verifier::external_body]
pub struct ExJsonValue(serde_json::Value);

#[verifier::external_type_specification]
#[verifier::external_body]
pub struct ExJsonNumber(serde_json::Number);

/// A JSON value. Numbers that fit an `i64` are held as integers; any other
/// number is carried as serde_json's number, unread. Object members keep the order in which
/// serde_json hands them out.
#[derive(Debug)]
pub enum Json {
    Null,
    Bool(bool),
    Int(i64),
    Number(serde_json::Number),
    Str(String),
    Array(Vec<Json>),
    Object(Vec<(String, Json)>),
}

/// What serde_json reads from the bytes `b`, when they are one JSON document.
pub uninterp spec fn json_parse(b: Seq<u8>) -> Option<Json>;

/// The compact text serde_json writes for `j`.
pub uninterp spec fn json_text(j: Json) -> Seq<char>;

/// The value of the first member named `key`.
pub open spec fn field_of(fields: Seq<(String, Json)>, key: Seq<char>) -> Option<Json>
    decreases fields.len(),
{
    if fields.len() == 0 {
        None
    } else if fields[0].0@ == key {
        Some(fields[0].1)
    } else {
        field_of(fields.drop_first(), key)
    }
}

/// The index of the first member named `key`.
pub open spec fn index_of(fields: Seq<(String, Json)>, key: Seq<char>) -> Option<int>
    decreases fields.len(),
{
    if fields.len() == 0 {
        None
    } else if fields[0].0@ == key {
        Some(0)
    } else {
        match index_of(fields.drop_first(), key) {
            Some(i) => Some(i + 1),
            None => None,
        }
    }
}

proof fn lemma_index_of(fields: Seq<(String, Json)>, key: Seq<char>)
    ensures
        match index_of(fields, key) {
            Some(i) => 0 <= i < fields.len() && fields[i].0@ == key && field_of(fields, key) == Some(fields[i].1),
            None => field_of(fields, key) is None,
        },
    decreases fields.len(),
{
    if fields.len() > 0 {
        lemma_index_of(fields.drop_first(), key);
    }
}

/// Converts serde_json's tree, one variant to one variant.
#[verifier::external_body]
fn from_serde(v: serde_json::Value) -> Json {
    match v {
        serde_json::Value::Null => Json::Null,
        serde_json::Value::Bool(b) => Json::Bool(b),
        serde_json::Value::Number(n) => match n.as_i64() {
            Some(i) => Json::Int(i),
            None => Json::Number(n),
        },
        serde_json::Value::String(s) => Json::Str(s),
        serde_json::Value::Array(a) => Json::Array(a.into_iter().map(from_serde).collect()),
        serde_json::Value::Object(o) => Json::Object(o.into_iter().map(|(k, x)| (k, from_serde(x))).collect()),
    }
}

/// Converts to serde_json's tree, one variant to one variant.
#[verifier::external_body]
pub(crate) fn to_serde(j: &Json) -> serde_json::Value {
    match j {
        Json::Null => serde_json::Value::Null,
        Json::Bool(b) => serde_json::Value::Bool(*b),
        Json::Int(i) => serde_json::Value::from(*i),
        Json::Number(n) => serde_json::Value::Number(n.clone()),
        Json::Str(s) => serde_json::Value::String(s.clone()),
        Json::Array(a) => serde_json::Value::Array(a.iter().map(to_serde).collect()),
        Json::Object(o) => serde_json::Value::Object(o.iter().map(|(k, x)| (k.clone(), to_serde(x))).collect()),
    }
}

/// Relies on serde_json::from_slice: reads one JSON document from the bytes;
/// the result depends on the bytes alone.
#[verifier::external_body]
pub fn parse_json(b: &[u8]) -> (r: Option<Json>)
    ensures
        r == json_parse(b@),
{
    serde_json::from_slice::<serde_json::Value>(b).ok().map(from_serde)
}

/// Relies on serde_json::to_string: the compact text of the value; the result
/// depends on the value alone.
#[verifier::external_body]
pub fn to_json_text(j: &Json) -> (r: String)
    ensures
        r@ == json_text(*j),
{
    serde_json::to_string(&to_serde(j)).unwrap_or_default()
}

/// The decimal digit for `d`, where `0 <= d < 10`.
pub open spec fn digit_char(d: nat) -> char {
    if d == 0 { '0' } else if d == 1 { '1' } else if d == 2 { '2' } else if d == 3 { '3' } else if d == 4 {
        '4'
    } else if d == 5 { '5' } else if d == 6 { '6' } else if d == 7 { '7' } else if d == 8 { '8' } else { '9' }
}

/// The decimal digits of `n`, without leading zeros.
pub open spec fn digits(n: nat) -> Seq<char>
    decreases n,
{
    if n < 10 {
        seq![digit_char(n)]
    } else {
        digits(n / 10).push(digit_char(n % 10))
    }
}

/// The decimal text of `n`, with a leading `-` when negative.
pub open spec fn decimal(n: int) -> Seq<char> {
    if n < 0 {
        seq!['-'] + digits((-n) as nat)
    } else {
        digits(n as nat)
    }
}

/// The one-character text of the digit `d`.
fn digit_str(d: u64) -> (r: &'static str)
    requires
        d < 10,
    ensures
        r@ == seq![digit_char(d as nat)],
{
    proof {
        reveal_strlit("0");
        reveal_strlit("1");
        reveal_strlit("2");
        reveal_strlit("3");
        reveal_strlit("4");
        reveal_strlit("5");
        reveal_strlit("6");
        reveal_strlit("7");
        reveal_strlit("8");
        reveal_strlit("9");
    }
    let r = if d == 0 { "0" } else if d == 1 { "1" } else if d == 2 { "2" } else if d == 3 { "3" } else if d == 4 {
        "4"
    } else if d == 5 { "5" } else if d == 6 { "6" } else if d == 7 { "7" } else if d == 8 { "8" } else { "9" };
    assert(r@ =~= seq![digit_char(d as nat)]);
    r
}

/// The decimal digits of `n`.
fn digits_text(n: u64) -> (r: String)
    ensures
        r@ == digits(n as nat),
    decreases n,
{
    if n < 10 {
        String::from_str(digit_str(n))
    } else {
        let r = digits_text(n / 10).concat(digit_str(n % 10));
        assert(r@ =~= digits((n / 10) as nat).push(digit_char((n % 10) as nat)));
        r
    }
}

/// The decimal text of `n`, with a leading `-` when negative.
pub fn int_text(n: i64) -> (r: String)
    ensures
        r@ == decimal(n as int),
{
    if n < 0 {
        let m: u64 = (-(n as i128)) as u64;
        let d = digits_text(m);
        proof {
            reveal_strlit("-");
        }
        let r = String::from_str("-").concat(d.as_str());
        assert(r@ =~= seq!['-'] + digits((-n) as nat));
        r
    } else {
        digits_text(n as u64)
    }
}

/// Whether two strings hold the same characters.
pub fn str_eq(a: &str, b: &str) -> (r: bool)
    ensures
        r == (a@ == b@),
{
    let n = a.unicode_len();
    if n != b.unicode_len() {
        return false;
    }
    let mut i: usize = 0;
    while i < n
        invariant
            n == a@.len(),
            n == b@.len(),
            i <= n,
            a@.subrange(0, i as int) == b@.subrange(0, i as int),
        decreases n - i,
    {
        if a.get_char(i) != b.get_char(i) {
            return false;
        }
        assert(a@.subrange(0, i + 1) =~= a@.subrange(0, i as int).push(a@[i as int]));
        assert(b@.subrange(0, i + 1) =~= b@.subrange(0, i as int).push(b@[i as int]));
        i = i + 1;
    }
    assert(a@ =~= a@.subrange(0, n as int));
    assert(b@ =~= b@.subrange(0, n as int));
    true
}

/// The index of the first member named `key`.
pub fn find_field(fields: &Vec<(String, Json)>, key: &str) -> (r: Option<usize>)
    ensures
        r matches Some(i) ==> index_of(fields@, key@) == Some(i as int),
        r is None ==> index_of(fields@, key@) is None,
        r matches Some(i) ==> i < fields@.len() && field_of(fields@, key@) == Some(fields@[i as int].1),
        r is None ==> field_of(fields@, key@) is None,
{
    proof {
        lemma_index_of(fields@, key@);
        assert(fields@.subrange(0, fields@.len() as int) =~= fields@);
    }
    let mut i: usize = 0;
    while i < fields.len()
        invariant
            i <= fields@.len(),
            index_of(fields@, key@) == (match index_of(fields@.subrange(i as int, fields@.len() as int), key@) {
                Some(j) => Some(j + i),
                None => None,
            }),
        decreases fields.len() - i,
    {
        assert(fields@.subrange(i as int, fields@.len() as int).drop_first() =~= fields@.subrange(
            i + 1,
            fields@.len() as int,
        ));
        if str_eq(fields[i].0.as_str(), key) {
            proof {
                lemma_index_of(fields@, key@);
            }
            return Some(i);
        }
        i = i + 1;
    }
    proof {
        lemma_index_of(fields@, key@);
    }
    None
}

} // verus!
