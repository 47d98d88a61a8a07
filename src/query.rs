//! Query strings: the form encoding of name/value pairs, the helpers that
//! turn request fields into such pairs, and endpoint URLs built from them.
use crate::error::AuthError;
use vstd::prelude::*;
use vstd::utf8::encode_utf8;

verus! {

/// Name/value pairs, in the order in which they stand in a query string.
pub type QueryPairs = Seq<(Seq<char>, Seq<char>)>;

/// Bytes that the form serializer writes as they are.
pub open spec fn form_unchanged(b: u8) -> bool {
    b == 0x2a || b == 0x2d || b == 0x2e || (0x30 <= b && b <= 0x39) || (0x41 <= b && b <= 0x5a)
        || b == 0x5f || (0x61 <= b && b <= 0x7a)
}

/// Upper-case hexadecimal digit of `d`, for `0 <= d < 16`.
pub open spec fn hex_digit(d: int) -> char {
    seq!['0', '1', '2', '3', '4', '5', '6', '7', '8', '9', 'A', 'B', 'C', 'D', 'E', 'F'][d]
}

/// One byte in the `application/x-www-form-urlencoded` byte serialization:
/// kept, a space as `+`, anything else as `%XY`.
pub open spec fn form_byte(b: u8) -> Seq<char> {
    if form_unchanged(b) {
        seq![b as char]
    } else if b == 0x20 {
        seq!['+']
    } else {
        seq!['%', hex_digit(b as int / 16), hex_digit(b as int % 16)]
    }
}

pub open spec fn form_bytes(bs: Seq<u8>) -> Seq<char>
    decreases bs.len(),
{
    if bs.len() == 0 {
        seq![]
    } else {
        form_byte(bs[0]) + form_bytes(bs.drop_first())
    }
}

/// A name or a value in a query string: its UTF-8 bytes, form-serialized.
pub open spec fn form_component(s: Seq<char>) -> Seq<char> {
    form_bytes(encode_utf8(s))
}

pub open spec fn form_pair(p: (Seq<char>, Seq<char>)) -> Seq<char> {
    form_component(p.0) + seq!['='] + form_component(p.1)
}

/// The form-encoded query string of `pairs`: `name=value` for each pair, joined by `&`.
pub open spec fn form_query(pairs: QueryPairs) -> Seq<char>
    decreases pairs.len(),
{
    if pairs.len() == 0 {
        seq![]
    } else if pairs.len() == 1 {
        form_pair(pairs[0])
    } else {
        form_query(pairs.drop_last()) + seq!['&'] + form_pair(pairs.last())
    }
}

pub open spec fn pairs_view(v: Seq<(String, String)>) -> QueryPairs {
    v.map_values(|p: (String, String)| (p.0@, p.1@))
}

pub open spec fn strings_view(v: Seq<String>) -> Seq<Seq<char>> {
    v.map_values(|s: String| s@)
}

/// One pair named `key` when `value` is present, none when it is absent.
pub open spec fn opt_pair(key: Seq<char>, value: Option<String>) -> QueryPairs {
    match value {
        Some(v) => seq![(key, v@)],
        None => seq![],
    }
}

/// One pair `key=<decimal of value>` when `value` is present, none when it is absent.
pub open spec fn opt_decimal(key: Seq<char>, value: Option<i64>) -> QueryPairs {
    match value {
        Some(n) => seq![(key, int_decimal(n as int))],
        None => seq![],
    }
}

/// The text of an optional field, when present.
pub open spec fn opt_text(value: Option<String>) -> Option<Seq<char>> {
    match value {
        Some(v) => Some(v@),
        None => None,
    }
}

/// The decimal text of an optional number, when present.
pub open spec fn decimal_text(value: Option<i64>) -> Option<Seq<char>> {
    match value {
        Some(n) => Some(int_decimal(n as int)),
        None => None,
    }
}

/// The value of the first pair named `key`.
pub open spec fn query_value(pairs: QueryPairs, key: Seq<char>) -> Option<Seq<char>>
    decreases pairs.len(),
{
    if pairs.len() == 0 {
        None
    } else if pairs[0].0 == key {
        Some(pairs[0].1)
    } else {
        query_value(pairs.drop_first(), key)
    }
}

/// The first pair named `key` decides its value.
pub proof fn lemma_query_value_at(pairs: QueryPairs, key: Seq<char>, i: int)
    requires
        0 <= i < pairs.len(),
        pairs[i].0 == key,
        forall|j: int| 0 <= j < i ==> pairs[j].0 != key,
    ensures
        query_value(pairs, key) == Some(pairs[i].1),
    decreases i,
{
    if i > 0 {
        assert forall|j: int| 0 <= j < i - 1 implies pairs.drop_first()[j].0 != key by {
            assert(pairs.drop_first()[j] == pairs[j + 1]);
        }
        lemma_query_value_at(pairs.drop_first(), key, i - 1);
    }
}

/// In `a + b`, a pair of `a` comes before every pair of `b`.
pub proof fn lemma_query_value_concat(a: QueryPairs, b: QueryPairs)
    ensures
        forall|key: Seq<char>|
            #[trigger] query_value(a + b, key) == match query_value(a, key) {
                Some(v) => Some(v),
                None => query_value(b, key),
            },
    decreases a.len(),
{
    if a.len() == 0 {
        assert(a + b =~= b);
    } else {
        assert((a + b).drop_first() =~= a.drop_first() + b);
        assert((a + b)[0] == a[0]);
        lemma_query_value_concat(a.drop_first(), b);
        assert forall|key: Seq<char>|
            #[trigger] query_value(a + b, key) == match query_value(a, key) {
                Some(v) => Some(v),
                None => query_value(b, key),
            } by {
            if a[0].0 != key {
                assert(query_value(a + b, key) == query_value(a.drop_first() + b, key));
            }
        }
    }
}

/// At most two pairs: the first one named `key` gives its value.
pub proof fn lemma_short_pairs_value(pairs: QueryPairs)
    requires
        pairs.len() <= 2,
    ensures
        forall|key: Seq<char>|
            #[trigger] query_value(pairs, key) == if pairs.len() >= 1 && pairs[0].0 == key {
                Some(pairs[0].1)
            } else if pairs.len() == 2 && pairs[1].0 == key {
                Some(pairs[1].1)
            } else {
                None
            },
{
    assert forall|key: Seq<char>|
        #[trigger] query_value(pairs, key) == if pairs.len() >= 1 && pairs[0].0 == key {
            Some(pairs[0].1)
        } else if pairs.len() == 2 && pairs[1].0 == key {
            Some(pairs[1].1)
        } else {
            None
        } by {
        if pairs.len() >= 1 && pairs[0].0 != key {
            let rest = pairs.drop_first();
            assert(query_value(pairs, key) == query_value(rest, key));
            if pairs.len() == 2 {
                assert(rest[0] == pairs[1]);
                assert(rest.drop_first().len() == 0);
                if pairs[1].0 != key {
                    assert(query_value(rest, key) == query_value(rest.drop_first(), key));
                }
            }
        }
    }
}

/// Two items joined: the first, the separator, the second.
pub proof fn lemma_join_two(a: Seq<char>, b: Seq<char>, sep: Seq<char>)
    ensures
        join(seq![a, b], sep) == a + sep + b,
{
    let items = seq![a, b];
    assert(items.drop_last() =~= seq![a]);
    assert(join(items.drop_last(), sep) == a);
}

/// The items joined by `sep`; no items give the empty string.
pub open spec fn join(items: Seq<Seq<char>>, sep: Seq<char>) -> Seq<char>
    decreases items.len(),
{
    if items.len() == 0 {
        seq![]
    } else if items.len() == 1 {
        items[0]
    } else {
        join(items.drop_last(), sep) + sep + items.last()
    }
}

/// Decimal digits of `n`, most significant first, without leading zeros.
pub open spec fn nat_decimal(n: nat) -> Seq<char>
    decreases n,
{
    if n < 10 {
        seq![hex_digit(n as int)]
    } else {
        nat_decimal(n / 10) + seq![hex_digit(n as int % 10)]
    }
}

/// Decimal form of an integer, with a leading `-` when it is negative.
pub open spec fn int_decimal(n: int) -> Seq<char> {
    if n < 0 {
        seq!['-'] + nat_decimal((-n) as nat)
    } else {
        nat_decimal(n as nat)
    }
}

/// Relies on serde_urlencoded::to_string: a sequence of string pairs is written
/// pair by pair as the form-encoded name, `=` and the form-encoded value, the
/// pairs joined by `&`; on such a sequence it does not fail.
#[verifier::external_body]
fn urlencode_pairs(pairs: &Vec<(String, String)>) -> (r: Option<String>)
    ensures
        r is Some,
        r->Some_0@ == form_query(pairs_view(pairs@)),
{
    serde_urlencoded::to_string(pairs).ok()
}

/// Relies on serde_urlencoded::from_str into a sequence of string pairs: the
/// form encoding of a sequence of pairs reads back as that sequence.
#[verifier::external_body]
fn urldecode_pairs(query: &str) -> (r: Option<Vec<(String, String)>>)
    ensures
        forall|p: QueryPairs|
            #[trigger] form_query(p) == query@ ==> r is Some && pairs_view(r->Some_0@) == p,
{
    serde_urlencoded::from_str::<Vec<(String, String)>>(query).ok()
}

/// Writes `pairs` as a form-encoded query string.
pub fn encode_query(pairs: &Vec<(String, String)>) -> (r: Result<String, AuthError>)
    ensures
        r matches Ok(q) && q@ == form_query(pairs_view(pairs@)),
{
    match urlencode_pairs(pairs) {
        Some(q) => Ok(q),
        None => Err(AuthError::EncodingError),
    }
}

/// Reads a form-encoded query string back into its pairs.
pub fn decode_query(query: &str) -> (r: Result<Vec<(String, String)>, AuthError>)
    ensures
        forall|p: QueryPairs|
            #[trigger] form_query(p) == query@ ==> r is Ok && pairs_view(r->Ok_0@) == p,
        r is Err ==> r matches Err(AuthError::DecodingError(_)),
{
    match urldecode_pairs(query) {
        Some(v) => Ok(v),
        None => Err(AuthError::DecodingError("malformed query string".to_string())),
    }
}

/// The URL `base?query`, where `query` is the form encoding of `pairs`.
pub fn endpoint_url(base: &str, pairs: &Vec<(String, String)>) -> (r: Result<String, AuthError>)
    ensures
        r matches Ok(u) && u@ == base@ + seq!['?'] + form_query(pairs_view(pairs@)),
{
    let query = encode_query(pairs)?;
    let mut url = base.to_string();
    proof {
        reveal_strlit("?");
    }
    url.append("?");
    url.append(query.as_str());
    Ok(url)
}

/// Appends the pair `key=value`.
pub fn push_pair(pairs: &mut Vec<(String, String)>, key: &str, value: String)
    ensures
        pairs_view(final(pairs)@) == pairs_view(old(pairs)@).push((key@, value@)),
{
    pairs.push((key.to_string(), value));
    assert(pairs_view(pairs@) =~= pairs_view(old(pairs)@).push((key@, value@)));
}

/// Appends the pair `key=value` when `value` is present.
pub fn push_opt(pairs: &mut Vec<(String, String)>, key: &str, value: &Option<String>)
    ensures
        pairs_view(final(pairs)@) == pairs_view(old(pairs)@) + opt_pair(key@, *value),
{
    match value {
        Some(v) => push_pair(pairs, key, v.clone()),
        None => {},
    }
    assert(pairs_view(pairs@) =~= pairs_view(old(pairs)@) + opt_pair(key@, *value));
}

/// Appends the pair `key=<decimal of value>` when `value` is present.
pub fn push_opt_decimal(pairs: &mut Vec<(String, String)>, key: &str, value: Option<i64>)
    ensures
        pairs_view(final(pairs)@) == pairs_view(old(pairs)@) + opt_decimal(key@, value),
{
    match value {
        Some(n) => push_pair(pairs, key, i64_decimal(n)),
        None => {},
    }
    assert(pairs_view(pairs@) =~= pairs_view(old(pairs)@) + opt_decimal(key@, value));
}

/// The value of the first pair named `key`.
pub fn lookup(pairs: &Vec<(String, String)>, key: &str) -> (r: Option<String>)
    ensures
        match r {
            Some(s) => query_value(pairs_view(pairs@), key@) == Some(s@),
            None => query_value(pairs_view(pairs@), key@) is None,
        },
{
    let ghost pv = pairs_view(pairs@);
    let wanted = key.to_string();
    let mut i: usize = 0;
    assert(pv.subrange(0, pv.len() as int) =~= pv);
    while i < pairs.len()
        invariant
            i <= pairs.len(),
            pv == pairs_view(pairs@),
            wanted@ == key@,
            query_value(pv, key@) == query_value(pv.subrange(i as int, pv.len() as int), key@),
        decreases pairs.len() - i,
    {
        let ghost rest = pv.subrange(i as int, pv.len() as int);
        assert(rest[0] == pv[i as int]);
        assert(rest.drop_first() =~= pv.subrange(i + 1, pv.len() as int));
        assert(pv[i as int] == (pairs@[i as int].0@, pairs@[i as int].1@));
        if pairs[i].0 == wanted {
            return Some(pairs[i].1.clone());
        }
        i = i + 1;
    }
    None
}

/// The value of the first pair named `key`, which must be there.
pub fn required(pairs: &Vec<(String, String)>, key: &str) -> (r: Result<String, AuthError>)
    ensures
        match query_value(pairs_view(pairs@), key@) {
            Some(v) => r matches Ok(s) && s@ == v,
            None => r matches Err(AuthError::DecodingError(_)),
        },
{
    match lookup(pairs, key) {
        Some(v) => Ok(v),
        None => Err(AuthError::DecodingError("missing query field".to_string())),
    }
}

/// The items of `items` joined by `sep`.
pub fn join_with(items: &Vec<String>, sep: &str) -> (r: String)
    ensures
        r@ == join(strings_view(items@), sep@),
{
    let ghost sv = strings_view(items@);
    let mut r = String::new();
    let mut i: usize = 0;
    while i < items.len()
        invariant
            i <= items.len(),
            sv == strings_view(items@),
            r@ == join(sv.subrange(0, i as int), sep@),
        decreases items.len() - i,
    {
        let ghost done = sv.subrange(0, i as int + 1);
        assert(done.drop_last() =~= sv.subrange(0, i as int));
        if i == 0 {
            r = items[i].clone();
        } else {
            r.append(sep);
            r.append(items[i].as_str());
        }
        i = i + 1;
    }
    assert(sv.subrange(0, i as int) =~= sv);
    r
}

/// A decimal digit as a one-character string.
fn digit_str(d: u64) -> (r: &'static str)
    requires
        d < 10,
    ensures
        r@ == seq![hex_digit(d as int)],
{
    proof {
        reveal_strlit("0");
        reveal_strlit("1");
        reveal_strlit("2");
        reveal_strlit("3");
        reveal_strlit("4");
        reveal_strlit("5");
        reveal_strlit("6");
        reveal_strlit("7");
        reveal_strlit("8");
        reveal_strlit("9");
    }
    match d {
        0 => "0",
        1 => "1",
        2 => "2",
        3 => "3",
        4 => "4",
        5 => "5",
        6 => "6",
        7 => "7",
        8 => "8",
        _ => "9",
    }
}

/// Decimal form of `n`.
pub fn u64_decimal(n: u64) -> (r: String)
    ensures
        r@ == nat_decimal(n as nat),
    decreases n,
{
    if n < 10 {
        digit_str(n).to_string()
    } else {
        let mut s = u64_decimal(n / 10);
        s.append(digit_str(n % 10));
        s
    }
}

/// Decimal form of `n`, with a leading `-` when it is negative.
pub fn i64_decimal(n: i64) -> (r: String)
    ensures
        r@ == int_decimal(n as int),
{
    if n < 0 {
        let m: u64 = if n == i64::MIN {
            9223372036854775808u64
        } else {
            (-n) as u64
        };
        proof {
            reveal_strlit("-");
        }
        let mut s = "-".to_string();
        let digits = u64_decimal(m);
        s.append(digits.as_str());
        s
    } else {
        u64_decimal(n as u64)
    }
}

} // verus!
