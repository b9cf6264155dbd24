//! The pairing claim of `/connect?id=...`: the id in a request's query.
use vstd::prelude::*;
use crate::control::ControllerId;
use crate::routes::text_eq;
use crate::serve::SpjortState;

verus! {

/// The decoded name-value pairs of the query of the absolute URL `url`, in
/// order; none where `url` does not parse as an absolute URL.
pub uninterp spec fn query_pairs_of(url: Seq<char>) -> Option<Seq<(Seq<char>, Seq<char>)>>;

/// Relies on `url::Url::parse`, which fails exactly on text that is no
/// absolute URL, and on `Url::query_pairs`, which lists the query's
/// percent-decoded pairs in order; both depend on the text alone.
#[verifier::external_body]
fn query_pairs(url: &str) -> (r: Option<Vec<(String, String)>>)
    ensures
        match r {
            Some(v) => query_pairs_of(url@) == Some(
                v@.map_values(|p: (String, String)| (p.0@, p.1@)),
            ),
            None => query_pairs_of(url@) is None,
        },
{
    match url::Url::parse(url) {
        Ok(parsed) => Some(parsed.query_pairs().into_owned().collect()),
        Err(_) => None,
    }
}

/// Whether `c` is a decimal digit.
pub open spec fn is_digit(c: char) -> bool {
    '0' <= c && c <= '9'
}

/// The value of the decimal digits `s`.
pub open spec fn digits_value(s: Seq<char>) -> nat
    decreases s.len(),
{
    if s.len() == 0 {
        0
    } else {
        digits_value(s.drop_last()) * 10 + (s.last() as nat - '0' as nat) as nat
    }
}

/// `s` without a leading `+`.
pub open spec fn unsigned_digits(s: Seq<char>) -> Seq<char> {
    if s.len() > 0 && s[0] == '+' {
        s.drop_first()
    } else {
        s
    }
}

/// Every character of `d` is a decimal digit.
pub open spec fn all_digits(d: Seq<char>) -> bool {
    forall|i: int| 0 <= i < d.len() ==> is_digit(#[trigger] d[i])
}

/// The unsigned 64-bit number that `s` spells: an optional `+`, then one or
/// more decimal digits, with a value that fits.
pub open spec fn parse_u64_text(s: Seq<char>) -> Option<u64> {
    let d = unsigned_digits(s);
    if d.len() == 0 || !all_digits(d) || digits_value(d) > u64::MAX {
        None
    } else {
        Some(digits_value(d) as u64)
    }
}

/// The value of the first pair of `pairs` named `key`.
pub open spec fn first_value(pairs: Seq<(Seq<char>, Seq<char>)>, key: Seq<char>) -> Option<Seq<char>>
    decreases pairs.len(),
{
    if pairs.len() == 0 {
        None
    } else if pairs[0].0 == key {
        Some(pairs[0].1)
    } else {
        first_value(pairs.drop_first(), key)
    }
}

/// The controller id that the query pairs `pairs` claim: the first `id`
/// pair's value, read as a number.
pub open spec fn claimed_id(pairs: Seq<(Seq<char>, Seq<char>)>) -> Option<ControllerId> {
    match first_value(pairs, "id"@) {
        Some(v) => parse_u64_text(v),
        None => None,
    }
}

/// The site a request path is read against.
pub const SITE: &'static str = "http://localhost";

/// The controller id that a request for `uri` claims, `uri` being a path with
/// its query.
pub open spec fn claimed_id_in(uri: Seq<char>) -> Option<ControllerId> {
    match query_pairs_of(SITE@ + uri) {
        Some(pairs) => claimed_id(pairs),
        None => None,
    }
}

proof fn lemma_digits_value_prefix(s: Seq<char>, j: int)
    requires
        0 <= j <= s.len(),
    ensures
        digits_value(s.subrange(0, j)) <= digits_value(s),
    decreases s.len() - j,
{
    if j < s.len() {
        lemma_digits_value_prefix(s, j + 1);
        assert(s.subrange(0, j + 1).drop_last() =~= s.subrange(0, j));
    } else {
        assert(s.subrange(0, j) =~= s);
    }
}

/// Reads `s` as an unsigned 64-bit number: an optional `+`, then decimal
/// digits whose value fits.
pub fn parse_u64(s: &str) -> (r: Option<u64>)
    ensures
        r == parse_u64_text(s@),
{
    let n = s.unicode_len();
    let start: usize = if n > 0 && s.get_char(0) == '+' {
        1
    } else {
        0
    };
    let ghost d = unsigned_digits(s@);
    assert(d =~= s@.subrange(start as int, n as int));
    if start == n {
        return None;
    }
    let mut acc: u64 = 0;
    let mut i: usize = start;
    while i < n
        invariant
            n == s@.len(),
            start <= i <= n,
            d == s@.subrange(start as int, n as int),
            d == unsigned_digits(s@),
            forall|k: int| 0 <= k < i - start ==> is_digit(#[trigger] d[k]),
            acc == digits_value(d.subrange(0, i - start)),
        decreases n - i,
    {
        let c = s.get_char(i);
        assert(d[i - start] == c);
        if c < '0' || c > '9' {
            assert(!is_digit(d[i - start]));
            return None;
        }
        let digit = (c as u32 - '0' as u32) as u64;
        assert(d.subrange(0, i - start + 1).drop_last() =~= d.subrange(0, i - start));
        if acc > (u64::MAX - digit) / 10 {
            proof {
                lemma_digits_value_prefix(d, i - start + 1);
                assert(digits_value(d.subrange(0, i - start + 1)) == acc * 10 + digit);
                assert(acc * 10 + digit > u64::MAX) by (nonlinear_arith)
                    requires
                        acc > (u64::MAX - digit) / 10,
                        digit <= 9,
                ;
                assert(digits_value(d) > u64::MAX);
            }
            return None;
        }
        acc = acc * 10 + digit;
        i += 1;
    }
    assert(d.subrange(0, n - start) =~= d);
    Some(acc)
}

/// The controller id that the query pairs `pairs` claim: the value of the
/// first pair named `id`, read as a number.
pub fn id_in_query(pairs: &Vec<(String, String)>) -> (r: Option<ControllerId>)
    ensures
        r == claimed_id(pairs@.map_values(|p: (String, String)| (p.0@, p.1@))),
{
    let ghost view = pairs@.map_values(|p: (String, String)| (p.0@, p.1@));
    assert(view.subrange(0, view.len() as int) =~= view);
    let mut i: usize = 0;
    while i < pairs.len()
        invariant
            i <= pairs@.len(),
            view == pairs@.map_values(|p: (String, String)| (p.0@, p.1@)),
            first_value(view, "id"@) == first_value(view.subrange(i as int, view.len() as int), "id"@),
        decreases pairs@.len() - i,
    {
        let ghost rest = view.subrange(i as int, view.len() as int);
        assert(rest.drop_first() =~= view.subrange(i + 1, view.len() as int));
        assert(rest[0] == view[i as int]);
        if text_eq(pairs[i].0.as_str(), "id") {
            return parse_u64(pairs[i].1.as_str());
        }
        i += 1;
    }
    None
}

/// The controller id that a request for `uri` claims: the path and query
/// are read against `SITE`, and the first `id` pair of the query is read as
/// a number.
pub fn query_id(uri: &str) -> (r: Option<ControllerId>)
    ensures
        r == claimed_id_in(uri@),
{
    let mut url = String::from_str(SITE);
    url.append(uri);
    match query_pairs(url.as_str()) {
        Some(pairs) => id_in_query(&pairs),
        None => None,
    }
}

/// Handles a pairing claim for `uri`: where its query names an id waiting to
/// be paired, that id is claimed and the result is true; otherwise nothing
/// changes and the result is false.
pub fn claim_from_query(state: &mut SpjortState, uri: &str) -> (r: bool)
    requires
        old(state).wf(),
    ensures
        final(state).wf(),
        match claimed_id_in(uri@) {
            Some(id) => {
                &&& r == old(state)@.pairing.contains(id)
                &&& final(state)@ == old(state)@.claim_pairing(id)
            },
            None => !r && final(state)@ == old(state)@,
        },
{
    match query_id(uri) {
        Some(id) => state.connect_controller(id),
        None => false,
    }
}

} // verus!
