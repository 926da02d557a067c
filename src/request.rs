//! Reading the requested repository from a request URI.

use vstd::prelude::*;
use vstd::string::*;

verus! {

/// The decoded query pairs of a URL, in order, or `None` when it does not parse.
pub uninterp spec fn url_query_pairs(uri: Seq<char>) -> Option<Seq<(Seq<char>, Seq<char>)>>;

/// The text of each query pair.
pub open spec fn pairs_view(v: Seq<(String, String)>) -> Seq<(Seq<char>, Seq<char>)> {
    v.map_values(|p: (String, String)| (p.0@, p.1@))
}

/// Relies on `url::Url::parse` and `Url::query_pairs`: the query of an absolute
/// URL split into form-urlencoded pairs, decoded, in their order; the outcome
/// depends on the text alone.
#[verifier::external_body]
fn query_pairs_of(uri: &str) -> (r: Option<Vec<(String, String)>>)
    ensures
        match r {
            None => url_query_pairs(uri@) is None,
            Some(v) => url_query_pairs(uri@) == Some(pairs_view(v@)),
        },
{
    url::Url::parse(uri).ok().map(|u| u.query_pairs().into_owned().collect())
}

/// The value of the last pair named `key`: a later pair overrides an earlier one.
pub open spec fn last_value(pairs: Seq<(Seq<char>, Seq<char>)>, key: Seq<char>) -> Option<Seq<char>>
    decreases pairs.len(),
{
    if pairs.len() == 0 {
        None
    } else if pairs.last().0 == key {
        Some(pairs.last().1)
    } else {
        last_value(pairs.drop_last(), key)
    }
}

/// The value of the last pair named `key`.
pub fn query_value(pairs: &Vec<(String, String)>, key: &str) -> (r: Option<String>)
    ensures
        match last_value(pairs_view(pairs@), key@) {
            None => r is None,
            Some(v) => r matches Some(s) && s@ == v,
        },
{
    let k = String::from_str(key);
    let mut i: usize = pairs.len();
    assert(pairs_view(pairs@).subrange(0, i as int) =~= pairs_view(pairs@));
    while i > 0
        invariant
            i <= pairs@.len(),
            k@ == key@,
            last_value(pairs_view(pairs@), key@) == last_value(
                pairs_view(pairs@).subrange(0, i as int),
                key@,
            ),
        decreases i,
    {
        let ghost pv = pairs_view(pairs@).subrange(0, i as int);
        assert(pv.last() == (pairs@[i - 1].0@, pairs@[i - 1].1@));
        assert(pv.drop_last() =~= pairs_view(pairs@).subrange(0, i - 1));
        if pairs[i - 1].0 == k {
            return Some(pairs[i - 1].1.clone());
        }
        i -= 1;
    }
    None
}

/// The repository that a request URI asks for in its `repo` query parameter.
pub fn requested_repo(uri: &str) -> (r: Option<String>)
    ensures
        match url_query_pairs(uri@) {
            None => r is None,
            Some(ps) => match last_value(ps, "repo"@) {
                None => r is None,
                Some(v) => r matches Some(s) && s@ == v,
            },
        },
{
    match query_pairs_of(uri) {
        None => None,
        Some(pairs) => query_value(&pairs, "repo"),
    }
}

} // verus!
