//! The request's query string, parsed into ordered key/value pairs, and the
//! first-occurrence lookup the dispatcher uses (keys may repeat; the first
//! occurrence wins).

use vstd::prelude::*;

verus! {

/// The ordered, percent-decoded key/value pairs that the
/// `application/x-www-form-urlencoded` reading of a query string yields.
pub uninterp spec fn query_pairs_of(q: Seq<char>) -> Seq<(Seq<char>, Seq<char>)>;

/// Relies on `url::form_urlencoded::parse`: yields the query's key/value
/// pairs in order, percent-decoded and with `+` read as a space; an empty
/// input yields no pairs.
#[verifier::external_body]
pub fn parse_query_pairs(q: &str) -> (r: Vec<(String, String)>)
    ensures
        view_pairs(r@) == query_pairs_of(q@),
        q@.len() == 0 ==> r@.len() == 0,
{
    url::form_urlencoded::parse(q.as_bytes()).into_owned().collect()
}

/// The value of the first pair whose key is `key`, if any.
pub open spec fn spec_first_param(
    pairs: Seq<(Seq<char>, Seq<char>)>,
    key: Seq<char>,
) -> Option<Seq<char>>
    decreases pairs.len(),
{
    if pairs.len() == 0 {
        Option::None
    } else if pairs[0].0 == key {
        Option::Some(pairs[0].1)
    } else {
        spec_first_param(pairs.drop_first(), key)
    }
}

/// Finds the value of the first pair named `key`: the first occurrence wins,
/// later repetitions are ignored.
pub fn first_param(pairs: &Vec<(String, String)>, key: &String) -> (r: Option<String>)
    ensures
        match r {
            Option::Some(v) => spec_first_param(view_pairs(pairs@), key@)
                == Option::Some(v@),
            Option::None => spec_first_param(view_pairs(pairs@), key@) is None,
        },
{
    let ghost gpairs = view_pairs(pairs@);
    let n = pairs.len();
    let mut i: usize = 0;
    proof {
        assert(gpairs.skip(0) =~= gpairs);
    }
    while i < n
        invariant
            i <= n,
            n == pairs@.len(),
            gpairs == view_pairs(pairs@),
            gpairs.len() == n,
            forall|j: int|
                0 <= j < n ==> gpairs[j] == (pairs@[j].0@, pairs@[j].1@),
            spec_first_param(gpairs.skip(i as int), key@)
                == spec_first_param(gpairs, key@),
        decreases n - i,
    {
        if pairs[i].0 == *key {
            proof {
                assert(gpairs.skip(i as int)[0] == gpairs[i as int]);
            }
            return Option::Some(pairs[i].1.clone());
        }
        proof {
            assert(gpairs.skip(i as int)[0] == gpairs[i as int]);
            assert(gpairs.skip(i as int).drop_first() =~= gpairs.skip(i as int + 1));
        }
        i += 1;
    }
    proof {
        assert(gpairs.skip(n as int) =~= Seq::<(Seq<char>, Seq<char>)>::empty());
    }
    Option::None
}

/// The pair sequence seen mathematically: each component as its view.
pub open spec fn view_pairs(pairs: Seq<(String, String)>) -> Seq<(Seq<char>, Seq<char>)> {
    pairs.map(|i: int, p: (String, String)| (p.0@, p.1@))
}

} // verus!
