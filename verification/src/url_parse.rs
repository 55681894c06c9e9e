//! Parsing of `application/x-www-form-urlencoded` payloads into a string
//! map, with a choice of duplicate-key handling.

use vstd::prelude::*;

use crate::strmap::StringMap;

verus! {

broadcast use vstd::std_specs::vec::group_vec_axioms;

/// How duplicate keys in the input are handled.
#[derive(Debug, Clone, Copy)]
pub enum DuplicateBehavior {
    /// Keep the first occurrence seen.
    KeepFirst,
    /// Keep the last occurrence, overwriting earlier values.
    KeepLast,
    /// Collect all values into one comma-separated string, preserving order.
    /// Values are not quoted; pick another collector where commas are valid
    /// values.
    CollectCommaSeparated,
}

/// The decoded key-value pairs of a form-urlencoded payload, in input
/// order: split on `&` and `=`, percent-escapes and `+` decoded.
pub uninterp spec fn form_pairs(s: Seq<char>) -> Seq<(Seq<char>, Seq<char>)>;

/// Relies on url's form_urlencoded::parse: yields the decoded key-value
/// pairs of the payload in input order, percent-escapes and `+` decoded.
#[verifier::external_body]
fn form_decode_pairs(payload: &str) -> (r: Vec<(String, String)>)
    ensures
        r@.len() == form_pairs(payload@).len(),
        forall|i: int|
            0 <= i < r@.len() ==> ((#[trigger] r@[i]).0@, r@[i].1@) == form_pairs(payload@)[i],
{
    url::form_urlencoded::parse(payload.as_bytes()).into_owned().collect()
}

/// The map that keeping the last occurrence of every key builds.
pub open spec fn fold_keep_last(pairs: Seq<(Seq<char>, Seq<char>)>) -> Map<Seq<char>, Seq<char>>
    decreases pairs.len(),
{
    if pairs.len() == 0 {
        Map::empty()
    } else {
        fold_keep_last(pairs.drop_last()).insert(pairs.last().0, pairs.last().1)
    }
}

/// The map that keeping the first occurrence of every key builds.
pub open spec fn fold_keep_first(pairs: Seq<(Seq<char>, Seq<char>)>) -> Map<Seq<char>, Seq<char>>
    decreases pairs.len(),
{
    if pairs.len() == 0 {
        Map::empty()
    } else {
        let m = fold_keep_first(pairs.drop_last());
        if m.contains_key(pairs.last().0) {
            m
        } else {
            m.insert(pairs.last().0, pairs.last().1)
        }
    }
}

/// The map that collecting every key's values, comma-separated and in
/// order, builds.
pub open spec fn fold_collect(pairs: Seq<(Seq<char>, Seq<char>)>) -> Map<Seq<char>, Seq<char>>
    decreases pairs.len(),
{
    if pairs.len() == 0 {
        Map::empty()
    } else {
        let m = fold_collect(pairs.drop_last());
        if m.contains_key(pairs.last().0) {
            m.insert(pairs.last().0, m[pairs.last().0] + ","@ + pairs.last().1)
        } else {
            m.insert(pairs.last().0, pairs.last().1)
        }
    }
}

/// Parse a form-urlencoded payload into a string map, folding duplicate
/// keys per the requested behavior.
#[verifier::loop_isolation(false)]
pub fn parse_url_encoded(payload: &str, dup_behavior: DuplicateBehavior) -> (r: StringMap)
    ensures
        r@ == match dup_behavior {
            DuplicateBehavior::KeepFirst => fold_keep_first(form_pairs(payload@)),
            DuplicateBehavior::KeepLast => fold_keep_last(form_pairs(payload@)),
            DuplicateBehavior::CollectCommaSeparated => fold_collect(form_pairs(payload@)),
        },
{
    let pairs = form_decode_pairs(payload);
    let ghost gpairs = form_pairs(payload@);
    let n = pairs.len();
    let mut map = StringMap::new();
    proof {
        assert(gpairs.subrange(0, 0) =~= Seq::<(Seq<char>, Seq<char>)>::empty());
    }
    let mut i: usize = 0;
    while i < n
        invariant
            0 <= i <= n,
            map@ == match dup_behavior {
                DuplicateBehavior::KeepFirst => fold_keep_first(gpairs.subrange(0, i as int)),
                DuplicateBehavior::KeepLast => fold_keep_last(gpairs.subrange(0, i as int)),
                DuplicateBehavior::CollectCommaSeparated => fold_collect(
                    gpairs.subrange(0, i as int),
                ),
            },
        decreases n - i,
    {
        let ghost pre = gpairs.subrange(0, i as int);
        let ghost pre1 = gpairs.subrange(0, i as int + 1);
        proof {
            assert(pre1.drop_last() =~= pre);
            assert(pre1.last() == gpairs[i as int]);
            assert((pairs@[i as int].0@, pairs@[i as int].1@) == gpairs[i as int]);
        }
        let key = pairs[i].0.as_str();
        let val = pairs[i].1.as_str();
        match dup_behavior {
            DuplicateBehavior::KeepLast => {
                map.insert(key, val);
            },
            DuplicateBehavior::KeepFirst => {
                match map.get(key) {
                    Some(_) => (),
                    None => {
                        map.insert(key, val);
                    },
                }
            },
            DuplicateBehavior::CollectCommaSeparated => {
                let existing: Option<String> = match map.get(key) {
                    Some(v) => Some(v.clone()),
                    None => Option::None,
                };
                match existing {
                    Some(v) => {
                        let joined = crate::strutil::str_concat(
                            crate::strutil::str_concat(v.as_str(), ",").as_str(),
                            val,
                        );
                        map.insert(key, joined.as_str());
                    },
                    None => {
                        map.insert(key, val);
                    },
                }
            },
        }
        i += 1;
    }
    proof {
        assert(gpairs.subrange(0, n as int) =~= gpairs);
    }
    map
}

} // verus!
