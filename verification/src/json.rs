//! The JSON documents that the YouTube and Spotify APIs answer with, as the
//! bot reads them: objects are looked up by key, arrays by position, and
//! leaves are read as text, unsigned integers or arrays. Looking up what is
//! not there gives nothing, the way indexing a JSON value with a missing key
//! or position gives `null`.

use vstd::prelude::*;

use crate::text::same_text;

verus! {

/// A JSON value. Numbers are kept as far as the bot reads them: `UInt` is a
/// number that reads as an unsigned 64-bit integer, `OtherNumber` any other
/// number (negative or fractional).
#[derive(Debug)]
pub enum Json {
    Null,
    Bool(bool),
    UInt(u64),
    OtherNumber,
    Str(String),
    Array(Vec<Json>),
    Object(Vec<(String, Json)>),
}

/// The value stored under `key` among `entries`, the first such entry.
pub open spec fn lookup(entries: Seq<(String, Json)>, key: Seq<char>) -> Option<Json>
    decreases entries.len(),
{
    if entries.len() == 0 {
        None
    } else if entries[0].0@ == key {
        Some(entries[0].1)
    } else {
        lookup(entries.drop_first(), key)
    }
}

/// `j[key]`: the member `key` of an object.
pub open spec fn get(j: Option<Json>, key: Seq<char>) -> Option<Json> {
    match j {
        Some(Json::Object(entries)) => lookup(entries@, key),
        _ => None,
    }
}

/// `j[i]`: the element at position `i` of an array.
pub open spec fn at(j: Option<Json>, i: int) -> Option<Json> {
    match j {
        Some(Json::Array(items)) => if 0 <= i < items@.len() {
            Some(items@[i])
        } else {
            None
        },
        _ => None,
    }
}

/// `j.as_str()`
pub open spec fn as_str(j: Option<Json>) -> Option<Seq<char>> {
    match j {
        Some(Json::Str(s)) => Some(s@),
        _ => None,
    }
}

/// `j.as_array()`
pub open spec fn as_array(j: Option<Json>) -> Option<Seq<Json>> {
    match j {
        Some(Json::Array(items)) => Some(items@),
        _ => None,
    }
}

/// `j.as_u64()`
pub open spec fn as_u64(j: Option<Json>) -> Option<u64> {
    match j {
        Some(Json::UInt(n)) => Some(n),
        _ => None,
    }
}

/// The value an optional reference refers to.
pub open spec fn value_of(j: Option<&Json>) -> Option<Json> {
    match j {
        Some(x) => Some(*x),
        None => None,
    }
}

/// Whether an optional reference refers to the optional value `v`.
pub open spec fn refers_to(r: Option<&Json>, v: Option<Json>) -> bool {
    match r {
        Some(x) => v == Some(*x),
        None => v is None,
    }
}

/// `j[key]`
pub fn get_exec<'a>(j: Option<&'a Json>, key: &str) -> (r: Option<&'a Json>)
    ensures
        refers_to(r, get(value_of(j), key@)),
{
    match j {
        Some(Json::Object(entries)) => {
            let n = entries.len();
            assert(entries@.subrange(0, n as int) =~= entries@);
            let ghost target = get(value_of(j), key@);
            assert(target == lookup(entries@, key@));
            for i in 0..n
                invariant
                    n == entries@.len(),
                    target == lookup(entries@, key@),
                    target == get(value_of(j), key@),
                    lookup(entries@, key@) == lookup(entries@.subrange(i as int, n as int), key@),
            {
                proof {
                    assert(entries@.subrange(i as int, n as int).drop_first() =~= entries@.subrange(i + 1, n as int));
                    assert(entries@.subrange(i as int, n as int)[0] == entries@[i as int]);
                }
                if same_text(entries[i].0.as_str(), key) {
                    assert(lookup(entries@.subrange(i as int, n as int), key@) == Some(entries@[i as int].1));
                    return Some(&entries[i].1);
                }
            }
            proof {
                assert(entries@.subrange(n as int, n as int).len() == 0);
            }
            None
        },
        _ => None,
    }
}

/// `j[i]`
pub fn at_exec<'a>(j: Option<&'a Json>, i: usize) -> (r: Option<&'a Json>)
    ensures
        refers_to(r, at(value_of(j), i as int)),
{
    match j {
        Some(Json::Array(items)) => if i < items.len() {
            Some(&items[i])
        } else {
            None
        },
        _ => None,
    }
}

/// `j.as_str()`
pub fn as_str_exec<'a>(j: Option<&'a Json>) -> (r: Option<&'a str>)
    ensures
        match r {
            Some(s) => as_str(value_of(j)) == Some(s@),
            None => as_str(value_of(j)) is None,
        },
{
    match j {
        Some(Json::Str(s)) => Some(s.as_str()),
        _ => None,
    }
}

/// `j.as_array()`
pub fn as_array_exec<'a>(j: Option<&'a Json>) -> (r: Option<&'a Vec<Json>>)
    ensures
        match r {
            Some(items) => as_array(value_of(j)) == Some(items@),
            None => as_array(value_of(j)) is None,
        },
{
    match j {
        Some(Json::Array(items)) => Some(items),
        _ => None,
    }
}

/// `j.as_u64()`
pub fn as_u64_exec(j: Option<&Json>) -> (r: Option<u64>)
    ensures
        r == as_u64(value_of(j)),
{
    match j {
        Some(Json::UInt(n)) => Some(*n),
        _ => None,
    }
}

} // verus!
