//! The JSON trees this client reads responses from.
//!
//! A response body arrives as text; whatever turns that text into a tree
//! hands the library a `Json` value, and everything the client concludes
//! from it is decided here. The type covers the fragment of JSON the
//! remote API uses; `Other` stands for any well-formed JSON value outside
//! that fragment (for example a non-integral number). A decoder rejects
//! `Other` wherever a typed field is read and ignores it elsewhere, as a
//! schema-driven decoder would.

use vstd::prelude::*;

use crate::text::str_eq;

verus! {

/// A JSON value, restricted to the fragment the moderation API uses.
#[derive(Debug)]
pub enum Json {
    Null,
    Bool(bool),
    Int(i64),
    Str(String),
    Arr(Vec<Json>),
    Obj(Vec<(String, Json)>),
    Other,
}

/// The value under the first occurrence of a key among an object's
/// entries, if any.
pub open spec fn spec_lookup(entries: Seq<(String, Json)>, key: Seq<char>) -> Option<Json>
    decreases entries.len(),
{
    if entries.len() == 0 {
        None
    } else if entries[0].0@ == key {
        Some(entries[0].1)
    } else {
        spec_lookup(entries.drop_first(), key)
    }
}

/// Finds the first entry under `key` among an object's entries.
pub fn lookup<'a>(entries: &'a Vec<(String, Json)>, key: &str) -> (r: Option<&'a Json>)
    ensures
        match r {
            Some(j) => spec_lookup(entries@, key@) == Some(*j),
            None => spec_lookup(entries@, key@) is None,
        },
{
    let n = entries.len();
    let mut i: usize = 0;
    proof {
        assert(entries@.skip(0) =~= entries@);
    }
    while i < n
        invariant
            n == entries@.len(),
            i <= n,
            spec_lookup(entries@, key@) == spec_lookup(entries@.skip(i as int), key@),
        decreases n - i,
    {
        proof {
            assert(entries@.skip(i as int).drop_first() =~= entries@.skip(i as int + 1));
            assert(entries@.skip(i as int)[0] == entries@[i as int]);
        }
        let e = &entries[i];
        if str_eq(e.0.as_str(), key) {
            return Some(&e.1);
        }
        i = i + 1;
    }
    proof {
        assert(entries@.skip(n as int) =~= Seq::<(String, Json)>::empty());
    }
    None
}

} // verus!
