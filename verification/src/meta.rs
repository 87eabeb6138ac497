//! The crate's own model of a parsed manifest.
//!
//! The configuration logic reads a tree of tables, strings, integers,
//! booleans and arrays; this type holds exactly that, as plain values, so
//! that everything done with it can be verified.  Values the configuration
//! never accepts (floats, datetimes) are collapsed to [`MetaValue::Other`].

use vstd::prelude::*;
use crate::text::str_eq;

verus! {

/// One value of a parsed manifest.
pub enum MetaValue {
    /// A string.
    Str(String),
    /// An integer.
    Int(i64),
    /// A boolean.
    Bool(bool),
    /// An array of values.
    Arr(Vec<MetaValue>),
    /// A table: key/value pairs, in table order.
    Table(Vec<(String, MetaValue)>),
    /// A value of a kind the configuration never accepts.
    Other,
}

/// The value under the first entry of `entries` whose key is `key`, if any.
pub open spec fn lookup(entries: Seq<(String, MetaValue)>, key: Seq<char>) -> Option<MetaValue>
    decreases entries.len(),
{
    if entries.len() == 0 {
        None
    } else if entries[0].0@ == key {
        Some(entries[0].1)
    } else {
        lookup(entries.drop_first(), key)
    }
}

/// Look a key up in a table's entries.
pub fn lookup_entry<'a>(entries: &'a Vec<(String, MetaValue)>, key: &str) -> (r: Option<
    &'a MetaValue,
>)
    ensures
        match r {
            Some(m) => lookup(entries@, key@) == Some(*m),
            None => lookup(entries@, key@) is None,
        },
{
    let n = entries.len();
    let mut i: usize = 0;
    proof {
        assert(entries@.skip(0) =~= entries@);
    }
    while i < n
        invariant
            n == entries@.len(),
            0 <= i <= n,
            lookup(entries@, key@) == lookup(entries@.skip(i as int), key@),
        decreases n - i,
    {
        let pair = &entries[i];
        proof {
            assert(entries@.skip(i as int)[0] == entries@[i as int]);
        }
        if str_eq(pair.0.as_str(), key) {
            return Some(&pair.1);
        }
        proof {
            assert(entries@.skip(i as int).drop_first() =~= entries@.skip(i as int + 1));
        }
        i += 1;
    }
    proof {
        assert(entries@.skip(n as int).len() == 0);
    }
    None
}

} // verus!
