//! The gateway's own model of a structured JSON document.
//!
//! The host hands the gateway one already-parsed JSON event per invocation;
//! the gateway only ever reads a handful of fields from it and otherwise
//! passes the document through untouched. This type holds exactly what that
//! reading needs: objects as ordered key/value lists, strings, booleans,
//! numbers kept as their decimal text (the gateway never does arithmetic on
//! them), arrays, and null. Field access mirrors the indexing the validation
//! logic performs: a missing member and an explicit `null` member are both
//! read as null.

use vstd::prelude::*;

verus! {

/// A structured JSON document.
#[derive(PartialEq, Eq, Debug)]
pub enum Json {
    Null,
    Bool(bool),
    /// A number, kept as its decimal text; the gateway never computes on it.
    Num(String),
    Str(String),
    Arr(Vec<Json>),
    Obj(Vec<(String, Json)>),
}

/// The value of the first member named `key`, or `Json::Null` when no such
/// member exists or the document is not an object.
pub open spec fn lookup(entries: Seq<(String, Json)>, key: Seq<char>) -> Json
    decreases entries.len(),
{
    if entries.len() == 0 {
        Json::Null
    } else if entries[0].0@ == key {
        entries[0].1
    } else {
        lookup(entries.drop_first(), key)
    }
}

/// Member access as the validation logic performs it: absent members,
/// non-object documents and explicit nulls all read as `Json::Null`.
pub open spec fn spec_get(j: Json, key: Seq<char>) -> Json {
    match j {
        Json::Obj(entries) => lookup(entries@, key),
        _ => Json::Null,
    }
}

/// The character content of a string document, `None` for any other kind.
pub open spec fn str_of(j: Json) -> Option<Seq<char>> {
    match j {
        Json::Str(s) => Some(s@),
        _ => None,
    }
}

impl Json {
    /// Whether this document is null.
    pub fn is_null(&self) -> (r: bool)
        ensures
            r == (*self is Null),
    {
        match self {
            Json::Null => true,
            _ => false,
        }
    }

    /// The first member named `key`, when one exists.
    pub fn get<'a>(&'a self, key: &str) -> (r: Option<&'a Json>)
        ensures
            match r {
                Some(v) => *v == spec_get(*self, key@),
                None => spec_get(*self, key@) == Json::Null,
            },
    {
        match self {
            Json::Obj(entries) => {
                let ghost all = entries@;
                let n = entries.len();
                let mut i: usize = 0;
                proof {
                    assert(all.skip(0) =~= all);
                }
                while i < n
                    invariant
                        n == all.len(),
                        i <= n,
                        all == entries@,
                        spec_get(*self, key@) == lookup(all, key@),
                        lookup(all.skip(i as int), key@) == lookup(all, key@),
                    decreases n - i,
                {
                    proof {
                        assert(all.skip(i as int)[0] == all[i as int]);
                        assert(all.skip(i as int).drop_first() =~= all.skip(i as int + 1));
                    }
                    if crate::strutil::str_eq(entries[i].0.as_str(), key) {
                        proof {
                            assert(lookup(all.skip(i as int), key@) == all[i as int].1);
                        }
                        return Some(&entries[i].1);
                    }
                    i += 1;
                }
                proof {
                    assert(all.skip(n as int) =~= Seq::<(String, Json)>::empty());
                }
                None
            },
            _ => None,
        }
    }

    /// Like `get`, but collapsing a missing member into `Json::Null`, as the
    /// validation rules read documents.
    pub fn member<'a>(&'a self, key: &str) -> (r: &'a Json)
        ensures
            *r == spec_get(*self, key@),
    {
        match self.get(key) {
            Some(v) => v,
            None => &Json::Null,
        }
    }

    /// The string content of this document, when it is a string.
    pub fn as_str<'a>(&'a self) -> (r: Option<&'a String>)
        ensures
            match r {
                Some(s) => str_of(*self) == Some(s@),
                None => str_of(*self) is None,
            },
    {
        match self {
            Json::Str(s) => Some(s),
            _ => None,
        }
    }
}

} // verus!
