//! The library's model of a loosely-shaped JSON response.
//!
//! A response value is held as plain data: strings, booleans, arrays and
//! association lists, and numbers reduced to exactly what the coercion
//! reads of them (their unsigned and signed integer readings, and their
//! floating representation truncated toward zero).  The driver converts a
//! parsed response into this shape; every rule that reads it is verified.
//!
//! Field lookup follows an ordered key chain: for each canonical field an
//! ordered list of candidate source keys is tried and the first usable one
//! wins, with string, integer and floating representations of numeric
//! fields accepted alike.

use vstd::prelude::*;

use crate::strutil::{parse_u64, spec_parse_u64, str_eq};

verus! {

/// What the coercion reads of a JSON number.
#[derive(Clone, Copy, Debug)]
pub struct JsonNumber {
    /// The value when the number is an integer representable in a `u64`.
    pub as_u: Option<u64>,
    /// The value when the number is an integer representable in an `i64`.
    pub as_i: Option<i64>,
    /// The number's floating representation truncated toward zero and
    /// saturated into the `u64` range (zero for negative values).
    pub trunc: u64,
}

/// A JSON value as the coercion sees it.  An object is an association
/// list in source order; lookups take the first binding of a key.
#[derive(Debug)]
pub enum JsonValue {
    Null,
    Bool(bool),
    Num(JsonNumber),
    Str(String),
    Arr(Vec<JsonValue>),
    Obj(Vec<(String, JsonValue)>),
}

/// The first binding of `key` in an association list.
pub open spec fn spec_lookup(pairs: Seq<(String, JsonValue)>, key: Seq<char>) -> Option<JsonValue>
    decreases pairs.len(),
{
    if pairs.len() == 0 {
        None
    } else if pairs.first().0@ == key {
        Some(pairs.first().1)
    } else {
        spec_lookup(pairs.drop_first(), key)
    }
}

/// Object field lookup; anything but an object has no fields.
pub open spec fn spec_get(v: JsonValue, key: Seq<char>) -> Option<JsonValue> {
    match v {
        JsonValue::Obj(pairs) => spec_lookup(pairs@, key),
        _ => None,
    }
}

/// The views of an ordered key list.
pub open spec fn views_of(keys: Seq<&str>) -> Seq<Seq<char>> {
    keys.map_values(|k: &str| k@)
}

impl JsonValue {
    /// Looks a field up by key.
    pub fn get<'a>(&'a self, key: &str) -> (r: Option<&'a JsonValue>)
        ensures
            match r {
                Some(x) => spec_get(*self, key@) == Some(*x),
                None => spec_get(*self, key@) is None,
            },
    {
        match self {
            JsonValue::Obj(pairs) => {
                let n = pairs.len();
                proof {
                    assert(pairs@.skip(0) =~= pairs@);
                    assert(spec_get(*self, key@) == spec_lookup(pairs@, key@));
                }
                let mut i: usize = 0;
                while i < n
                    invariant
                        i <= n,
                        n == pairs@.len(),
                        *self == JsonValue::Obj(*pairs),
                        spec_lookup(pairs@, key@) == spec_lookup(pairs@.skip(i as int), key@),
                    decreases n - i,
                {
                    proof {
                        assert(pairs@.skip(i as int).first() == pairs@[i as int]);
                        assert(pairs@.skip(i as int).drop_first() =~= pairs@.skip(i + 1));
                    }
                    if str_eq(pairs[i].0.as_str(), key) {
                        proof {
                            assert(pairs@.skip(i as int).len() > 0);
                            assert(pairs@.skip(i as int).first().0@ == key@);
                            assert(spec_lookup(pairs@.skip(i as int), key@) == Some(
                                pairs@[i as int].1,
                            ));
                        }
                        return Some(&pairs[i].1);
                    }
                    i += 1;
                }
                proof {
                    assert(pairs@.skip(n as int) =~= Seq::<(String, JsonValue)>::empty());
                }
                None
            },
            _ => None,
        }
    }
}

/// String coercion over an ordered key chain: the first key bound to a
/// string value wins; keys bound to anything else are passed over.
pub open spec fn spec_s_alt(v: JsonValue, keys: Seq<Seq<char>>) -> Option<Seq<char>>
    decreases keys.len(),
{
    if keys.len() == 0 {
        None
    } else {
        match spec_get(v, keys.first()) {
            Some(JsonValue::Str(s)) => Some(s@),
            _ => spec_s_alt(v, keys.drop_first()),
        }
    }
}

/// The unsigned reading of a number: its integer value when it is one,
/// else its floating representation truncated toward zero.
pub open spec fn spec_num_u(n: JsonNumber) -> u64 {
    match n.as_u {
        Some(u) => u,
        None => n.trunc,
    }
}

/// Unsigned coercion over an ordered key chain: a key bound to a number
/// yields its unsigned reading; one bound to a numeric string yields the
/// parsed value; anything else is passed over.
pub open spec fn spec_u_alt(v: JsonValue, keys: Seq<Seq<char>>) -> Option<u64>
    decreases keys.len(),
{
    if keys.len() == 0 {
        None
    } else {
        match spec_get(v, keys.first()) {
            Some(JsonValue::Num(n)) => Some(spec_num_u(n)),
            Some(JsonValue::Str(s)) => match spec_parse_u64(s@) {
                Some(u) => Some(u),
                None => spec_u_alt(v, keys.drop_first()),
            },
            _ => spec_u_alt(v, keys.drop_first()),
        }
    }
}

/// Signed coercion over an ordered key chain: only a number with a signed
/// integer reading yields a value; anything else is passed over.
pub open spec fn spec_i_alt(v: JsonValue, keys: Seq<Seq<char>>) -> Option<i64>
    decreases keys.len(),
{
    if keys.len() == 0 {
        None
    } else {
        match spec_get(v, keys.first()) {
            Some(JsonValue::Num(n)) => match n.as_i {
                Some(x) => Some(x),
                None => spec_i_alt(v, keys.drop_first()),
            },
            _ => spec_i_alt(v, keys.drop_first()),
        }
    }
}

/// First string-valued key of the chain, cloned out.
pub fn s_alt(v: &JsonValue, keys: &Vec<&str>) -> (r: Option<String>)
    ensures
        match r {
            Some(s) => spec_s_alt(*v, views_of(keys@)) == Some(s@),
            None => spec_s_alt(*v, views_of(keys@)) is None,
        },
{
    let n = keys.len();
    proof {
        assert(views_of(keys@).skip(0) =~= views_of(keys@));
    }
    let mut i: usize = 0;
    while i < n
        invariant
            i <= n,
            n == keys@.len(),
            spec_s_alt(*v, views_of(keys@)) == spec_s_alt(*v, views_of(keys@).skip(i as int)),
        decreases n - i,
    {
        proof {
            assert(views_of(keys@).skip(i as int).first() == keys@[i as int]@);
            assert(views_of(keys@).skip(i as int).drop_first() =~= views_of(keys@).skip(i + 1));
        }
        match v.get(keys[i]) {
            Some(x) => match x {
                JsonValue::Str(s) => {
                    return Some(s.clone());
                },
                _ => {},
            },
            None => {},
        }
        i += 1;
    }
    proof {
        assert(views_of(keys@).skip(n as int) =~= Seq::<Seq<char>>::empty());
    }
    None
}

/// First unsigned-coercible key of the chain.
pub fn u_alt(v: &JsonValue, keys: &Vec<&str>) -> (r: Option<u64>)
    ensures
        r == spec_u_alt(*v, views_of(keys@)),
{
    let n = keys.len();
    proof {
        assert(views_of(keys@).skip(0) =~= views_of(keys@));
    }
    let mut i: usize = 0;
    while i < n
        invariant
            i <= n,
            n == keys@.len(),
            spec_u_alt(*v, views_of(keys@)) == spec_u_alt(*v, views_of(keys@).skip(i as int)),
        decreases n - i,
    {
        proof {
            assert(views_of(keys@).skip(i as int).first() == keys@[i as int]@);
            assert(views_of(keys@).skip(i as int).drop_first() =~= views_of(keys@).skip(i + 1));
        }
        match v.get(keys[i]) {
            Some(x) => match x {
                JsonValue::Num(num) => {
                    return Some(
                        match num.as_u {
                            Some(u) => u,
                            None => num.trunc,
                        },
                    );
                },
                JsonValue::Str(s) => {
                    match parse_u64(s.as_str()) {
                        Some(u) => {
                            return Some(u);
                        },
                        None => {},
                    }
                },
                _ => {},
            },
            None => {},
        }
        i += 1;
    }
    proof {
        assert(views_of(keys@).skip(n as int) =~= Seq::<Seq<char>>::empty());
    }
    None
}

/// First signed-integer key of the chain.
pub fn i_alt(v: &JsonValue, keys: &Vec<&str>) -> (r: Option<i64>)
    ensures
        r == spec_i_alt(*v, views_of(keys@)),
{
    let n = keys.len();
    proof {
        assert(views_of(keys@).skip(0) =~= views_of(keys@));
    }
    let mut i: usize = 0;
    while i < n
        invariant
            i <= n,
            n == keys@.len(),
            spec_i_alt(*v, views_of(keys@)) == spec_i_alt(*v, views_of(keys@).skip(i as int)),
        decreases n - i,
    {
        proof {
            assert(views_of(keys@).skip(i as int).first() == keys@[i as int]@);
            assert(views_of(keys@).skip(i as int).drop_first() =~= views_of(keys@).skip(i + 1));
        }
        match v.get(keys[i]) {
            Some(x) => match x {
                JsonValue::Num(num) => match num.as_i {
                    Some(val) => {
                        return Some(val);
                    },
                    None => {},
                },
                _ => {},
            },
            None => {},
        }
        i += 1;
    }
    proof {
        assert(views_of(keys@).skip(n as int) =~= Seq::<Seq<char>>::empty());
    }
    None
}

} // verus!
