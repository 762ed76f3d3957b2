//! A payload tree: the shape of one decoded stream message, with numbers
//! already held as fixed-point integers scaled by [`crate::model::SCALE`].
//! The decode-and-validate step of the streaming client works on this
//! tree; what it reads is stated field by field.

use vstd::prelude::*;

verus! {

/// One node of a payload tree.
#[derive(Debug)]
pub enum JsonValue {
    Null,
    Bool(bool),
    /// A number, as a fixed-point integer scaled by [`crate::model::SCALE`].
    Num(i64),
    Str(String),
    Arr(Vec<JsonValue>),
    Obj(Vec<(String, JsonValue)>),
}

/// First binding of `key` among the fields of an object, if any.
pub open spec fn spec_lookup(fields: Seq<(String, JsonValue)>, key: Seq<char>) -> Option<
    JsonValue,
>
    decreases fields.len(),
{
    if fields.len() == 0 {
        None
    } else if fields[0].0@ == key {
        Some(fields[0].1)
    } else {
        spec_lookup(fields.skip(1), key)
    }
}

/// Field access: the value bound to `key` when the node is an object
/// that carries it.
pub open spec fn spec_get(v: JsonValue, key: Seq<char>) -> Option<JsonValue> {
    match v {
        JsonValue::Obj(fields) => spec_lookup(fields@, key),
        _ => None,
    }
}

impl JsonValue {
    /// Field access on an object node.
    pub fn get<'a>(&'a self, key: &str) -> (r: Option<&'a JsonValue>)
        ensures
            match r {
                Some(v) => spec_get(*self, key@) == Some(*v),
                None => spec_get(*self, key@) is None,
            },
    {
        match self {
            JsonValue::Obj(fields) => {
                let key_owned = key.to_owned();
                let ghost all = fields@;
                proof {
                    assert(all.skip(0) =~= all);
                }
                let mut i: usize = 0;
                while i < fields.len()
                    invariant
                        i <= fields.len(),
                        fields@ == all,
                        key_owned@ == key@,
                        spec_get(*self, key@) == spec_lookup(all, key@),
                        spec_lookup(all, key@) == spec_lookup(all.skip(i as int), key@),
                    decreases fields.len() - i,
                {
                    let hit = fields[i].0 == key_owned;
                    if hit {
                        proof {
                            assert(fields@[i as int] == all[i as int]);
                            assert(all[i as int].0@ == key@);
                            assert(all.skip(i as int)[0] == all[i as int]);
                            assert(spec_lookup(all.skip(i as int), key@) == Some(
                                all[i as int].1,
                            ));
                        }
                        return Some(&fields[i].1);
                    }
                    proof {
                        assert(all.skip(i as int)[0] == all[i as int]);
                        assert(all.skip(i as int).skip(1) =~= all.skip(i as int + 1));
                    }
                    i += 1;
                }
                proof {
                    assert(all.skip(i as int).len() == 0);
                }
                None
            },
            _ => None,
        }
    }

    /// The fixed-point number a node holds, if it is a number.
    pub fn as_num(&self) -> (r: Option<i64>)
        ensures
            match r {
                Some(n) => *self == JsonValue::Num(n),
                None => !(*self is Num),
            },
    {
        match self {
            JsonValue::Num(n) => Some(*n),
            _ => None,
        }
    }

    /// The text a node holds, if it is a string.
    pub fn as_text<'a>(&'a self) -> (r: Option<&'a String>)
        ensures
            match r {
                Some(s) => *self == JsonValue::Str(*s),
                None => !(*self is Str),
            },
    {
        match self {
            JsonValue::Str(s) => Some(s),
            _ => None,
        }
    }

    /// Whether the node is `null`.
    pub fn is_null(&self) -> (r: bool)
        ensures
            r == (*self is Null),
    {
        match self {
            JsonValue::Null => true,
            _ => false,
        }
    }
}

} // verus!
