use vstd::prelude::*;

verus! {

/// A structured value as carried by the request envelope.
/// Numbers keep their integer value; a number with a fraction or exponent is
/// kept in its written form.
pub enum JsonValue {
    Null,
    Bool(bool),
    /// A non-negative integer.
    UInt(u64),
    /// A negative integer.
    NegInt(i64),
    /// A number that is not an integer, as written.
    Float(String),
    Str(String),
    Array(Vec<JsonValue>),
    /// Members in the order they were given.
    Object(Vec<(String, JsonValue)>),
}

/// The value of the first member of `fields` named `key`.
pub open spec fn field_of(fields: Seq<(String, JsonValue)>, key: Seq<char>) -> Option<JsonValue>
    decreases fields.len(),
{
    if fields.len() == 0 {
        None
    } else if fields[0].0@ == key {
        Some(fields[0].1)
    } else {
        field_of(fields.skip(1), key)
    }
}

/// The first member of `v` named `key`, where `v` is an object.
pub open spec fn member_of(v: JsonValue, key: Seq<char>) -> Option<JsonValue> {
    match v {
        JsonValue::Object(fields) => field_of(fields@, key),
        _ => None,
    }
}

/// The value of `v` as a `u32`, where it is an integer in range.
pub open spec fn u32_of(v: JsonValue) -> Option<u32> {
    match v {
        JsonValue::UInt(n) => if n <= u32::MAX {
            Some(n as u32)
        } else {
            None
        },
        _ => None,
    }
}

/// The value of `v` as a string, where it is one.
pub open spec fn str_of(v: JsonValue) -> Option<String> {
    match v {
        JsonValue::Str(s) => Some(s),
        _ => None,
    }
}

/// The value of `v` as a boolean, where it is one.
pub open spec fn bool_of(v: JsonValue) -> Option<bool> {
    match v {
        JsonValue::Bool(b) => Some(b),
        _ => None,
    }
}

impl JsonValue {
    /// The first member named `key`, where `self` is an object.
    pub fn member(&self, key: &str) -> (r: Option<&JsonValue>)
        ensures
            r is None <==> member_of(*self, key@) is None,
            r matches Some(v) ==> member_of(*self, key@) == Some(*v),
    {
        match self {
            JsonValue::Object(fields) => {
                assert(member_of(*self, key@) == field_of(fields@, key@));
                let wanted = String::from_str(key);
                let n = fields.len();
                let mut i: usize = 0;
                assert(fields@.skip(0) == fields@);
                while i < n
                    invariant
                        n == fields@.len(),
                        i <= n,
                        wanted@ == key@,
                        member_of(*self, key@) == field_of(fields@, key@),
                        field_of(fields@, key@) == field_of(fields@.skip(i as int), key@),
                    decreases n - i,
                {
                    assert(fields@.skip(i as int).skip(1) == fields@.skip(i as int + 1));
                    assert(fields@.skip(i as int)[0] == fields@[i as int]);
                    if fields[i].0 == wanted {
                        return Some(&fields[i].1);
                    }
                    i = i + 1;
                }
                None
            },
            _ => None,
        }
    }

    /// What kind of value `self` is, in words.
    pub fn kind_name(&self) -> &'static str {
        match self {
            JsonValue::Null => "null",
            JsonValue::Bool(_) => "boolean",
            JsonValue::UInt(_) => "integer",
            JsonValue::NegInt(_) => "integer",
            JsonValue::Float(_) => "floating point",
            JsonValue::Str(_) => "string",
            JsonValue::Array(_) => "sequence",
            JsonValue::Object(_) => "map",
        }
    }
}

} // verus!
