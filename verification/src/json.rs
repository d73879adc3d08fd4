//! A model of JSON values, and lookup of object fields.
//!
//! The controller's responses reach the library as a tree of plain values;
//! the shell that performs the HTTP requests turns the wire text into this
//! tree before handing it over. Every decoding rule of the library is then
//! a verified function over `JsonValue`.

use vstd::prelude::*;

verus! {

/// One JSON value. Numbers that are not unsigned 64-bit integers (negative
/// or fractional ones) are kept only as `OtherNumber`: no field the library
/// reads may carry them, so their magnitude is never needed.
pub enum JsonValue {
    Null,
    Bool(bool),
    UInt(u64),
    OtherNumber,
    Text(String),
    Array(Vec<JsonValue>),
    Object(Vec<(String, JsonValue)>),
}

/// Why a payload was rejected. Each decoding function states exactly which
/// error it returns for which input shape.
#[derive(Clone, Copy, Debug, PartialEq, Eq, Structural)]
pub enum DecodeError {
    /// A flexible numeric field held neither an integer, a numeric string,
    /// nor null.
    ExpectedIntegerOrString,
    /// A record-or-empty field held neither an object nor an array.
    ExpectedRecordOrSequence,
    /// A structured payload was not an object.
    ExpectedObject,
    /// A list payload was not an array.
    ExpectedArray,
    /// A required textual field was not a string.
    ExpectedText,
    /// A numeric field was not an unsigned integer in range.
    ExpectedInteger,
    /// A required field was missing.
    MissingField,
    /// The envelope carried neither a result nor an error.
    MalformedEnvelope,
}

/// The value of `key` among `fields`: the first binding wins.
pub open spec fn lookup_fields(fields: Seq<(String, JsonValue)>, key: Seq<char>) -> Option<
    JsonValue,
>
    decreases fields.len(),
{
    if fields.len() == 0 {
        None
    } else if fields[0].0@ == key {
        Some(fields[0].1)
    } else {
        lookup_fields(fields.drop_first(), key)
    }
}

/// The value of `key` in `v`, when `v` is an object that binds it.
pub open spec fn field_of(v: JsonValue, key: Seq<char>) -> Option<JsonValue> {
    match v {
        JsonValue::Object(fields) => lookup_fields(fields@, key),
        _ => None,
    }
}

/// A lookup lands on position `j` when `j` binds `key` and no earlier
/// position does.
pub proof fn lemma_lookup_at(fields: Seq<(String, JsonValue)>, key: Seq<char>, j: int)
    requires
        0 <= j < fields.len(),
        fields[j].0@ == key,
        forall|k: int| 0 <= k < j ==> (#[trigger] fields[k]).0@ != key,
    ensures
        lookup_fields(fields, key) == Some(fields[j].1),
    decreases j,
{
    if j > 0 {
        assert(fields[0].0@ != key);
        assert(fields.drop_first()[j - 1] == fields[j]);
        assert forall|k: int| 0 <= k < j - 1 implies (#[trigger] fields.drop_first()[k]).0@
            != key by {
            assert(fields.drop_first()[k] == fields[k + 1]);
        }
        lemma_lookup_at(fields.drop_first(), key, j - 1);
    }
}

/// A lookup misses when no position binds `key`.
pub proof fn lemma_lookup_absent(fields: Seq<(String, JsonValue)>, key: Seq<char>)
    requires
        forall|k: int| 0 <= k < fields.len() ==> (#[trigger] fields[k]).0@ != key,
    ensures
        lookup_fields(fields, key) is None,
    decreases fields.len(),
{
    if fields.len() > 0 {
        assert(fields[0].0@ != key);
        assert forall|k: int| 0 <= k < fields.drop_first().len() implies (#[trigger] fields
            .drop_first()[k]).0@ != key by {
            assert(fields.drop_first()[k] == fields[k + 1]);
        }
        lemma_lookup_absent(fields.drop_first(), key);
    }
}

/// Looks `key` up in `v`, returning the first binding of an object.
pub fn get_field<'a>(v: &'a JsonValue, key: &str) -> (r: Option<&'a JsonValue>)
    ensures
        match r {
            Some(x) => field_of(*v, key@) == Some(*x),
            None => field_of(*v, key@) is None,
        },
{
    match v {
        JsonValue::Object(fields) => {
            let key_string = String::from_str(key);
            assert(fields@.skip(0) =~= fields@);
            let mut i: usize = 0;
            while i < fields.len()
                invariant
                    i <= fields@.len(),
                    key_string@ == key@,
                    field_of(*v, key@) == lookup_fields(fields@, key@),
                    lookup_fields(fields@, key@) == lookup_fields(fields@.skip(i as int), key@),
                decreases fields@.len() - i,
            {
                let pair = &fields[i];
                if pair.0 == key_string {
                    assert(fields@.skip(i as int)[0] == fields@[i as int]);
                    assert(lookup_fields(fields@.skip(i as int), key@) == Some(
                        fields@[i as int].1,
                    ));
                    return Some(&pair.1);
                }
                assert(fields@.skip(i as int).drop_first() =~= fields@.skip(i + 1));
                assert(fields@.skip(i as int)[0] == fields@[i as int]);
                i = i + 1;
            }
            assert(fields@.skip(i as int) =~= Seq::<(String, JsonValue)>::empty());
            None
        },
        _ => None,
    }
}

} // verus!
