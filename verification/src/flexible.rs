//! The flexible value decoder.
//!
//! The controller serializes some numeric fields inconsistently: a counter
//! may arrive as an integer, as a numeric string, as null, or not at all.
//! `decode_number` absorbs all those shapes into one optional value and
//! fails only on shapes the field can never take (booleans, arrays,
//! objects, numbers outside the unsigned range).

use vstd::prelude::*;

use crate::io_models::BatteryPercentage;
use crate::io_models::JeedomBatteryStatus;
use crate::json::field_of;
use crate::json::get_field;
use crate::json::DecodeError;
use crate::json::JsonValue;
use crate::numbers::dec_digits;
use crate::numbers::parse_u32;
use crate::numbers::parse_u32_spec;

verus! {

/// The unsigned 32-bit reading of an unsigned 64-bit integer field: the
/// low 32 bits. Upstream counters are small; an out-of-range value keeps
/// the upstream modular-cast behaviour rather than failing the parse.
pub open spec fn truncate_u32(n: u64) -> u32 {
    (n % 0x1_0000_0000) as u32
}

/// What flexible decoding of an optional numeric field yields:
/// - an absent or null field is absent;
/// - an integer is its low 32 bits;
/// - a string is its decimal worth, or absent when it has none;
/// - any other shape is an error.
pub open spec fn decode_number_spec(v: Option<JsonValue>) -> Result<Option<u32>, DecodeError> {
    match v {
        None => Ok(None),
        Some(JsonValue::Null) => Ok(None),
        Some(JsonValue::UInt(n)) => Ok(Some(truncate_u32(n))),
        Some(JsonValue::Text(s)) => Ok(parse_u32_spec(s@)),
        Some(_) => Err(DecodeError::ExpectedIntegerOrString),
    }
}

/// The owned value behind an optional reference, for contracts.
pub open spec fn copied(v: Option<&JsonValue>) -> Option<JsonValue> {
    match v {
        Some(x) => Some(*x),
        None => None,
    }
}

/// Decodes an optional numeric field that may arrive as an integer, a
/// numeric string, null, or not at all.
pub fn decode_number(v: Option<&JsonValue>) -> (r: Result<Option<u32>, DecodeError>)
    ensures
        r == decode_number_spec(copied(v)),
{
    match v {
        None => Ok(None),
        Some(JsonValue::Null) => Ok(None),
        Some(JsonValue::UInt(n)) => Ok(Some((*n % 0x1_0000_0000) as u32)),
        Some(JsonValue::Text(s)) => Ok(parse_u32(s.as_str())),
        Some(_) => Err(DecodeError::ExpectedIntegerOrString),
    }
}

/// An integer that fits the unsigned 32-bit range and its decimal string
/// form decode to the same value.
pub proof fn lemma_decode_number_integer_string_agree(n: u64, s: String)
    requires
        n <= u32::MAX,
        s@ == dec_digits(n as nat),
    ensures
        decode_number_spec(Some(JsonValue::UInt(n))) == decode_number_spec(
            Some(JsonValue::Text(s)),
        ),
{
    crate::numbers::lemma_parse_of_dec_digits(n as nat);
    assert(n % 0x1_0000_0000 == n);
}

/// A string field never fails flexible decoding: a string without a
/// decimal worth is read as absent, not as an error.
pub proof fn lemma_decode_number_string_never_errs(s: String)
    ensures
        decode_number_spec(Some(JsonValue::Text(s))) is Ok,
        parse_u32_spec(s@) is None ==> decode_number_spec(Some(JsonValue::Text(s))) == Ok::<
            Option<u32>,
            DecodeError,
        >(None),
{
}

/// What the optional battery level field yields: as a flexible number,
/// except that a present string without decimal worth keeps a present
/// level record with an empty reading.
pub open spec fn decode_battery_level_spec(v: Option<JsonValue>) -> Result<
    Option<BatteryPercentage>,
    DecodeError,
> {
    match v {
        None => Ok(None),
        Some(JsonValue::Null) => Ok(None),
        Some(JsonValue::UInt(n)) => Ok(Some(BatteryPercentage(Some(truncate_u32(n))))),
        Some(JsonValue::Text(s)) => Ok(Some(BatteryPercentage(parse_u32_spec(s@)))),
        Some(_) => Err(DecodeError::ExpectedIntegerOrString),
    }
}

/// Decodes the optional battery level field of a status block.
fn decode_battery_level(v: Option<&JsonValue>) -> (r: Result<Option<BatteryPercentage>, DecodeError>)
    ensures
        r == decode_battery_level_spec(copied(v)),
{
    match v {
        None => Ok(None),
        Some(JsonValue::Null) => Ok(None),
        Some(JsonValue::UInt(n)) => Ok(Some(BatteryPercentage(Some((*n % 0x1_0000_0000) as u32)))),
        Some(JsonValue::Text(s)) => Ok(Some(BatteryPercentage(parse_u32(s.as_str())))),
        Some(_) => Err(DecodeError::ExpectedIntegerOrString),
    }
}

/// What decoding a record-or-empty status field yields: an object is
/// read field by field, any array stands for an absent block, and any
/// other shape is an error.
pub open spec fn decode_status_spec(v: JsonValue) -> Result<
    Option<JeedomBatteryStatus>,
    DecodeError,
> {
    match v {
        JsonValue::Array(_) => Ok(None),
        JsonValue::Object(_) => match decode_number_spec(field_of(v, "batterydanger"@)) {
            Err(e) => Err(e),
            Ok(batterydanger) => match decode_number_spec(field_of(v, "batterywarning"@)) {
                Err(e) => Err(e),
                Ok(batterywarning) => match decode_battery_level_spec(field_of(v, "battery"@)) {
                    Err(e) => Err(e),
                    Ok(battery) => Ok(
                        Some(JeedomBatteryStatus { batterydanger, batterywarning, battery }),
                    ),
                },
            },
        },
        _ => Err(DecodeError::ExpectedRecordOrSequence),
    }
}

/// Decodes a device's status field, which arrives either as a keyed
/// record or as an empty array standing for no status block.
pub fn decode_status(v: &JsonValue) -> (r: Result<Option<JeedomBatteryStatus>, DecodeError>)
    ensures
        match r {
            Ok(st) => decode_status_spec(*v) == Ok::<Option<JeedomBatteryStatus>, DecodeError>(st),
            Err(e) => decode_status_spec(*v) == Err::<Option<JeedomBatteryStatus>, DecodeError>(e),
        },
{
    match v {
        JsonValue::Array(_) => Ok(None),
        JsonValue::Object(_) => {
            let batterydanger = match decode_number(get_field(v, "batterydanger")) {
                Ok(x) => x,
                Err(e) => {
                    return Err(e);
                },
            };
            let batterywarning = match decode_number(get_field(v, "batterywarning")) {
                Ok(x) => x,
                Err(e) => {
                    return Err(e);
                },
            };
            let battery = match decode_battery_level(get_field(v, "battery")) {
                Ok(x) => x,
                Err(e) => {
                    return Err(e);
                },
            };
            Ok(Some(JeedomBatteryStatus { batterydanger, batterywarning, battery }))
        },
        _ => Err(DecodeError::ExpectedRecordOrSequence),
    }
}

/// A status field that arrives as an array is an absent block, whatever
/// the array holds.
pub proof fn lemma_sequence_status_absent(elems: Vec<JsonValue>)
    ensures
        decode_status_spec(JsonValue::Array(elems)) == Ok::<
            Option<JeedomBatteryStatus>,
            DecodeError,
        >(None),
{
}

} // verus!
