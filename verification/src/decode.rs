//! Decoding of the controller's responses from the JSON value tree.
//!
//! Every response arrives in an envelope: an object binding `result` on
//! success, or `error` (with a code and a message) when the controller
//! rejects the call. The payload decoders below state exactly which tree
//! shapes they accept, which value they produce, and which error each
//! rejected shape earns.

use vstd::prelude::*;

use crate::flexible::decode_number;
use crate::flexible::decode_number_spec;
use crate::flexible::decode_status;
use crate::flexible::decode_status_spec;
use crate::io_models::JeedomBattery;
use crate::io_models::JeedomBatteryResult;
use crate::io_models::JeedomNotificationResult;
use crate::io_models::JeedomNotificationStatus;
use crate::io_models::JeedomPingResult;
use crate::io_models::JeedomVersionResult;
use crate::io_models::JeedomClientErrors;
use crate::io_models::JeedomClientErrorsView;
use crate::io_models::JeedomErrorContent;
use crate::io_models::JeedomErrorContentView;
use crate::io_models::JeedomGlobalSummary;
use crate::io_models::JeedomGlobalSummaryResult;
use crate::io_models::JeedomGlobalSummaryView;
use crate::io_models::JeedomRpcError;
use crate::io_models::JeedomSummary;
use crate::io_models::JeedomSummaryView;
use crate::json::field_of;
use crate::json::get_field;
use crate::json::DecodeError;
use crate::json::JsonValue;

verus! {

/// What a required textual field of `v` yields: missing and non-string
/// fields are errors.
pub open spec fn req_text_spec(v: JsonValue, key: Seq<char>) -> Result<Seq<char>, DecodeError> {
    match field_of(v, key) {
        None => Err(DecodeError::MissingField),
        Some(JsonValue::Text(s)) => Ok(s@),
        Some(_) => Err(DecodeError::ExpectedText),
    }
}

/// Reads a required textual field of `v`.
fn require_text(v: &JsonValue, key: &str) -> (r: Result<String, DecodeError>)
    ensures
        match r {
            Ok(s) => req_text_spec(*v, key@) == Ok::<Seq<char>, DecodeError>(s@),
            Err(e) => req_text_spec(*v, key@) == Err::<Seq<char>, DecodeError>(e),
        },
{
    match get_field(v, key) {
        None => Err(DecodeError::MissingField),
        Some(JsonValue::Text(s)) => Ok(s.clone()),
        Some(_) => Err(DecodeError::ExpectedText),
    }
}

/// What decoding one summary category record yields: an object with the
/// textual `key`, `name` and `unit` fields and a flexible `value`.
pub open spec fn decode_summary_item_spec(v: JsonValue) -> Result<JeedomSummaryView, DecodeError> {
    if !(v is Object) {
        Err(DecodeError::ExpectedObject)
    } else {
        match req_text_spec(v, "key"@) {
            Err(e) => Err(e),
            Ok(key) => match req_text_spec(v, "name"@) {
                Err(e) => Err(e),
                Ok(name) => match req_text_spec(v, "unit"@) {
                    Err(e) => Err(e),
                    Ok(unit) => match decode_number_spec(field_of(v, "value"@)) {
                        Err(e) => Err(e),
                        Ok(value) => Ok(JeedomSummaryView { key, name, unit, value }),
                    },
                },
            },
        }
    }
}

/// Decodes one summary category record.
pub fn decode_summary_item(v: &JsonValue) -> (r: Result<JeedomSummary, DecodeError>)
    ensures
        match r {
            Ok(s) => decode_summary_item_spec(*v) == Ok::<JeedomSummaryView, DecodeError>(s@),
            Err(e) => decode_summary_item_spec(*v) == Err::<JeedomSummaryView, DecodeError>(e),
        },
{
    match v {
        JsonValue::Object(_) => {},
        _ => {
            return Err(DecodeError::ExpectedObject);
        },
    }
    let key = match require_text(v, "key") {
        Ok(x) => x,
        Err(e) => {
            return Err(e);
        },
    };
    let name = match require_text(v, "name") {
        Ok(x) => x,
        Err(e) => {
            return Err(e);
        },
    };
    let unit = match require_text(v, "unit") {
        Ok(x) => x,
        Err(e) => {
            return Err(e);
        },
    };
    let value = match decode_number(get_field(v, "value")) {
        Ok(x) => x,
        Err(e) => {
            return Err(e);
        },
    };
    Ok(JeedomSummary { key, name, unit, value })
}

/// What a required summary sub-record of `v` yields.
pub open spec fn req_item_spec(v: JsonValue, key: Seq<char>) -> Result<
    JeedomSummaryView,
    DecodeError,
> {
    match field_of(v, key) {
        None => Err(DecodeError::MissingField),
        Some(x) => decode_summary_item_spec(x),
    }
}

/// Reads a required summary sub-record of `v`.
fn require_item(v: &JsonValue, key: &str) -> (r: Result<JeedomSummary, DecodeError>)
    ensures
        match r {
            Ok(s) => req_item_spec(*v, key@) == Ok::<JeedomSummaryView, DecodeError>(s@),
            Err(e) => req_item_spec(*v, key@) == Err::<JeedomSummaryView, DecodeError>(e),
        },
{
    match get_field(v, key) {
        None => Err(DecodeError::MissingField),
        Some(x) => decode_summary_item(x),
    }
}

/// What the optional `alarm` sub-record of `v` yields: absent or null
/// stands for a controller without that category.
pub open spec fn opt_alarm_spec(v: JsonValue) -> Result<Option<JeedomSummaryView>, DecodeError> {
    match field_of(v, "alarm"@) {
        None => Ok(None),
        Some(JsonValue::Null) => Ok(None),
        Some(x) => match decode_summary_item_spec(x) {
            Err(e) => Err(e),
            Ok(s) => Ok(Some(s)),
        },
    }
}

/// What decoding the global summary payload yields: an object with one
/// sub-record per category, `alarm` alone being optional.
pub open spec fn decode_global_summary_spec(v: JsonValue) -> Result<
    JeedomGlobalSummaryView,
    DecodeError,
> {
    if !(v is Object) {
        Err(DecodeError::ExpectedObject)
    } else {
        match req_item_spec(v, "security"@) {
            Err(e) => Err(e),
            Ok(security) => match req_item_spec(v, "motion"@) {
                Err(e) => Err(e),
                Ok(motion) => match req_item_spec(v, "door"@) {
                    Err(e) => Err(e),
                    Ok(door) => match req_item_spec(v, "windows"@) {
                        Err(e) => Err(e),
                        Ok(windows) => match req_item_spec(v, "shutter"@) {
                            Err(e) => Err(e),
                            Ok(shutter) => match req_item_spec(v, "light"@) {
                                Err(e) => Err(e),
                                Ok(light) => match req_item_spec(v, "outlet"@) {
                                    Err(e) => Err(e),
                                    Ok(outlet) => match req_item_spec(v, "temperature"@) {
                                        Err(e) => Err(e),
                                        Ok(temperature) => match req_item_spec(v, "humidity"@) {
                                            Err(e) => Err(e),
                                            Ok(humidity) => match req_item_spec(
                                                v,
                                                "luminosity"@,
                                            ) {
                                                Err(e) => Err(e),
                                                Ok(luminosity) => match req_item_spec(
                                                    v,
                                                    "power"@,
                                                ) {
                                                    Err(e) => Err(e),
                                                    Ok(power) => match opt_alarm_spec(v) {
                                                        Err(e) => Err(e),
                                                        Ok(alarm) => Ok(
                                                            JeedomGlobalSummaryView {
                                                                security,
                                                                motion,
                                                                door,
                                                                windows,
                                                                shutter,
                                                                light,
                                                                outlet,
                                                                temperature,
                                                                humidity,
                                                                luminosity,
                                                                power,
                                                                alarm,
                                                            },
                                                        ),
                                                    },
                                                },
                                            },
                                        },
                                    },
                                },
                            },
                        },
                    },
                },
            },
        }
    }
}

/// Decodes the global summary payload.
pub fn decode_global_summary(v: &JsonValue) -> (r: Result<JeedomGlobalSummary, DecodeError>)
    ensures
        match r {
            Ok(g) => decode_global_summary_spec(*v) == Ok::<JeedomGlobalSummaryView, DecodeError>(
                g@,
            ),
            Err(e) => decode_global_summary_spec(*v) == Err::<
                JeedomGlobalSummaryView,
                DecodeError,
            >(e),
        },
{
    match v {
        JsonValue::Object(_) => {},
        _ => {
            return Err(DecodeError::ExpectedObject);
        },
    }
    let security = match require_item(v, "security") {
        Ok(x) => x,
        Err(e) => {
            return Err(e);
        },
    };
    let motion = match require_item(v, "motion") {
        Ok(x) => x,
        Err(e) => {
            return Err(e);
        },
    };
    let door = match require_item(v, "door") {
        Ok(x) => x,
        Err(e) => {
            return Err(e);
        },
    };
    let windows = match require_item(v, "windows") {
        Ok(x) => x,
        Err(e) => {
            return Err(e);
        },
    };
    let shutter = match require_item(v, "shutter") {
        Ok(x) => x,
        Err(e) => {
            return Err(e);
        },
    };
    let light = match require_item(v, "light") {
        Ok(x) => x,
        Err(e) => {
            return Err(e);
        },
    };
    let outlet = match require_item(v, "outlet") {
        Ok(x) => x,
        Err(e) => {
            return Err(e);
        },
    };
    let temperature = match require_item(v, "temperature") {
        Ok(x) => x,
        Err(e) => {
            return Err(e);
        },
    };
    let humidity = match require_item(v, "humidity") {
        Ok(x) => x,
        Err(e) => {
            return Err(e);
        },
    };
    let luminosity = match require_item(v, "luminosity") {
        Ok(x) => x,
        Err(e) => {
            return Err(e);
        },
    };
    let power = match require_item(v, "power") {
        Ok(x) => x,
        Err(e) => {
            return Err(e);
        },
    };
    let alarm = match get_field(v, "alarm") {
        None => None,
        Some(JsonValue::Null) => None,
        Some(x) => match decode_summary_item(x) {
            Ok(s) => Some(s),
            Err(e) => {
                return Err(e);
            },
        },
    };
    Ok(
        JeedomGlobalSummary {
            security,
            motion,
            door,
            windows,
            shutter,
            light,
            outlet,
            temperature,
            humidity,
            luminosity,
            power,
            alarm,
        },
    )
}

/// What decoding an error envelope's content yields: an object with an
/// unsigned `code` in 32-bit range and a textual `message`.
pub open spec fn decode_error_content_spec(v: JsonValue) -> Result<
    JeedomErrorContentView,
    DecodeError,
> {
    if !(v is Object) {
        Err(DecodeError::ExpectedObject)
    } else {
        match field_of(v, "code"@) {
            None => Err(DecodeError::MissingField),
            Some(JsonValue::UInt(n)) => {
                if n <= u32::MAX {
                    match req_text_spec(v, "message"@) {
                        Err(e) => Err(e),
                        Ok(message) => Ok(
                            JeedomErrorContentView { code: n as u32, message },
                        ),
                    }
                } else {
                    Err(DecodeError::ExpectedInteger)
                }
            },
            Some(_) => Err(DecodeError::ExpectedInteger),
        }
    }
}

/// Decodes an error envelope's content.
pub fn decode_error_content(v: &JsonValue) -> (r: Result<JeedomErrorContent, DecodeError>)
    ensures
        match r {
            Ok(c) => decode_error_content_spec(*v) == Ok::<JeedomErrorContentView, DecodeError>(
                c@,
            ),
            Err(e) => decode_error_content_spec(*v) == Err::<JeedomErrorContentView, DecodeError>(
                e,
            ),
        },
{
    match v {
        JsonValue::Object(_) => {},
        _ => {
            return Err(DecodeError::ExpectedObject);
        },
    }
    let code: u32 = match get_field(v, "code") {
        None => {
            return Err(DecodeError::MissingField);
        },
        Some(JsonValue::UInt(n)) => {
            if *n <= u32::MAX as u64 {
                *n as u32
            } else {
                return Err(DecodeError::ExpectedInteger);
            }
        },
        Some(_) => {
            return Err(DecodeError::ExpectedInteger);
        },
    };
    let message = match require_text(v, "message") {
        Ok(x) => x,
        Err(e) => {
            return Err(e);
        },
    };
    Ok(JeedomErrorContent { code, message })
}

/// What decoding a whole error envelope yields: the object must bind
/// `error` to a well-formed content record.
pub open spec fn decode_rpc_error_spec(v: JsonValue) -> Result<
    JeedomErrorContentView,
    DecodeError,
> {
    match field_of(v, "error"@) {
        None => Err(DecodeError::MissingField),
        Some(e) => decode_error_content_spec(e),
    }
}

/// Decodes a whole error envelope.
pub fn decode_rpc_error(v: &JsonValue) -> (r: Result<JeedomRpcError, DecodeError>)
    ensures
        match r {
            Ok(c) => decode_rpc_error_spec(*v) == Ok::<JeedomErrorContentView, DecodeError>(c@),
            Err(e) => decode_rpc_error_spec(*v) == Err::<JeedomErrorContentView, DecodeError>(e),
        },
{
    match get_field(v, "error") {
        None => Err(DecodeError::MissingField),
        Some(e) => match decode_error_content(e) {
            Ok(c) => Ok(JeedomRpcError { error: c }),
            Err(e) => Err(e),
        },
    }
}

/// What unwrapping the envelope yields: the payload bound to `result`;
/// otherwise the controller's own error, decoded from `error`; otherwise
/// a malformed-envelope error.
pub open spec fn envelope_payload_spec(v: JsonValue) -> Result<JsonValue, JeedomClientErrorsView> {
    match field_of(v, "result"@) {
        Some(payload) => Ok(payload),
        None => match field_of(v, "error"@) {
            Some(e) => match decode_error_content_spec(e) {
                Ok(c) => Err(JeedomClientErrorsView::ApiError(c)),
                Err(d) => Err(JeedomClientErrorsView::DeserializationError(d)),
            },
            None => Err(
                JeedomClientErrorsView::DeserializationError(DecodeError::MalformedEnvelope),
            ),
        },
    }
}

/// Unwraps a response envelope, separating the controller's reported
/// errors from undecodable payloads.
pub fn envelope_payload<'a>(v: &'a JsonValue) -> (r: Result<&'a JsonValue, JeedomClientErrors>)
    ensures
        match r {
            Ok(p) => envelope_payload_spec(*v) == Ok::<JsonValue, JeedomClientErrorsView>(*p),
            Err(e) => envelope_payload_spec(*v) == Err::<JsonValue, JeedomClientErrorsView>(e@),
        },
{
    match get_field(v, "result") {
        Some(payload) => Ok(payload),
        None => match get_field(v, "error") {
            Some(e) => match decode_error_content(e) {
                Ok(c) => Err(JeedomClientErrors::ApiError(c)),
                Err(d) => Err(JeedomClientErrors::DeserializationError(d)),
            },
            None => Err(
                JeedomClientErrors::DeserializationError(DecodeError::MalformedEnvelope),
            ),
        },
    }
}

/// What decoding one device record yields: an object whose `status`
/// field holds a record-or-empty status block.
pub open spec fn decode_battery_spec(v: JsonValue) -> Result<JeedomBattery, DecodeError> {
    if !(v is Object) {
        Err(DecodeError::ExpectedObject)
    } else {
        match field_of(v, "status"@) {
            None => Err(DecodeError::MissingField),
            Some(s) => match decode_status_spec(s) {
                Err(e) => Err(e),
                Ok(status) => Ok(JeedomBattery { status }),
            },
        }
    }
}

/// Decodes one device record.
pub fn decode_battery(v: &JsonValue) -> (r: Result<JeedomBattery, DecodeError>)
    ensures
        match r {
            Ok(b) => decode_battery_spec(*v) == Ok::<JeedomBattery, DecodeError>(b),
            Err(e) => decode_battery_spec(*v) == Err::<JeedomBattery, DecodeError>(e),
        },
{
    match v {
        JsonValue::Object(_) => {},
        _ => {
            return Err(DecodeError::ExpectedObject);
        },
    }
    match get_field(v, "status") {
        None => Err(DecodeError::MissingField),
        Some(s) => match decode_status(s) {
            Err(e) => Err(e),
            Ok(status) => Ok(JeedomBattery { status }),
        },
    }
}

/// What decoding a device list yields: each element in turn, stopping at
/// the first element that fails.
pub open spec fn decode_batteries_spec(elems: Seq<JsonValue>) -> Result<
    Seq<JeedomBattery>,
    DecodeError,
>
    decreases elems.len(),
{
    if elems.len() == 0 {
        Ok(Seq::empty())
    } else {
        match decode_battery_spec(elems[0]) {
            Err(e) => Err(e),
            Ok(b) => match decode_batteries_spec(elems.drop_first()) {
                Err(e) => Err(e),
                Ok(rest) => Ok(seq![b] + rest),
            },
        }
    }
}

/// Device-list decoding splits over concatenation: the left part first,
/// then the right part, with the left part's error taking precedence.
proof fn lemma_decode_batteries_append(a: Seq<JsonValue>, b: Seq<JsonValue>)
    ensures
        decode_batteries_spec(a + b) == (match decode_batteries_spec(a) {
            Err(e) => Err(e),
            Ok(ra) => match decode_batteries_spec(b) {
                Err(e) => Err(e),
                Ok(rb) => Ok(ra + rb),
            },
        }),
    decreases a.len(),
{
    if a.len() == 0 {
        assert(a + b =~= b);
        match decode_batteries_spec(b) {
            Err(_) => {},
            Ok(rb) => {
                assert(Seq::<JeedomBattery>::empty() + rb =~= rb);
            },
        }
    } else {
        assert((a + b).len() > 0);
        assert((a + b)[0] == a[0]);
        assert((a + b).drop_first() =~= a.drop_first() + b);
        lemma_decode_batteries_append(a.drop_first(), b);
        match decode_battery_spec(a[0]) {
            Err(_) => {},
            Ok(x) => {
                match decode_batteries_spec(a.drop_first()) {
                    Err(_) => {},
                    Ok(ra) => {
                        match decode_batteries_spec(b) {
                            Err(_) => {},
                            Ok(rb) => {
                                assert(seq![x] + (ra + rb) =~= (seq![x] + ra) + rb);
                            },
                        }
                    },
                }
            },
        }
    }
}

/// What decoding a notification list yields: the plugin name of each
/// element in turn, stopping at the first element that fails.
pub open spec fn decode_notifications_spec(elems: Seq<JsonValue>) -> Result<
    Seq<Seq<char>>,
    DecodeError,
>
    decreases elems.len(),
{
    if elems.len() == 0 {
        Ok(Seq::empty())
    } else {
        match decode_notification_spec(elems[0]) {
            Err(e) => Err(e),
            Ok(p) => match decode_notifications_spec(elems.drop_first()) {
                Err(e) => Err(e),
                Ok(rest) => Ok(seq![p] + rest),
            },
        }
    }
}

/// What decoding one notification record yields: its plugin name.
pub open spec fn decode_notification_spec(v: JsonValue) -> Result<Seq<char>, DecodeError> {
    if !(v is Object) {
        Err(DecodeError::ExpectedObject)
    } else {
        req_text_spec(v, "plugin"@)
    }
}

/// Decodes one notification record.
pub fn decode_notification(v: &JsonValue) -> (r: Result<JeedomNotificationStatus, DecodeError>)
    ensures
        match r {
            Ok(n) => decode_notification_spec(*v) == Ok::<Seq<char>, DecodeError>(n@),
            Err(e) => decode_notification_spec(*v) == Err::<Seq<char>, DecodeError>(e),
        },
{
    match v {
        JsonValue::Object(_) => {},
        _ => {
            return Err(DecodeError::ExpectedObject);
        },
    }
    match require_text(v, "plugin") {
        Ok(plugin) => Ok(JeedomNotificationStatus { plugin }),
        Err(e) => Err(e),
    }
}

/// The plugin names of a decoded notification list.
pub open spec fn plugins_of(s: Seq<JeedomNotificationStatus>) -> Seq<Seq<char>> {
    Seq::new(s.len(), |i: int| s[i]@)
}

/// Notification-list decoding splits over concatenation like device-list
/// decoding does.
proof fn lemma_decode_notifications_append(a: Seq<JsonValue>, b: Seq<JsonValue>)
    ensures
        decode_notifications_spec(a + b) == (match decode_notifications_spec(a) {
            Err(e) => Err(e),
            Ok(ra) => match decode_notifications_spec(b) {
                Err(e) => Err(e),
                Ok(rb) => Ok(ra + rb),
            },
        }),
    decreases a.len(),
{
    if a.len() == 0 {
        assert(a + b =~= b);
        match decode_notifications_spec(b) {
            Err(_) => {},
            Ok(rb) => {
                assert(Seq::<Seq<char>>::empty() + rb =~= rb);
            },
        }
    } else {
        assert((a + b).len() > 0);
        assert((a + b)[0] == a[0]);
        assert((a + b).drop_first() =~= a.drop_first() + b);
        lemma_decode_notifications_append(a.drop_first(), b);
        match decode_notification_spec(a[0]) {
            Err(_) => {},
            Ok(x) => {
                match decode_notifications_spec(a.drop_first()) {
                    Err(_) => {},
                    Ok(ra) => {
                        match decode_notifications_spec(b) {
                            Err(_) => {},
                            Ok(rb) => {
                                assert(seq![x] + (ra + rb) =~= (seq![x] + ra) + rb);
                            },
                        }
                    },
                }
            },
        }
    }
}

/// What the ping response yields: a textual payload.
pub open spec fn decode_ping_response_spec(v: JsonValue) -> Result<
    Seq<char>,
    JeedomClientErrorsView,
> {
    match envelope_payload_spec(v) {
        Err(e) => Err(e),
        Ok(JsonValue::Text(s)) => Ok(s@),
        Ok(_) => Err(JeedomClientErrorsView::DeserializationError(DecodeError::ExpectedText)),
    }
}

/// Decodes a ping response.
pub fn decode_ping_response(v: &JsonValue) -> (r: Result<JeedomPingResult, JeedomClientErrors>)
    ensures
        match r {
            Ok(p) => decode_ping_response_spec(*v) == Ok::<Seq<char>, JeedomClientErrorsView>(p@),
            Err(e) => decode_ping_response_spec(*v) == Err::<Seq<char>, JeedomClientErrorsView>(
                e@,
            ),
        },
{
    let payload = match envelope_payload(v) {
        Ok(p) => p,
        Err(e) => {
            return Err(e);
        },
    };
    match payload {
        JsonValue::Text(s) => Ok(JeedomPingResult { result: s.clone() }),
        _ => Err(JeedomClientErrors::DeserializationError(DecodeError::ExpectedText)),
    }
}

/// What the version response yields: a textual payload.
pub open spec fn decode_version_response_spec(v: JsonValue) -> Result<
    Seq<char>,
    JeedomClientErrorsView,
> {
    decode_ping_response_spec(v)
}

/// Decodes a version response.
pub fn decode_version_response(v: &JsonValue) -> (r: Result<
    JeedomVersionResult,
    JeedomClientErrors,
>)
    ensures
        match r {
            Ok(p) => decode_version_response_spec(*v) == Ok::<Seq<char>, JeedomClientErrorsView>(
                p@,
            ),
            Err(e) => decode_version_response_spec(*v) == Err::<
                Seq<char>,
                JeedomClientErrorsView,
            >(e@),
        },
{
    let payload = match envelope_payload(v) {
        Ok(p) => p,
        Err(e) => {
            return Err(e);
        },
    };
    match payload {
        JsonValue::Text(s) => Ok(JeedomVersionResult { result: s.clone() }),
        _ => Err(JeedomClientErrors::DeserializationError(DecodeError::ExpectedText)),
    }
}

/// What the global summary response yields.
pub open spec fn decode_global_summary_response_spec(v: JsonValue) -> Result<
    JeedomGlobalSummaryView,
    JeedomClientErrorsView,
> {
    match envelope_payload_spec(v) {
        Err(e) => Err(e),
        Ok(p) => match decode_global_summary_spec(p) {
            Ok(g) => Ok(g),
            Err(d) => Err(JeedomClientErrorsView::DeserializationError(d)),
        },
    }
}

/// Decodes a global summary response.
pub fn decode_global_summary_response(v: &JsonValue) -> (r: Result<
    JeedomGlobalSummaryResult,
    JeedomClientErrors,
>)
    ensures
        match r {
            Ok(g) => decode_global_summary_response_spec(*v) == Ok::<
                JeedomGlobalSummaryView,
                JeedomClientErrorsView,
            >(g.result@),
            Err(e) => decode_global_summary_response_spec(*v) == Err::<
                JeedomGlobalSummaryView,
                JeedomClientErrorsView,
            >(e@),
        },
{
    let payload = match envelope_payload(v) {
        Ok(p) => p,
        Err(e) => {
            return Err(e);
        },
    };
    match decode_global_summary(payload) {
        Ok(g) => Ok(JeedomGlobalSummaryResult { result: g }),
        Err(d) => Err(JeedomClientErrors::DeserializationError(d)),
    }
}

/// What the battery status response yields: one device record per
/// element of the payload array.
pub open spec fn decode_battery_response_spec(v: JsonValue) -> Result<
    Seq<JeedomBattery>,
    JeedomClientErrorsView,
> {
    match envelope_payload_spec(v) {
        Err(e) => Err(e),
        Ok(JsonValue::Array(elems)) => match decode_batteries_spec(elems@) {
            Ok(list) => Ok(list),
            Err(d) => Err(JeedomClientErrorsView::DeserializationError(d)),
        },
        Ok(_) => Err(JeedomClientErrorsView::DeserializationError(DecodeError::ExpectedArray)),
    }
}

/// Decodes a battery status response.
pub fn decode_battery_response(v: &JsonValue) -> (r: Result<
    JeedomBatteryResult,
    JeedomClientErrors,
>)
    ensures
        match r {
            Ok(b) => decode_battery_response_spec(*v) == Ok::<
                Seq<JeedomBattery>,
                JeedomClientErrorsView,
            >(b.result@),
            Err(e) => decode_battery_response_spec(*v) == Err::<
                Seq<JeedomBattery>,
                JeedomClientErrorsView,
            >(e@),
        },
{
    let payload = match envelope_payload(v) {
        Ok(p) => p,
        Err(e) => {
            return Err(e);
        },
    };
    let elems: &Vec<JsonValue> = match payload {
        JsonValue::Array(a) => a,
        _ => {
            return Err(JeedomClientErrors::DeserializationError(DecodeError::ExpectedArray));
        },
    };
    let mut out: Vec<JeedomBattery> = Vec::new();
    let mut i: usize = 0;
    proof {
        assert(elems@.take(0) =~= Seq::<JsonValue>::empty());
    }
    while i < elems.len()
        invariant
            i <= elems@.len(),
            envelope_payload_spec(*v) == Ok::<JsonValue, JeedomClientErrorsView>(*payload),
            *payload is Array,
            payload->Array_0 == *elems,
            decode_batteries_spec(elems@.take(i as int)) == Ok::<Seq<JeedomBattery>, DecodeError>(
                out@,
            ),
        decreases elems@.len() - i,
    {
        proof {
            assert(elems@.take(i as int).push(elems@[i as int]) =~= elems@.take(i + 1));
            assert(elems@.take(i as int) + seq![elems@[i as int]] =~= elems@.take(i + 1));
            lemma_decode_batteries_append(elems@.take(i as int), seq![elems@[i as int]]);
            assert(seq![elems@[i as int]][0] == elems@[i as int]);
            assert(seq![elems@[i as int]].drop_first() =~= Seq::<JsonValue>::empty());
        }
        match decode_battery(&elems[i]) {
            Ok(b) => {
                let ghost before = out@;
                out.push(b);
                proof {
                    assert(decode_batteries_spec(Seq::<JsonValue>::empty()) == Ok::<
                        Seq<JeedomBattery>,
                        DecodeError,
                    >(Seq::empty()));
                    let one = decode_batteries_spec(seq![elems@[i as int]]);
                    assert(one == Ok::<Seq<JeedomBattery>, DecodeError>(
                        seq![b] + Seq::<JeedomBattery>::empty(),
                    ));
                    assert(out@ =~= before + (seq![b] + Seq::<JeedomBattery>::empty()));
                }
            },
            Err(e) => {
                proof {
                    assert(decode_batteries_spec(elems@.take(i + 1)) == Err::<
                        Seq<JeedomBattery>,
                        DecodeError,
                    >(e));
                    assert(elems@.take(i + 1) + elems@.skip(i + 1) =~= elems@);
                    lemma_decode_batteries_append(elems@.take(i + 1), elems@.skip(i + 1));
                }
                return Err(JeedomClientErrors::DeserializationError(e));
            },
        }
        i = i + 1;
    }
    proof {
        assert(elems@.take(elems@.len() as int) =~= elems@);
    }
    Ok(JeedomBatteryResult { result: out })
}

/// What the notification response yields: the plugin name of each
/// element of the payload array.
pub open spec fn decode_notification_response_spec(v: JsonValue) -> Result<
    Seq<Seq<char>>,
    JeedomClientErrorsView,
> {
    match envelope_payload_spec(v) {
        Err(e) => Err(e),
        Ok(JsonValue::Array(elems)) => match decode_notifications_spec(elems@) {
            Ok(list) => Ok(list),
            Err(d) => Err(JeedomClientErrorsView::DeserializationError(d)),
        },
        Ok(_) => Err(JeedomClientErrorsView::DeserializationError(DecodeError::ExpectedArray)),
    }
}

/// Decodes a notification response.
pub fn decode_notification_response(v: &JsonValue) -> (r: Result<
    JeedomNotificationResult,
    JeedomClientErrors,
>)
    ensures
        match r {
            Ok(n) => decode_notification_response_spec(*v) == Ok::<
                Seq<Seq<char>>,
                JeedomClientErrorsView,
            >(plugins_of(n.result@)),
            Err(e) => decode_notification_response_spec(*v) == Err::<
                Seq<Seq<char>>,
                JeedomClientErrorsView,
            >(e@),
        },
{
    let payload = match envelope_payload(v) {
        Ok(p) => p,
        Err(e) => {
            return Err(e);
        },
    };
    let elems: &Vec<JsonValue> = match payload {
        JsonValue::Array(a) => a,
        _ => {
            return Err(JeedomClientErrors::DeserializationError(DecodeError::ExpectedArray));
        },
    };
    let mut out: Vec<JeedomNotificationStatus> = Vec::new();
    let mut i: usize = 0;
    proof {
        assert(elems@.take(0) =~= Seq::<JsonValue>::empty());
        assert(plugins_of(out@) =~= Seq::<Seq<char>>::empty());
    }
    while i < elems.len()
        invariant
            i <= elems@.len(),
            envelope_payload_spec(*v) == Ok::<JsonValue, JeedomClientErrorsView>(*payload),
            *payload is Array,
            payload->Array_0 == *elems,
            decode_notifications_spec(elems@.take(i as int)) == Ok::<Seq<Seq<char>>, DecodeError>(
                plugins_of(out@),
            ),
        decreases elems@.len() - i,
    {
        proof {
            assert(elems@.take(i as int) + seq![elems@[i as int]] =~= elems@.take(i + 1));
            lemma_decode_notifications_append(elems@.take(i as int), seq![elems@[i as int]]);
            assert(seq![elems@[i as int]][0] == elems@[i as int]);
            assert(seq![elems@[i as int]].drop_first() =~= Seq::<JsonValue>::empty());
        }
        match decode_notification(&elems[i]) {
            Ok(n) => {
                let ghost before = out@;
                out.push(n);
                proof {
                    assert(decode_notifications_spec(Seq::<JsonValue>::empty()) == Ok::<
                        Seq<Seq<char>>,
                        DecodeError,
                    >(Seq::empty()));
                    let one = decode_notifications_spec(seq![elems@[i as int]]);
                    assert(one == Ok::<Seq<Seq<char>>, DecodeError>(
                        seq![n@] + Seq::<Seq<char>>::empty(),
                    ));
                    assert(plugins_of(out@) =~= plugins_of(before) + (seq![n@]
                        + Seq::<Seq<char>>::empty()));
                }
            },
            Err(e) => {
                proof {
                    assert(decode_notifications_spec(elems@.take(i + 1)) == Err::<
                        Seq<Seq<char>>,
                        DecodeError,
                    >(e));
                    assert(elems@.take(i + 1) + elems@.skip(i + 1) =~= elems@);
                    lemma_decode_notifications_append(elems@.take(i + 1), elems@.skip(i + 1));
                }
                return Err(JeedomClientErrors::DeserializationError(e));
            },
        }
        i = i + 1;
    }
    proof {
        assert(elems@.take(elems@.len() as int) =~= elems@);
    }
    Ok(JeedomNotificationResult { result: out })
}

} // verus!
