use jeedom_summary::decode::decode_battery_response;
use jeedom_summary::decode::decode_global_summary_response;
use jeedom_summary::decode::decode_notification_response;
use jeedom_summary::decode::decode_ping_response;
use jeedom_summary::decode::decode_rpc_error;
use jeedom_summary::flexible::decode_number;
use jeedom_summary::flexible::decode_status;
use jeedom_summary::io_models::JeedomClientErrors;
use jeedom_summary::io_models::JeedomGlobalSummaryResult;
use jeedom_summary::io_models::JeedomRpcError;
use jeedom_summary::json::DecodeError;
use jeedom_summary::JsonValue;

fn convert(v: serde_json::Value) -> JsonValue {
    match v {
        serde_json::Value::Null => JsonValue::Null,
        serde_json::Value::Bool(b) => JsonValue::Bool(b),
        serde_json::Value::Number(n) => match n.as_u64() {
            Some(u) => JsonValue::UInt(u),
            None => JsonValue::OtherNumber,
        },
        serde_json::Value::String(s) => JsonValue::Text(s),
        serde_json::Value::Array(a) => JsonValue::Array(a.into_iter().map(convert).collect()),
        serde_json::Value::Object(m) => {
            JsonValue::Object(m.into_iter().map(|(k, x)| (k, convert(x))).collect())
        }
    }
}

fn tree(text: &str) -> JsonValue {
    convert(serde_json::from_str::<serde_json::Value>(text).expect("the test input is valid JSON"))
}

#[test]
fn global_status_deserialize() {
    let request_result = r#"
{
    "jsonrpc": "2.0",
    "id": "1",
    "result": {
        "security": {
            "key": "security",
            "name": "Alerte",
            "calcul": "sum",
            "icon": "<i class=\"icon jeedom-alerte2\"></i>",
            "iconnul": "",
            "unit": "",
            "hidenumber": "0",
            "hidenulnumber": "0",
            "count": "binary",
            "allowDisplayZero": "0",
            "ignoreIfCmdOlderThan": "",
            "value": 0
        },
        "motion": {
            "key": "motion",
            "name": "Mouvement",
            "calcul": "sum",
            "icon": "<i class=\"icon jeedom-mouvement\"></i>",
            "iconnul": "",
            "unit": "",
            "hidenumber": "0",
            "hidenulnumber": "0",
            "count": "binary",
            "allowDisplayZero": "0",
            "ignoreIfCmdOlderThan": "",
            "value": 0
        },
        "door": {
            "key": "door",
            "name": "Porte",
            "calcul": "sum",
            "icon": "<i class=\"icon jeedom-porte-ouverte\"></i>",
            "iconnul": "",
            "unit": "",
            "hidenumber": "0",
            "hidenulnumber": "0",
            "count": "binary",
            "allowDisplayZero": "0",
            "ignoreIfCmdOlderThan": "",
            "value": 1
        },
        "windows": {
            "key": "windows",
            "name": "Fenu00eatre",
            "calcul": "sum",
            "icon": "<i class=\"icon jeedom-fenetre-ouverte\"></i>",
            "iconnul": "",
            "unit": "",
            "hidenumber": "0",
            "hidenulnumber": "0",
            "count": "binary",
            "allowDisplayZero": "0",
            "ignoreIfCmdOlderThan": "",
            "value": 0
        },
        "shutter": {
            "key": "shutter",
            "name": "Volet",
            "calcul": "sum",
            "icon": "<i class=\"icon jeedom-volet-ouvert\"></i>",
            "iconnul": "",
            "unit": "",
            "hidenumber": "0",
            "hidenulnumber": "0",
            "count": "binary",
            "allowDisplayZero": "0",
            "ignoreIfCmdOlderThan": "",
            "value": null
        },
        "light": {
            "key": "light",
            "name": "Lumiu00e8re",
            "calcul": "sum",
            "icon": "<i class=\"icon jeedom-lumiere-on\"></i>",
            "iconnul": "",
            "unit": "",
            "hidenumber": "0",
            "hidenulnumber": "0",
            "count": "binary",
            "allowDisplayZero": "0",
            "ignoreIfCmdOlderThan": "",
            "value": 0
        },
        "outlet": {
            "key": "outlet",
            "name": "Prise",
            "calcul": "sum",
            "icon": "<i class=\"icon jeedom-prise\"></i>",
            "iconnul": "",
            "unit": "",
            "hidenumber": "0",
            "hidenulnumber": "0",
            "count": "binary",
            "allowDisplayZero": "0",
            "ignoreIfCmdOlderThan": "",
            "value": 2
        },
        "temperature": {
            "key": "temperature",
            "name": "Tempu00e9rature",
            "calcul": "avg",
            "icon": "<i class=\"icon divers-thermometer31\"></i>",
            "iconnul": "",
            "unit": "u00b0C",
            "hidenumber": "0",
            "hidenulnumber": "0",
            "count": "",
            "allowDisplayZero": "1",
            "ignoreIfCmdOlderThan": "",
            "value": null
        },
        "humidity": {
            "key": "humidity",
            "name": "Humiditu00e9",
            "calcul": "avg",
            "icon": "<i class=\"fa fa-tint\"></i>",
            "iconnul": "",
            "unit": "%",
            "hidenumber": "0",
            "hidenulnumber": "0",
            "count": "",
            "allowDisplayZero": "1",
            "ignoreIfCmdOlderThan": "",
            "value": null
        },
        "luminosity": {
            "key": "luminosity",
            "name": "Luminositu00e9",
            "calcul": "avg",
            "icon": "<i class=\"icon meteo-soleil\"></i>",
            "iconnul": "",
            "unit": "lx",
            "hidenumber": "0",
            "hidenulnumber": "0",
            "count": "",
            "allowDisplayZero": "0",
            "ignoreIfCmdOlderThan": "",
            "value": null
        },
        "power": {
            "key": "power",
            "name": "Puissance",
            "calcul": "sum",
            "icon": "<i class=\"fa fa-bolt\"></i>",
            "iconnul": "",
            "unit": "W",
            "hidenumber": "0",
            "hidenulnumber": "0",
            "count": "",
            "allowDisplayZero": "0",
            "ignoreIfCmdOlderThan": "",
            "value": null
        },
        "alarm": {
            "key": "alarm",
            "name": "Alarme",
            "calcul": "sum",
            "icon": "<i class=\"icon jeedom-lock-ferme\"></i>",
            "iconnul": "",
            "unit": "",
            "hidenumber": "0",
            "hidenulnumber": "0",
            "count": "binary",
            "allowDisplayZero": "0",
            "ignoreIfCmdOlderThan": "",
            "value": 0
        }
    }
}
    "#;
    let x = decode_global_summary_response(&tree(request_result));
    assert!(x.is_ok());
    let summary: JeedomGlobalSummaryResult = x.unwrap();
    assert_eq!(summary.result.door.value, Some(1));
    assert_eq!(summary.result.outlet.value, Some(2));
    assert_eq!(summary.result.shutter.value, None);
    assert!(summary.result.alarm.is_some());
}

#[test]
fn battery_status_deserialize() {
    let request_result = r#"
{
    "id": "1",
    "jsonrpc": "2.0",
    "result": [
        {
            "cache": {
                "waiting": []
            },
            "category": {
                "automatism": "0",
                "default": "0",
                "energy": "0",
                "heating": "0",
                "light": "0",
                "multimedia": "0",
                "opening": "0",
                "security": "0"
            },
            "comment": null,
            "configuration": {
                "createtime": "2023-01-30 10:39:21",
                "firmwareVersion": "1.0",
                "interview": "complete",
                "manufacturer_id": 134,
                "product_id": 90,
                "product_name": "ZW090 - Zu2010Stick Gen5 USB Controller",
                "product_type": 1,
                "refreshes": [],
                "updatetime": "2023-01-30 11:53:12"
            },
            "display": {
                "backGraph::info": 0
            },
            "eqType_name": "zwavejs",
            "generic_type": null,
            "id": "576",
            "isEnable": "1",
            "isVisible": "0",
            "logicalId": "1",
            "name": "1 - AEON Labs Zu2010Stick Gen5 USB Controller ZW090",
            "object_id": null,
            "order": "9999",
            "status": {
                "danger": 0,
                "lastCommunication": "2023-01-31 08:43:32",
                "timeout": 0,
                "warning": 0
            },
            "tags": null,
            "timeout": null
        },
        {
            "cache": [],
            "category": {
                "automatism": "0",
                "default": "1",
                "energy": "0",
                "heating": "0",
                "light": "0",
                "multimedia": "1",
                "opening": "0",
                "security": "0"
            },
            "comment": null,
            "configuration": {
                "IPV4": "0",
                "IPV6": "0",
                "VersionLogicalID": "2.1",
                "action": "",
                "autorefresh": "*/5 * * * *",
                "createtime": "2021-09-15 09:10:14",
                "eq_group": "system",
                "info": "",
                "logicalID": "airmedia",
                "type": "",
                "type2": "",
                "updatetime": "2022-03-17 09:55:19"
            },
            "display": [],
            "eqType_name": "Freebox_OS",
            "generic_type": null,
            "id": "382",
            "isEnable": "0",
            "isVisible": "0",
            "logicalId": "airmedia",
            "name": "Air Mu00e9dia",
            "object_id": null,
            "order": "9999",
            "status": [],
            "tags": null,
            "timeout": null
        },
        {
            "cache": {
                "waiting": []
            },
            "category": {
                "automatism": "0",
                "default": "0",
                "energy": "0",
                "heating": "1",
                "light": "0",
                "multimedia": "0",
                "opening": "0",
                "security": "0"
            },
            "comment": null,
            "configuration": {
                "battery_type": "2x1.5V AA",
                "createtime": "2023-01-30 10:39:22",
                "firmwareVersion": "0.16",
                "interview": "complete",
                "manufacturer_id": 328,
                "product_id": 1,
                "product_name": "Spirit - Thermostatic Valve",
                "product_type": 3,
                "refreshes": [],
                "updatetime": "2023-01-30 23:54:42"
            },
            "display": {
                "backGraph::info": 0,
                "height": "474px",
                "width": "232px"
            },
            "eqType_name": "zwavejs",
            "generic_type": null,
            "id": "578",
            "isEnable": "1",
            "isVisible": "1",
            "logicalId": "22",
            "name": "22 - Radiateur",
            "object_id": "12",
            "order": "11",
            "status": {
                "battery": 70,
                "batteryDatetime": "2023-01-31 08:44:49",
                "batterydanger": 0,
                "batterywarning": 0,
                "danger": 0,
                "lastCommunication": "2023-01-31 13:27:06",
                "timeout": 0,
                "warning": 0
            },
            "tags": null,
            "timeout": null
        },
        {
            "cache": {
                "waiting": []
            },
            "category": {
                "automatism": "0",
                "default": "0",
                "energy": "0",
                "heating": "0",
                "light": "0",
                "multimedia": "0",
                "opening": "1",
                "security": "1"
            },
            "comment": null,
            "configuration": {
                "battery_type": "1x3.6V ER14250",
                "batterytime": "2023-01-30 13:36:30",
                "createtime": "2023-01-30 10:47:21",
                "firmwareVersion": "3.2",
                "interview": "complete",
                "lastWakeUp": 1675158665,
                "manufacturer_id": 271,
                "product_id": 4096,
                "product_name": "FGDW002 - Fibaro Door Window Sensor 2",
                "product_type": 1794,
                "refreshes": [],
                "updatetime": "2023-01-31 10:51:05"
            },
            "display": {
                "backGraph::info": 0,
                "height": "200px",
                "width": "232px"
            },
            "eqType_name": "zwavejs",
            "generic_type": null,
            "id": "618",
            "isEnable": "1",
            "isVisible": "1",
            "logicalId": "39",
            "name": "39 - Fenetre",
            "object_id": "12",
            "order": "10",
            "status": {
                "battery": 100,
                "batteryDatetime": "2023-01-31 08:43:33",
                "batterydanger": 0,
                "batterywarning": 0,
                "danger": 0,
                "lastCommunication": "2023-01-31 13:05:53",
                "timeout": 0,
                "warning": 0
            },
            "tags": null,
            "timeout": null
        }
    ]
}
        "#;
    let x = decode_battery_response(&tree(request_result));
    assert!(x.is_ok());
    let batteries = x.unwrap();
    assert_eq!(batteries.result.len(), 4);
    assert!(batteries.result[0].status.is_some());
    assert!(batteries.result[1].status.is_none());
    let third = batteries.result[2].status.as_ref().unwrap();
    assert_eq!(third.batterydanger, Some(0));
    assert_eq!(third.battery.as_ref().unwrap().0, Some(70));
}

#[test]
fn notification_deserialize() {
    let request_result = r#"
        {
            "id": "1",
            "jsonrpc": "2.0",
            "result": [
                {
                    "action": "",
                    "date": "2023-02-10 16:38:02",
                    "id": "2666",
                    "logicalId": "update::xxx",
                    "message": "De nouvelles mises u00e0 jour sont disponibles : Freebox_OS",
                    "occurrences": null,
                    "plugin": "update"
                },
                {
                    "action": "",
                    "date": "2023-02-09 07:17:41",
                    "id": "2665",
                    "logicalId": "mobile::yyy",
                    "message": "Erreur exu00e9cution de la commande [Parcelle][Pixel 5][Notification] : Echec de l&apos;envoi de la notification :{&quot;state&quot;:&quot;nok&quot;,&quot;error&quot;:&quot;{&quot;code&quot;:&quot;messaging/invalid-argument&quot;,&quot;message&quot;:&quot;The registration token is not a valid FCM registration token&quot;}&quot;}",
                    "occurrences": "3",
                    "plugin": "mobile"
                }
            ]
        }
        "#;
    let x = decode_notification_response(&tree(request_result));
    assert!(x.is_ok());
    let notifications = x.unwrap();
    assert_eq!(notifications.result.len(), 2);
    assert_eq!(notifications.result[0].plugin, "update");
    assert_eq!(notifications.result[1].plugin, "mobile");
}

#[test]
fn test_deserialize_error() {
    let request_result = r#"
        {
            "jsonrpc":"2.0",
            "id":99999,
            "error":
                {
                    "code":2,
                    "message":"Vous n'u00eates pas autorisu00e9 u00e0 effectuer cette action"
                }
        }
        "#;
    let x = decode_rpc_error(&tree(request_result));
    assert!(x.is_ok());
    let err: JeedomRpcError = x.unwrap();
    assert_eq!(err.error.code, 2);
    println!("err: {err:?}");
}

#[test]
fn error_envelope_is_an_api_error() {
    let text = r#"{"jsonrpc":"2.0","id":1,"error":{"code":32,"message":"not allowed"}}"#;
    match decode_ping_response(&tree(text)) {
        Err(JeedomClientErrors::ApiError(content)) => {
            assert_eq!(content.code, 32);
            assert_eq!(content.message, "not allowed");
        }
        other => panic!("expected an API error, got {other:?}"),
    }
}

#[test]
fn malformed_envelope_is_a_decode_error() {
    let text = r#"{"jsonrpc":"2.0","id":1}"#;
    match decode_ping_response(&tree(text)) {
        Err(JeedomClientErrors::DeserializationError(e)) => {
            assert_eq!(e, DecodeError::MalformedEnvelope);
        }
        other => panic!("expected a decode error, got {other:?}"),
    }
}

#[test]
fn ping_decodes_its_payload_string() {
    let text = r#"{"jsonrpc":"2.0","id":1,"result":"pong"}"#;
    let pong = decode_ping_response(&tree(text)).unwrap();
    assert_eq!(pong.result, "pong");
}

#[test]
fn missing_category_is_a_missing_field() {
    let text = r#"{"jsonrpc":"2.0","id":1,"result":{}}"#;
    match decode_global_summary_response(&tree(text)) {
        Err(JeedomClientErrors::DeserializationError(e)) => {
            assert_eq!(e, DecodeError::MissingField);
        }
        other => panic!("expected a decode error, got {other:?}"),
    }
}

#[test]
fn summary_counter_accepts_a_numeric_string() {
    let item = tree(r#"{"key":"door","name":"Porte","unit":"","value":"3"}"#);
    let decoded = jeedom_summary::decode::decode_summary_item(&item).unwrap();
    assert_eq!(decoded.value, Some(3));
}

#[test]
fn flexible_number_accepts_every_documented_shape() {
    assert_eq!(decode_number(None), Ok(None));
    assert_eq!(decode_number(Some(&JsonValue::Null)), Ok(None));
    assert_eq!(decode_number(Some(&JsonValue::UInt(42))), Ok(Some(42)));
    assert_eq!(
        decode_number(Some(&JsonValue::Text("42".to_string()))),
        Ok(Some(42))
    );
    assert_eq!(
        decode_number(Some(&JsonValue::Text("4294967295".to_string()))),
        Ok(Some(u32::MAX))
    );
    // the modular cast of an out-of-range integer, as upstream does it
    assert_eq!(
        decode_number(Some(&JsonValue::UInt(0x1_0000_0000u64 + 5))),
        Ok(Some(5))
    );
    assert_eq!(
        decode_number(Some(&JsonValue::Bool(true))),
        Err(DecodeError::ExpectedIntegerOrString)
    );
}

#[test]
fn non_numeric_strings_decode_to_absent_never_to_an_error() {
    for s in ["", "abc", "+5", "-5", " 5", "5 ", "4294967296", "12a", "①"] {
        assert_eq!(
            decode_number(Some(&JsonValue::Text(s.to_string()))),
            Ok(None),
            "the string {s:?} must decode to absent"
        );
    }
}

#[test]
fn integer_and_decimal_string_forms_decode_alike() {
    for n in [0u32, 1, 7, 10, 20, 99, 100, 4095, 65535, 123456789, u32::MAX] {
        assert_eq!(
            decode_number(Some(&JsonValue::UInt(n as u64))),
            decode_number(Some(&JsonValue::Text(n.to_string())))
        );
    }
}

#[test]
fn any_sequence_status_is_an_absent_block() {
    assert_eq!(decode_status(&JsonValue::Array(vec![])), Ok(None));
    assert_eq!(
        decode_status(&JsonValue::Array(vec![
            JsonValue::UInt(1),
            JsonValue::Text("x".to_string())
        ])),
        Ok(None)
    );
}

#[test]
fn scalar_status_is_a_decode_error() {
    assert_eq!(
        decode_status(&JsonValue::Text("ok".to_string())),
        Err(DecodeError::ExpectedRecordOrSequence)
    );
    assert_eq!(
        decode_status(&JsonValue::Null),
        Err(DecodeError::ExpectedRecordOrSequence)
    );
}

#[test]
fn non_numeric_battery_level_is_a_present_empty_reading() {
    let status = tree(r#"{"battery":"low","batterydanger":0,"batterywarning":0}"#);
    let decoded = decode_status(&status).unwrap().unwrap();
    assert_eq!(decoded.battery.as_ref().unwrap().0, None);
}

#[test]
fn version_decodes_its_payload_string() {
    let text = r#"{"jsonrpc":"2.0","id":1,"result":"4.2.1"}"#;
    let version = jeedom_summary::decode::decode_version_response(&tree(text)).unwrap();
    assert_eq!(version.result, "4.2.1");
}

#[test]
fn non_text_ping_payload_is_expected_text() {
    let text = r#"{"jsonrpc":"2.0","id":1,"result":5}"#;
    assert_eq!(
        decode_ping_response(&tree(text)),
        Err(JeedomClientErrors::DeserializationError(
            DecodeError::ExpectedText
        ))
    );
}

#[test]
fn non_array_battery_payload_is_expected_array() {
    let text = r#"{"jsonrpc":"2.0","id":1,"result":{}}"#;
    assert_eq!(
        decode_battery_response(&tree(text)),
        Err(JeedomClientErrors::DeserializationError(
            DecodeError::ExpectedArray
        ))
    );
}

#[test]
fn non_object_device_is_expected_object() {
    let text = r#"{"jsonrpc":"2.0","id":1,"result":[5]}"#;
    assert_eq!(
        decode_battery_response(&tree(text)),
        Err(JeedomClientErrors::DeserializationError(
            DecodeError::ExpectedObject
        ))
    );
}

#[test]
fn device_without_status_is_a_missing_field() {
    let text = r#"{"jsonrpc":"2.0","id":1,"result":[{"name":"x"}]}"#;
    assert_eq!(
        decode_battery_response(&tree(text)),
        Err(JeedomClientErrors::DeserializationError(
            DecodeError::MissingField
        ))
    );
}

#[test]
fn textual_error_code_is_expected_integer() {
    let text = r#"{"jsonrpc":"2.0","id":1,"error":{"code":"x","message":"m"}}"#;
    assert_eq!(
        decode_rpc_error(&tree(text)),
        Err(DecodeError::ExpectedInteger)
    );
}

#[test]
fn notification_without_plugin_is_a_missing_field() {
    let text = r#"{"jsonrpc":"2.0","id":1,"result":[{"message":"hello"}]}"#;
    assert_eq!(
        decode_notification_response(&tree(text)),
        Err(JeedomClientErrors::DeserializationError(
            DecodeError::MissingField
        ))
    );
}
