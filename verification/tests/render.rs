use jeedom_summary::decode::decode_global_summary_response;
use jeedom_summary::io_models::BatteryPercentage;
use jeedom_summary::io_models::JeedomBattery;
use jeedom_summary::io_models::JeedomBatteryResult;
use jeedom_summary::io_models::JeedomBatteryStatus;
use jeedom_summary::io_models::JeedomGlobalSummary;
use jeedom_summary::io_models::JeedomGlobalSummaryResult;
use jeedom_summary::io_models::JeedomNotificationResult;
use jeedom_summary::io_models::JeedomNotificationStatus;
use jeedom_summary::io_models::JeedomSummary;
use jeedom_summary::output::notification_count_glyph;
use jeedom_summary::output::JeedomSummaryOutput;
use jeedom_summary::BarStyle;
use jeedom_summary::BarType;
use jeedom_summary::JsonValue;

fn convert(v: serde_json::Value) -> JsonValue {
    match v {
        serde_json::Value::Null => JsonValue::Null,
        serde_json::Value::Bool(b) => JsonValue::Bool(b),
        serde_json::Value::Number(n) => match n.as_u64() {
            Some(u) => JsonValue::UInt(u),
            None => JsonValue::OtherNumber,
        },
        serde_json::Value::String(s) => JsonValue::Text(s),
        serde_json::Value::Array(a) => JsonValue::Array(a.into_iter().map(convert).collect()),
        serde_json::Value::Object(m) => {
            JsonValue::Object(m.into_iter().map(|(k, x)| (k, convert(x))).collect())
        }
    }
}

fn item(key: &str, value: Option<u32>) -> JeedomSummary {
    JeedomSummary {
        key: key.to_string(),
        name: key.to_string(),
        unit: String::new(),
        value,
    }
}

fn summary_with_door(door: Option<u32>) -> JeedomGlobalSummaryResult {
    JeedomGlobalSummaryResult {
        result: JeedomGlobalSummary {
            security: item("security", None),
            motion: item("motion", None),
            door: item("door", door),
            windows: item("windows", None),
            shutter: item("shutter", None),
            light: item("light", None),
            outlet: item("outlet", None),
            temperature: item("temperature", None),
            humidity: item("humidity", None),
            luminosity: item("luminosity", None),
            power: item("power", None),
            alarm: None,
        },
    }
}

fn no_batteries() -> JeedomBatteryResult {
    JeedomBatteryResult { result: vec![] }
}

fn no_notifications() -> JeedomNotificationResult {
    JeedomNotificationResult { result: vec![] }
}

#[test]
fn one_open_door_renders_as_plain_line() {
    // end to end: a summary payload with door.value = 1 and every other
    // counter absent or zero, no devices, no notifications
    let payload = r#"
    {
        "result": {
            "security": {"key": "security", "name": "Alerte", "unit": "", "value": 0},
            "motion": {"key": "motion", "name": "Mouvement", "unit": "", "value": 0},
            "door": {"key": "door", "name": "Porte", "unit": "", "value": 1},
            "windows": {"key": "windows", "name": "Fenetre", "unit": "", "value": 0},
            "shutter": {"key": "shutter", "name": "Volet", "unit": "", "value": null},
            "light": {"key": "light", "name": "Lumiere", "unit": "", "value": 0},
            "outlet": {"key": "outlet", "name": "Prise", "unit": "", "value": 0},
            "temperature": {"key": "temperature", "name": "Temperature", "unit": "", "value": null},
            "humidity": {"key": "humidity", "name": "Humidite", "unit": "%", "value": null},
            "luminosity": {"key": "luminosity", "name": "Luminosite", "unit": "lx", "value": null},
            "power": {"key": "power", "name": "Puissance", "unit": "W", "value": null}
        }
    }
    "#;
    let tree = convert(serde_json::from_str(payload).unwrap());
    let summary = decode_global_summary_response(&tree).unwrap();
    let output = JeedomSummaryOutput::new(
        summary,
        no_batteries(),
        no_notifications(),
        BarStyle::Text,
    );
    let rendered = output.render_bar_output(BarType::Plain, false, "http://jeedom".to_string());
    assert_eq!(rendered, "1D\n");
}

#[test]
fn all_zero_renders_as_idle_string_under_every_theme_and_format() {
    let styles = [BarStyle::Text, BarStyle::Jeedom, BarStyle::Nerd, BarStyle::Emoji];
    let types = [
        BarType::Mac,
        BarType::I3blocks,
        BarType::I3StatusRust,
        BarType::Plain,
    ];
    for style in styles {
        for bar_type in types {
            let output = JeedomSummaryOutput::new(
                summary_with_door(Some(0)),
                no_batteries(),
                no_notifications(),
                style,
            );
            let rendered =
                output.render_bar_output(bar_type, false, "http://jeedom".to_string());
            assert_eq!(rendered, "Jeedom");
        }
    }
}

#[test]
fn count_glyphs_one_to_twenty_are_distinct_and_not_numerals() {
    let glyphs: Vec<String> = (1..=20).map(notification_count_glyph).collect();
    for (i, g) in glyphs.iter().enumerate() {
        assert_ne!(g, &(i as u32 + 1).to_string(), "glyph {} must not be a numeral", i + 1);
        assert!(
            g.chars().all(|c| !c.is_ascii_digit()),
            "glyph {} must not contain digits",
            i + 1
        );
        for (j, h) in glyphs.iter().enumerate() {
            if i != j {
                assert_ne!(g, h, "glyphs {} and {} must differ", i + 1, j + 1);
            }
        }
    }
}

#[test]
fn count_glyphs_outside_the_table_fall_back_to_numerals() {
    assert_eq!(notification_count_glyph(21), "21");
    assert_eq!(notification_count_glyph(0), "0");
    assert_eq!(notification_count_glyph(100), "100");
}

#[test]
fn rich_formats_wrap_notifications_in_colored_spans() {
    let notifications = JeedomNotificationResult {
        result: vec![
            JeedomNotificationStatus {
                plugin: "update".to_string(),
            },
            JeedomNotificationStatus {
                plugin: "mobile".to_string(),
            },
        ],
    };
    let output = JeedomSummaryOutput::new(
        summary_with_door(None),
        no_batteries(),
        notifications,
        BarStyle::Text,
    );
    let rendered =
        output.render_bar_output(BarType::I3StatusRust, false, "http://jeedom".to_string());
    assert_eq!(
        rendered,
        "<span color='red'><span font='Jeedom'>\u{2460}</span></span> \
         <span color='yellow'><span font='Jeedom'>\u{2461}</span></span>"
    );
}

#[test]
fn i3blocks_doubles_the_body_line() {
    let output = JeedomSummaryOutput::new(
        summary_with_door(Some(2)),
        no_batteries(),
        no_notifications(),
        BarStyle::Text,
    );
    let rendered = output.render_bar_output(BarType::I3blocks, false, "http://jeedom".to_string());
    assert_eq!(rendered, "2D\n2D");
}

#[test]
fn mac_format_emits_the_menu_block() {
    let notifications = JeedomNotificationResult {
        result: vec![
            JeedomNotificationStatus {
                plugin: "update".to_string(),
            },
            JeedomNotificationStatus {
                plugin: "mobile".to_string(),
            },
        ],
    };
    let output = JeedomSummaryOutput::new(
        summary_with_door(None),
        no_batteries(),
        notifications,
        BarStyle::Text,
    );
    let rendered = output.render_bar_output(BarType::Mac, false, "http://jeedom".to_string());
    assert_eq!(
        rendered,
        "---\nUpdates 1 | color=red href=http://jeedom/index.php?v=d&p=update\n\
         Messages 2 | color=orange href=http://jeedom"
    );
}

#[test]
fn battery_segments_render_and_warnings_can_be_ignored() {
    let dying = JeedomBattery {
        status: Some(JeedomBatteryStatus {
            batterydanger: Some(1),
            batterywarning: Some(1),
            battery: Some(BatteryPercentage(Some(1))),
        }),
    };
    let tired = JeedomBattery {
        status: Some(JeedomBatteryStatus {
            batterydanger: Some(0),
            batterywarning: Some(1),
            battery: Some(BatteryPercentage(Some(15))),
        }),
    };
    let output = JeedomSummaryOutput::new(
        summary_with_door(None),
        JeedomBatteryResult {
            result: vec![dying, tired],
        },
        no_notifications(),
        BarStyle::Text,
    );
    let with_warning =
        output.render_bar_output(BarType::Plain, false, "http://jeedom".to_string());
    assert_eq!(with_warning, "1B 1B\n");
    let without_warning =
        output.render_bar_output(BarType::Plain, true, "http://jeedom".to_string());
    assert_eq!(without_warning, "1B\n");
}

#[test]
fn ignored_warnings_alone_leave_the_bar_idle() {
    let tired = JeedomBattery {
        status: Some(JeedomBatteryStatus {
            batterydanger: Some(0),
            batterywarning: Some(1),
            battery: Some(BatteryPercentage(Some(15))),
        }),
    };
    let output = JeedomSummaryOutput::new(
        summary_with_door(None),
        JeedomBatteryResult {
            result: vec![tired],
        },
        no_notifications(),
        BarStyle::Text,
    );
    assert!(output.is_there_something_to_print(false));
    assert!(!output.is_there_something_to_print(true));
    let rendered = output.render_bar_output(BarType::Plain, true, "http://jeedom".to_string());
    assert_eq!(rendered, "Jeedom");
}
