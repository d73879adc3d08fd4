use jeedom_summary::decode::decode_global_summary;
use jeedom_summary::encode::encode_global_summary;
use jeedom_summary::io_models::BatteryPercentage;
use jeedom_summary::io_models::JeedomBattery;
use jeedom_summary::io_models::JeedomBatteryResult;
use jeedom_summary::io_models::JeedomBatteryStatus;
use jeedom_summary::io_models::JeedomGlobalSummary;
use jeedom_summary::io_models::JeedomGlobalSummaryResult;
use jeedom_summary::io_models::JeedomNotificationResult;
use jeedom_summary::io_models::JeedomNotificationStatus;
use jeedom_summary::io_models::JeedomSummary;
use jeedom_summary::output::JeedomSummaryOutput;
use jeedom_summary::BarStyle;

fn item(key: &str, value: Option<u32>) -> JeedomSummary {
    JeedomSummary {
        key: key.to_string(),
        name: key.to_string(),
        unit: String::new(),
        value,
    }
}

fn empty_summary() -> JeedomGlobalSummaryResult {
    JeedomGlobalSummaryResult {
        result: JeedomGlobalSummary {
            security: item("security", None),
            motion: item("motion", None),
            door: item("door", None),
            windows: item("windows", None),
            shutter: item("shutter", None),
            light: item("light", None),
            outlet: item("outlet", None),
            temperature: item("temperature", None),
            humidity: item("humidity", None),
            luminosity: item("luminosity", None),
            power: item("power", None),
            alarm: None,
        },
    }
}

fn battery_counts(devices: Vec<JeedomBattery>) -> (u32, u32) {
    let output = JeedomSummaryOutput::new(
        empty_summary(),
        JeedomBatteryResult { result: devices },
        JeedomNotificationResult { result: vec![] },
        BarStyle::Text,
    );
    (
        output.battery.battery_danger_counter,
        output.battery.battery_warning_counter,
    )
}

fn device(
    danger: Option<u32>,
    warning: Option<u32>,
    level: Option<BatteryPercentage>,
) -> JeedomBattery {
    JeedomBattery {
        status: Some(JeedomBatteryStatus {
            batterydanger: danger,
            batterywarning: warning,
            battery: level,
        }),
    }
}

#[test]
fn danger_flag_counts_once_and_never_as_warning() {
    let (danger, warning) = battery_counts(vec![device(Some(1), Some(1), None)]);
    assert_eq!(danger, 1);
    assert_eq!(warning, 0);
}

#[test]
fn silent_devices_count_nothing() {
    let no_block = JeedomBattery { status: None };
    let empty_block = device(None, None, None);
    let (danger, warning) = battery_counts(vec![no_block, empty_block]);
    assert_eq!(danger, 0);
    assert_eq!(warning, 0);
}

#[test]
fn level_at_danger_threshold_with_clear_flag_counts_as_danger() {
    let low = device(Some(0), Some(0), Some(BatteryPercentage(Some(5))));
    let (danger, warning) = battery_counts(vec![low]);
    assert_eq!(danger, 1);
    assert_eq!(warning, 0);
}

#[test]
fn thresholds_are_never_consulted_without_a_flag() {
    // with both flags absent, even a low level counts nothing
    let low_without_flags = device(None, None, Some(BatteryPercentage(Some(5))));
    let (danger, warning) = battery_counts(vec![low_without_flags]);
    assert_eq!(danger, 0);
    assert_eq!(warning, 0);
}

#[test]
fn warning_threshold_boundary() {
    let at_21 = device(None, Some(0), Some(BatteryPercentage(Some(21))));
    let (danger, warning) = battery_counts(vec![at_21]);
    assert_eq!(danger, 0);
    assert_eq!(warning, 0);

    let at_20 = device(None, Some(0), Some(BatteryPercentage(Some(20))));
    let (danger, warning) = battery_counts(vec![at_20]);
    assert_eq!(danger, 0);
    assert_eq!(warning, 1);
}

#[test]
fn any_nonzero_flag_value_counts_as_set() {
    let (danger, warning) = battery_counts(vec![device(Some(2), None, None)]);
    assert_eq!(danger, 1);
    assert_eq!(warning, 0);
}

#[test]
fn absent_level_leaves_the_flags_in_charge() {
    // danger flag present and clear, no usable level: nothing trips
    let flagged_only = device(Some(0), Some(0), Some(BatteryPercentage(None)));
    let (danger, warning) = battery_counts(vec![flagged_only]);
    assert_eq!(danger, 0);
    assert_eq!(warning, 0);
}

#[test]
fn notification_counts_and_update_filter() {
    let notifications = JeedomNotificationResult {
        result: vec![
            JeedomNotificationStatus {
                plugin: "update".to_string(),
            },
            JeedomNotificationStatus {
                plugin: "mobile".to_string(),
            },
            JeedomNotificationStatus {
                plugin: "update".to_string(),
            },
        ],
    };
    let output = JeedomSummaryOutput::new(
        empty_summary(),
        JeedomBatteryResult { result: vec![] },
        notifications,
        BarStyle::Text,
    );
    assert_eq!(output.notifications.message_counter, 3);
    assert_eq!(output.notifications.update_counter, 2);
    assert_eq!(output.notifications.message_icon.as_deref(), Some("\u{2462}"));
    assert_eq!(output.notifications.update_icon.as_deref(), Some("\u{2461}"));
}

#[test]
fn summary_round_trip_reproduces_every_counter() {
    let full = JeedomGlobalSummary {
        security: item("security", Some(1)),
        motion: item("motion", Some(2)),
        door: item("door", Some(3)),
        windows: item("windows", Some(4)),
        shutter: item("shutter", Some(5)),
        light: item("light", Some(6)),
        outlet: item("outlet", Some(7)),
        temperature: item("temperature", Some(8)),
        humidity: item("humidity", Some(9)),
        luminosity: item("luminosity", Some(10)),
        power: item("power", Some(11)),
        alarm: Some(item("alarm", Some(12))),
    };
    let encoded = encode_global_summary(&full);
    let decoded = decode_global_summary(&encoded).unwrap();
    assert_eq!(decoded, full);
}

#[test]
fn summary_round_trip_keeps_absent_counters_absent() {
    let sparse = JeedomGlobalSummary {
        alarm: None,
        ..empty_summary().result
    };
    let encoded = encode_global_summary(&sparse);
    let decoded = decode_global_summary(&encoded).unwrap();
    assert_eq!(decoded, sparse);
}
