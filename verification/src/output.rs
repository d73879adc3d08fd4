//! Alert aggregation and status-bar rendering.
//!
//! The aggregator turns the typed response models into one counter per
//! summary category, a battery danger/warning pair, and a notification/
//! update pair. The renderer turns those counters, a glyph theme, and a
//! bar format into the final printable string.

use vstd::prelude::*;

use crate::io_models::JeedomBattery;
use crate::io_models::JeedomBatteryResult;
use crate::io_models::JeedomBatteryStatus;
use crate::io_models::JeedomGlobalSummaryResult;
use crate::io_models::JeedomNotificationResult;
use crate::io_models::JeedomNotificationStatus;
use crate::numbers::dec_digits;
use crate::numbers::u32_to_decimal;

verus! {

/// The target bar format: a menu-style block, the two single-line
/// rich-markup formats, or a plain line with a trailing newline.
#[derive(Copy, Clone, PartialEq, Eq, Debug)]
pub enum BarType {
    Mac,
    I3blocks,
    I3StatusRust,
    Plain,
}

/// The glyph theme: plain-text letters, the controller's own icon font,
/// an icon-font variant, or emoji.
#[derive(Copy, Clone, PartialEq, Eq, Debug)]
pub enum BarStyle {
    Text,
    Jeedom,
    Nerd,
    Emoji,
}

/// One of the fourteen displayable categories: the twelve summary
/// categories plus battery and updates.
#[derive(Copy, Clone, PartialEq, Eq, Debug)]
pub enum Category {
    Security,
    Motion,
    Door,
    Windows,
    Shutter,
    Light,
    Outlet,
    Temperature,
    Humidity,
    Luminosity,
    Power,
    Alarm,
    Battery,
    Updates,
}

/// The battery level at or below which a device counts as in danger,
/// when its danger flag is present and clear.
pub const JEEDOM_BATTERY_MIN_DANGER: u32 = 5;

/// The battery level at or below which a device counts as in warning,
/// when its warning flag is present and clear.
pub const JEEDOM_BATTERY_MIN_WARNING: u32 = 20;

/// The glyph of `category` under `style`. Every pair has exactly one
/// glyph; there is no fallback.
pub open spec fn glyph_spec(style: BarStyle, category: Category) -> Seq<char> {
    match style {
        BarStyle::Text => match category {
            Category::Security => "S"@,
            Category::Motion => "M"@,
            Category::Door => "D"@,
            Category::Windows => "W"@,
            Category::Shutter => "U"@,
            Category::Light => "G"@,
            Category::Outlet => "O"@,
            Category::Temperature => "R"@,
            Category::Humidity => "H"@,
            Category::Luminosity => "L"@,
            Category::Power => "P"@,
            Category::Alarm => "A"@,
            Category::Battery => "B"@,
            Category::Updates => "U"@,
        },
        BarStyle::Jeedom => match category {
            Category::Security => "\u{E601}"@,
            Category::Motion => "\u{E612}"@,
            Category::Door => "\u{E61D}"@,
            Category::Windows => "\u{E60A}"@,
            Category::Shutter => "\u{E627}"@,
            Category::Light => "\u{E611}"@,
            Category::Outlet => "\u{E61E}"@,
            Category::Temperature => "\u{E622}"@,
            Category::Humidity => "\u{E90F}"@,
            Category::Luminosity => "\u{E601}"@,
            Category::Power => "\u{F0E7}"@,
            Category::Alarm => "\u{E60E}"@,
            Category::Battery => "\u{E602}"@,
            Category::Updates => "\u{E91D}"@,
        },
        BarStyle::Nerd => match category {
            Category::Security => "\u{FC8D}"@,
            Category::Motion => "\u{FC0C}"@,
            Category::Door => "\u{FD18}"@,
            Category::Windows => "\u{F17A}"@,
            Category::Shutter => "S"@,
            Category::Light => "\u{F834}"@,
            Category::Outlet => "\u{F1E6}"@,
            Category::Temperature => "\u{F2C7}"@,
            Category::Humidity => "\u{E373}"@,
            Category::Luminosity => "\u{FAA7}"@,
            Category::Power => "\u{F0E7}"@,
            Category::Alarm => "\u{F023}"@,
            Category::Battery => "\u{F244}"@,
            Category::Updates => "\u{F62E}"@,
        },
        BarStyle::Emoji => match category {
            Category::Security => "\u{1F6A8}"@,
            Category::Motion => "\u{1F3C3}"@,
            Category::Door => "\u{1F6AA}"@,
            Category::Windows => "\u{1F5BC}"@,
            Category::Shutter => "\u{2195}"@,
            Category::Light => "\u{1F4A1}"@,
            Category::Outlet => "\u{1F50C}"@,
            Category::Temperature => "\u{1F321}"@,
            Category::Humidity => "\u{1F4A7}"@,
            Category::Luminosity => "\u{1F506}"@,
            Category::Power => "\u{26A1}"@,
            Category::Alarm => "\u{1F512}"@,
            Category::Battery => "\u{1F50}"@,
            Category::Updates => "\u{1F534}"@,
        },
    }
}

/// Returns the glyph of `category` under `style`.
pub fn glyph_for(style: BarStyle, category: Category) -> (r: String)
    ensures
        r@ == glyph_spec(style, category),
{
    match style {
        BarStyle::Text => match category {
            Category::Security => String::from_str("S"),
            Category::Motion => String::from_str("M"),
            Category::Door => String::from_str("D"),
            Category::Windows => String::from_str("W"),
            Category::Shutter => String::from_str("U"),
            Category::Light => String::from_str("G"),
            Category::Outlet => String::from_str("O"),
            Category::Temperature => String::from_str("R"),
            Category::Humidity => String::from_str("H"),
            Category::Luminosity => String::from_str("L"),
            Category::Power => String::from_str("P"),
            Category::Alarm => String::from_str("A"),
            Category::Battery => String::from_str("B"),
            Category::Updates => String::from_str("U"),
        },
        BarStyle::Jeedom => match category {
            Category::Security => String::from_str("\u{E601}"),
            Category::Motion => String::from_str("\u{E612}"),
            Category::Door => String::from_str("\u{E61D}"),
            Category::Windows => String::from_str("\u{E60A}"),
            Category::Shutter => String::from_str("\u{E627}"),
            Category::Light => String::from_str("\u{E611}"),
            Category::Outlet => String::from_str("\u{E61E}"),
            Category::Temperature => String::from_str("\u{E622}"),
            Category::Humidity => String::from_str("\u{E90F}"),
            Category::Luminosity => String::from_str("\u{E601}"),
            Category::Power => String::from_str("\u{F0E7}"),
            Category::Alarm => String::from_str("\u{E60E}"),
            Category::Battery => String::from_str("\u{E602}"),
            Category::Updates => String::from_str("\u{E91D}"),
        },
        BarStyle::Nerd => match category {
            Category::Security => String::from_str("\u{FC8D}"),
            Category::Motion => String::from_str("\u{FC0C}"),
            Category::Door => String::from_str("\u{FD18}"),
            Category::Windows => String::from_str("\u{F17A}"),
            Category::Shutter => String::from_str("S"),
            Category::Light => String::from_str("\u{F834}"),
            Category::Outlet => String::from_str("\u{F1E6}"),
            Category::Temperature => String::from_str("\u{F2C7}"),
            Category::Humidity => String::from_str("\u{E373}"),
            Category::Luminosity => String::from_str("\u{FAA7}"),
            Category::Power => String::from_str("\u{F0E7}"),
            Category::Alarm => String::from_str("\u{F023}"),
            Category::Battery => String::from_str("\u{F244}"),
            Category::Updates => String::from_str("\u{F62E}"),
        },
        BarStyle::Emoji => match category {
            Category::Security => String::from_str("\u{1F6A8}"),
            Category::Motion => String::from_str("\u{1F3C3}"),
            Category::Door => String::from_str("\u{1F6AA}"),
            Category::Windows => String::from_str("\u{1F5BC}"),
            Category::Shutter => String::from_str("\u{2195}"),
            Category::Light => String::from_str("\u{1F4A1}"),
            Category::Outlet => String::from_str("\u{1F50C}"),
            Category::Temperature => String::from_str("\u{1F321}"),
            Category::Humidity => String::from_str("\u{1F4A7}"),
            Category::Luminosity => String::from_str("\u{1F506}"),
            Category::Power => String::from_str("\u{26A1}"),
            Category::Alarm => String::from_str("\u{1F512}"),
            Category::Battery => String::from_str("\u{1F50}"),
            Category::Updates => String::from_str("\u{1F534}"),
        },
    }
}

/// The count glyph shown beside the notification icons: counts one
/// through twenty map to circled-number glyphs, anything else falls back
/// to the plain decimal numeral.
pub open spec fn count_glyph_spec(n: u32) -> Seq<char> {
    if n == 1 {
        "\u{2460}"@
    } else if n == 2 {
        "\u{2461}"@
    } else if n == 3 {
        "\u{2462}"@
    } else if n == 4 {
        "\u{2463}"@
    } else if n == 5 {
        "\u{2464}"@
    } else if n == 6 {
        "\u{2465}"@
    } else if n == 7 {
        "\u{2466}"@
    } else if n == 8 {
        "\u{2467}"@
    } else if n == 9 {
        "\u{2468}"@
    } else if n == 10 {
        "\u{2469}"@
    } else if n == 11 {
        "\u{246A}"@
    } else if n == 12 {
        "\u{246B}"@
    } else if n == 13 {
        "\u{246C}"@
    } else if n == 14 {
        "\u{246D}"@
    } else if n == 15 {
        "\u{246E}"@
    } else if n == 16 {
        "\u{246F}"@
    } else if n == 17 {
        "\u{2470}"@
    } else if n == 18 {
        "\u{2471}"@
    } else if n == 19 {
        "\u{2472}"@
    } else if n == 20 {
        "\u{2473}"@
    } else {
        dec_digits(n as nat)
    }
}

/// Maps a notification count to its display glyph.
pub fn notification_count_glyph(n: u32) -> (r: String)
    ensures
        r@ == count_glyph_spec(n),
{
    if n == 1 {
        String::from_str("\u{2460}")
    } else if n == 2 {
        String::from_str("\u{2461}")
    } else if n == 3 {
        String::from_str("\u{2462}")
    } else if n == 4 {
        String::from_str("\u{2463}")
    } else if n == 5 {
        String::from_str("\u{2464}")
    } else if n == 6 {
        String::from_str("\u{2465}")
    } else if n == 7 {
        String::from_str("\u{2466}")
    } else if n == 8 {
        String::from_str("\u{2467}")
    } else if n == 9 {
        String::from_str("\u{2468}")
    } else if n == 10 {
        String::from_str("\u{2469}")
    } else if n == 11 {
        String::from_str("\u{246A}")
    } else if n == 12 {
        String::from_str("\u{246B}")
    } else if n == 13 {
        String::from_str("\u{246C}")
    } else if n == 14 {
        String::from_str("\u{246D}")
    } else if n == 15 {
        String::from_str("\u{246E}")
    } else if n == 16 {
        String::from_str("\u{246F}")
    } else if n == 17 {
        String::from_str("\u{2470}")
    } else if n == 18 {
        String::from_str("\u{2471}")
    } else if n == 19 {
        String::from_str("\u{2472}")
    } else if n == 20 {
        String::from_str("\u{2473}")
    } else {
        u32_to_decimal(n)
    }
}

/// The rendered state of the whole bar: one item per category, the
/// battery pair, and the notification pair.
#[derive(Debug, Clone)]
pub struct JeedomSummaryOutput {
    pub alarm: JeedomSummaryItemOutput,
    pub battery: JeedomBatteryInfoOuput,
    pub door: JeedomSummaryItemOutput,
    pub humidity: JeedomSummaryItemOutput,
    pub light: JeedomSummaryItemOutput,
    pub luminosity: JeedomSummaryItemOutput,
    pub motion: JeedomSummaryItemOutput,
    pub outlet: JeedomSummaryItemOutput,
    pub power: JeedomSummaryItemOutput,
    pub security: JeedomSummaryItemOutput,
    pub shutter: JeedomSummaryItemOutput,
    pub temperature: JeedomSummaryItemOutput,
    pub updates: JeedomSummaryItemOutput,
    pub windows: JeedomSummaryItemOutput,
    pub notifications: JeedomNotificationsItemOutput,
}

/// One category's glyph and counter.
#[derive(Debug, Clone)]
pub struct JeedomSummaryItemOutput {
    pub icon: String,
    pub counter: u32,
}

impl JeedomSummaryItemOutput {
    /// A fresh item under `icon`, counting nothing yet.
    pub fn new(icon: String) -> (r: Self)
        ensures
            r.icon == icon,
            r.counter == 0,
    {
        Self { icon, counter: 0 }
    }
}

/// The battery glyph and its warning/danger counters.
#[derive(Debug, Clone)]
pub struct JeedomBatteryInfoOuput {
    pub icon: String,
    pub battery_warning_counter: u32,
    pub battery_danger_counter: u32,
}

impl JeedomBatteryInfoOuput {
    /// A fresh battery item under `icon`, counting nothing yet.
    pub fn new(icon: String) -> (r: Self)
        ensures
            r.icon == icon,
            r.battery_warning_counter == 0,
            r.battery_danger_counter == 0,
    {
        Self { icon, battery_warning_counter: 0, battery_danger_counter: 0 }
    }
}

/// The notification and update counters with their count glyphs.
#[derive(Debug, Clone)]
pub struct JeedomNotificationsItemOutput {
    pub message_icon: Option<String>,
    pub message_counter: u32,
    pub update_icon: Option<String>,
    pub update_counter: u32,
}

/// Whether every icon of `o` is the glyph its category has under
/// `style`.
pub open spec fn icons_of(o: JeedomSummaryOutput, style: BarStyle) -> bool {
    &&& o.security.icon@ == glyph_spec(style, Category::Security)
    &&& o.motion.icon@ == glyph_spec(style, Category::Motion)
    &&& o.door.icon@ == glyph_spec(style, Category::Door)
    &&& o.windows.icon@ == glyph_spec(style, Category::Windows)
    &&& o.shutter.icon@ == glyph_spec(style, Category::Shutter)
    &&& o.light.icon@ == glyph_spec(style, Category::Light)
    &&& o.outlet.icon@ == glyph_spec(style, Category::Outlet)
    &&& o.temperature.icon@ == glyph_spec(style, Category::Temperature)
    &&& o.humidity.icon@ == glyph_spec(style, Category::Humidity)
    &&& o.luminosity.icon@ == glyph_spec(style, Category::Luminosity)
    &&& o.power.icon@ == glyph_spec(style, Category::Power)
    &&& o.alarm.icon@ == glyph_spec(style, Category::Alarm)
    &&& o.battery.icon@ == glyph_spec(style, Category::Battery)
    &&& o.updates.icon@ == glyph_spec(style, Category::Updates)
}

/// Whether every counter of `o` is zero and no notification glyph is
/// set yet.
pub open spec fn zeroed(o: JeedomSummaryOutput) -> bool {
    &&& o.security.counter == 0
    &&& o.motion.counter == 0
    &&& o.door.counter == 0
    &&& o.windows.counter == 0
    &&& o.shutter.counter == 0
    &&& o.light.counter == 0
    &&& o.outlet.counter == 0
    &&& o.temperature.counter == 0
    &&& o.humidity.counter == 0
    &&& o.luminosity.counter == 0
    &&& o.power.counter == 0
    &&& o.alarm.counter == 0
    &&& o.updates.counter == 0
    &&& o.battery.battery_warning_counter == 0
    &&& o.battery.battery_danger_counter == 0
    &&& o.notifications.message_icon is None
    &&& o.notifications.message_counter == 0
    &&& o.notifications.update_icon is None
    &&& o.notifications.update_counter == 0
}

/// The counter value of an optional reading: absent counts as zero.
pub open spec fn or_zero(v: Option<u32>) -> u32 {
    match v {
        Some(n) => n,
        None => 0,
    }
}

/// Whether a flag field is present and set (any nonzero value).
pub open spec fn flag_set(f: Option<u32>) -> bool {
    match f {
        Some(n) => n != 0,
        None => false,
    }
}

/// Whether a flag field is present and clear.
pub open spec fn flag_clear(f: Option<u32>) -> bool {
    match f {
        Some(n) => n == 0,
        None => false,
    }
}

/// The usable battery level of a status block: absent when the field is
/// missing or carried no decimal worth. An absent level never trips a
/// threshold, so only the explicit flags can speak for such a device.
pub open spec fn level_of(st: JeedomBatteryStatus) -> Option<u32> {
    match st.battery {
        Some(p) => p.0,
        None => None,
    }
}

/// Whether the battery level is present and at or below `threshold`.
pub open spec fn level_at_most(st: JeedomBatteryStatus, threshold: u32) -> bool {
    match level_of(st) {
        Some(l) => l <= threshold,
        None => false,
    }
}

/// What one device adds to the danger counter: one when its danger flag
/// is set, or when the flag is present but clear and the level is at or
/// below the danger threshold; nothing otherwise.
pub open spec fn device_danger(b: JeedomBattery) -> nat {
    match b.status {
        None => 0,
        Some(st) => {
            if flag_set(st.batterydanger) {
                1
            } else if flag_clear(st.batterydanger) && level_at_most(
                st,
                JEEDOM_BATTERY_MIN_DANGER,
            ) {
                1
            } else {
                0
            }
        },
    }
}

/// What one device adds to the warning counter: nothing when it already
/// counts as in danger; otherwise one when its warning flag is set, or
/// when the flag is present but clear and the level is at or below the
/// warning threshold.
pub open spec fn device_warning(b: JeedomBattery) -> nat {
    match b.status {
        None => 0,
        Some(st) => {
            if device_danger(b) == 1 {
                0
            } else if flag_set(st.batterywarning) {
                1
            } else if flag_clear(st.batterywarning) && level_at_most(
                st,
                JEEDOM_BATTERY_MIN_WARNING,
            ) {
                1
            } else {
                0
            }
        },
    }
}

/// The danger contributions of a whole device list.
pub open spec fn danger_total(s: Seq<JeedomBattery>) -> nat
    decreases s.len(),
{
    if s.len() == 0 {
        0
    } else {
        danger_total(s.drop_last()) + device_danger(s.last())
    }
}

/// The warning contributions of a whole device list.
pub open spec fn warning_total(s: Seq<JeedomBattery>) -> nat
    decreases s.len(),
{
    if s.len() == 0 {
        0
    } else {
        warning_total(s.drop_last()) + device_warning(s.last())
    }
}

/// A device contributes to at most one of the two battery counters, so
/// the totals together never exceed the list length.
pub proof fn lemma_battery_totals_bounded(s: Seq<JeedomBattery>)
    ensures
        danger_total(s) + warning_total(s) <= s.len(),
    decreases s.len(),
{
    if s.len() > 0 {
        lemma_battery_totals_bounded(s.drop_last());
    }
}

/// A prefix of a device list never contributes more than the whole
/// list.
pub proof fn lemma_battery_totals_prefix(s: Seq<JeedomBattery>, i: int)
    requires
        0 <= i <= s.len(),
    ensures
        danger_total(s.take(i)) <= danger_total(s),
        warning_total(s.take(i)) <= warning_total(s),
    decreases s.len() - i,
{
    if i == s.len() {
        assert(s.take(i) =~= s);
    } else {
        lemma_battery_totals_prefix(s, i + 1);
        assert(s.take(i + 1).drop_last() =~= s.take(i));
        assert(s.take(i + 1).last() == s[i]);
    }
}

/// Whether a notification comes from the update plugin.
pub open spec fn is_update(n: JeedomNotificationStatus) -> bool {
    n.plugin@ == "update"@
}

/// How many notifications of `s` come from the update plugin.
pub open spec fn update_total(s: Seq<JeedomNotificationStatus>) -> nat
    decreases s.len(),
{
    if s.len() == 0 {
        0
    } else {
        update_total(s.drop_last()) + if is_update(s.last()) {
            1nat
        } else {
            0nat
        }
    }
}

/// The update notifications are among all notifications.
pub proof fn lemma_update_total_bounded(s: Seq<JeedomNotificationStatus>)
    ensures
        update_total(s) <= s.len(),
    decreases s.len(),
{
    if s.len() > 0 {
        lemma_update_total_bounded(s.drop_last());
    }
}

/// A device whose danger and warning flags are both raised counts once
/// as in danger and never as in warning: danger implies warning
/// upstream, and counting both would count the device twice.
pub proof fn lemma_danger_flag_excludes_warning(b: JeedomBattery)
    requires
        b.status matches Some(st) && st.batterydanger == Some(1u32) && st.batterywarning == Some(
            1u32,
        ),
    ensures
        device_danger(b) == 1,
        device_warning(b) == 0,
{
}

/// A device without a status block, or with a block that carries no
/// flag and no level, counts toward neither battery counter.
pub proof fn lemma_silent_device_contributes_nothing(b: JeedomBattery)
    requires
        b.status is None || (b.status matches Some(st) && st.batterydanger is None
            && st.batterywarning is None && st.battery is None),
    ensures
        device_danger(b) == 0,
        device_warning(b) == 0,
{
}

/// A device at the danger threshold level whose danger flag is present
/// and clear counts as in danger, not as in warning. (With the flag
/// absent the thresholds are never consulted and the device counts
/// toward neither counter.)
pub proof fn lemma_danger_threshold_level(b: JeedomBattery)
    requires
        b.status matches Some(st) && st.batterydanger == Some(0u32) && level_of(st) == Some(
            JEEDOM_BATTERY_MIN_DANGER,
        ),
    ensures
        device_danger(b) == 1,
        device_warning(b) == 0,
{
}

/// A device whose warning flag is present and clear counts as in
/// warning exactly when its level is at or below the warning threshold:
/// level twenty-one counts nothing, level twenty counts one. (With both
/// flags absent the thresholds are never consulted.)
pub proof fn lemma_warning_threshold_boundary(b: JeedomBattery, l: u32)
    requires
        b.status matches Some(st) && st.batterydanger is None && st.batterywarning == Some(0u32)
            && level_of(st) == Some(l),
    ensures
        device_danger(b) == 0,
        device_warning(b) == (if l <= JEEDOM_BATTERY_MIN_WARNING {
            1nat
        } else {
            0nat
        }),
{
}

/// Whether anything at all is worth printing: some category counter,
/// the danger counter, the warning counter unless it is ignored, or a
/// pending notification or update.
pub open spec fn something_to_print(o: JeedomSummaryOutput, ignore_battery_warning: bool) -> bool {
    ||| o.alarm.counter > 0
    ||| o.battery.battery_danger_counter > 0
    ||| (!ignore_battery_warning && o.battery.battery_warning_counter > 0)
    ||| o.door.counter > 0
    ||| o.humidity.counter > 0
    ||| o.light.counter > 0
    ||| o.luminosity.counter > 0
    ||| o.motion.counter > 0
    ||| o.outlet.counter > 0
    ||| o.power.counter > 0
    ||| o.security.counter > 0
    ||| o.shutter.counter > 0
    ||| o.temperature.counter > 0
    ||| o.updates.counter > 0
    ||| o.windows.counter > 0
    ||| o.notifications.message_counter > 0
    ||| o.notifications.update_counter > 0
}

impl JeedomSummaryOutput {
    /// Builds the bar state for one poll cycle: icons from `bar_style`,
    /// category counters from the global summary, battery counters from
    /// the device list, and notification counters from the message list.
    pub fn new(
        global_summary: JeedomGlobalSummaryResult,
        battery_status: JeedomBatteryResult,
        notifications: JeedomNotificationResult,
        bar_style: BarStyle,
    ) -> (r: Self)
        requires
            battery_status.result@.len() <= u32::MAX,
            notifications.result@.len() <= u32::MAX,
        ensures
            icons_of(r, bar_style),
            r.security.counter == or_zero(global_summary.result.security.value),
            r.motion.counter == or_zero(global_summary.result.motion.value),
            r.door.counter == or_zero(global_summary.result.door.value),
            r.windows.counter == or_zero(global_summary.result.windows.value),
            r.shutter.counter == or_zero(global_summary.result.shutter.value),
            r.light.counter == or_zero(global_summary.result.light.value),
            r.outlet.counter == or_zero(global_summary.result.outlet.value),
            r.temperature.counter == or_zero(global_summary.result.temperature.value),
            r.humidity.counter == or_zero(global_summary.result.humidity.value),
            r.luminosity.counter == or_zero(global_summary.result.luminosity.value),
            r.power.counter == or_zero(global_summary.result.power.value),
            r.alarm.counter == (match global_summary.result.alarm {
                Some(a) => or_zero(a.value),
                None => 0u32,
            }),
            r.updates.counter == 0,
            r.battery.battery_danger_counter == danger_total(battery_status.result@),
            r.battery.battery_warning_counter == warning_total(battery_status.result@),
            r.notifications.message_counter == notifications.result@.len() as u32,
            r.notifications.message_icon matches Some(i) && i@ == count_glyph_spec(
                notifications.result@.len() as u32,
            ),
            r.notifications.update_counter == update_total(notifications.result@),
            r.notifications.update_icon matches Some(i) && i@ == count_glyph_spec(
                update_total(notifications.result@) as u32,
            ),
    {
        let mut o = match bar_style {
            BarStyle::Nerd => JeedomSummaryOutput::init_with_nerd_fonts_icons(),
            BarStyle::Emoji => JeedomSummaryOutput::init_with_emoji_icons(),
            BarStyle::Jeedom => JeedomSummaryOutput::init_with_jeedom_icons(),
            BarStyle::Text => JeedomSummaryOutput::init_without_icons(),
        };
        match &global_summary.result.alarm {
            Some(x) => {
                o.alarm.counter = x.value.unwrap_or(0);
            },
            None => {},
        }
        o.security.counter = global_summary.result.security.value.unwrap_or(0);
        o.motion.counter = global_summary.result.motion.value.unwrap_or(0);
        o.door.counter = global_summary.result.door.value.unwrap_or(0);
        o.windows.counter = global_summary.result.windows.value.unwrap_or(0);
        o.shutter.counter = global_summary.result.shutter.value.unwrap_or(0);
        o.light.counter = global_summary.result.light.value.unwrap_or(0);
        o.outlet.counter = global_summary.result.outlet.value.unwrap_or(0);
        o.temperature.counter = global_summary.result.temperature.value.unwrap_or(0);
        o.humidity.counter = global_summary.result.humidity.value.unwrap_or(0);
        o.luminosity.counter = global_summary.result.luminosity.value.unwrap_or(0);
        o.power.counter = global_summary.result.power.value.unwrap_or(0);
        proof {
            lemma_battery_totals_bounded(battery_status.result@);
            lemma_update_total_bounded(notifications.result@);
        }
        o.update_notification_info(notifications);
        o.update_battery_info(battery_status);
        o
    }

    /// The icon-font theme.
    fn init_with_nerd_fonts_icons() -> (r: Self)
        ensures
            icons_of(r, BarStyle::Nerd),
            zeroed(r),
    {
        JeedomSummaryOutput::init_with_style(BarStyle::Nerd)
    }

    /// The emoji theme.
    fn init_with_emoji_icons() -> (r: Self)
        ensures
            icons_of(r, BarStyle::Emoji),
            zeroed(r),
    {
        JeedomSummaryOutput::init_with_style(BarStyle::Emoji)
    }

    /// The controller's own icon-font theme.
    fn init_with_jeedom_icons() -> (r: Self)
        ensures
            icons_of(r, BarStyle::Jeedom),
            zeroed(r),
    {
        JeedomSummaryOutput::init_with_style(BarStyle::Jeedom)
    }

    /// The plain-text theme.
    fn init_without_icons() -> (r: Self)
        ensures
            icons_of(r, BarStyle::Text),
            zeroed(r),
    {
        JeedomSummaryOutput::init_with_style(BarStyle::Text)
    }

    /// A fresh bar state whose icons follow `style` and whose counters
    /// are all zero.
    fn init_with_style(style: BarStyle) -> (r: Self)
        ensures
            icons_of(r, style),
            zeroed(r),
    {
        Self {
            alarm: JeedomSummaryItemOutput::new(glyph_for(style, Category::Alarm)),
            battery: JeedomBatteryInfoOuput::new(glyph_for(style, Category::Battery)),
            door: JeedomSummaryItemOutput::new(glyph_for(style, Category::Door)),
            humidity: JeedomSummaryItemOutput::new(glyph_for(style, Category::Humidity)),
            light: JeedomSummaryItemOutput::new(glyph_for(style, Category::Light)),
            luminosity: JeedomSummaryItemOutput::new(glyph_for(style, Category::Luminosity)),
            motion: JeedomSummaryItemOutput::new(glyph_for(style, Category::Motion)),
            outlet: JeedomSummaryItemOutput::new(glyph_for(style, Category::Outlet)),
            power: JeedomSummaryItemOutput::new(glyph_for(style, Category::Power)),
            security: JeedomSummaryItemOutput::new(glyph_for(style, Category::Security)),
            shutter: JeedomSummaryItemOutput::new(glyph_for(style, Category::Shutter)),
            temperature: JeedomSummaryItemOutput::new(glyph_for(style, Category::Temperature)),
            updates: JeedomSummaryItemOutput::new(glyph_for(style, Category::Updates)),
            windows: JeedomSummaryItemOutput::new(glyph_for(style, Category::Windows)),
            notifications: JeedomNotificationsItemOutput {
                message_icon: None,
                message_counter: 0,
                update_icon: None,
                update_counter: 0,
            },
        }
    }

    /// Whether the rendered bar will show anything beyond the idle
    /// string. A battery warning counts only when not ignored.
    pub fn is_there_something_to_print(&self, ignore_battery_warning: bool) -> (r: bool)
        ensures
            r == something_to_print(*self, ignore_battery_warning),
    {
        self.alarm.counter > 0 || self.battery.battery_danger_counter > 0 || (
        !ignore_battery_warning && self.battery.battery_warning_counter > 0)
            || self.door.counter > 0 || self.humidity.counter > 0 || self.light.counter > 0
            || self.luminosity.counter > 0 || self.motion.counter > 0 || self.outlet.counter > 0
            || self.power.counter > 0 || self.security.counter > 0 || self.shutter.counter > 0
            || self.temperature.counter > 0 || self.updates.counter > 0 || self.windows.counter
            > 0 || self.notifications.message_counter > 0 || self.notifications.update_counter > 0
    }

    /// Scans the device list and adds each device's contribution to the
    /// battery danger and warning counters; everything else is kept.
    pub fn update_battery_info(&mut self, battery_status: JeedomBatteryResult)
        requires
            old(self).battery.battery_danger_counter + danger_total(battery_status.result@)
                <= u32::MAX,
            old(self).battery.battery_warning_counter + warning_total(battery_status.result@)
                <= u32::MAX,
        ensures
            final(self).battery.battery_danger_counter == old(
                self,
            ).battery.battery_danger_counter + danger_total(battery_status.result@),
            final(self).battery.battery_warning_counter == old(
                self,
            ).battery.battery_warning_counter + warning_total(battery_status.result@),
            final(self).battery.icon == old(self).battery.icon,
            final(self).alarm == old(self).alarm,
            final(self).door == old(self).door,
            final(self).humidity == old(self).humidity,
            final(self).light == old(self).light,
            final(self).luminosity == old(self).luminosity,
            final(self).motion == old(self).motion,
            final(self).outlet == old(self).outlet,
            final(self).power == old(self).power,
            final(self).security == old(self).security,
            final(self).shutter == old(self).shutter,
            final(self).temperature == old(self).temperature,
            final(self).updates == old(self).updates,
            final(self).windows == old(self).windows,
            final(self).notifications == old(self).notifications,
    {
        let devices = &battery_status.result;
        let ghost all = battery_status.result@;
        let mut i: usize = 0;
        proof {
            assert(all.take(0) =~= Seq::<JeedomBattery>::empty());
        }
        while i < devices.len()
            invariant
                i <= all.len(),
                devices@ == all,
                old(self).battery.battery_danger_counter + danger_total(all) <= u32::MAX,
                old(self).battery.battery_warning_counter + warning_total(all) <= u32::MAX,
                self.battery.battery_danger_counter == old(self).battery.battery_danger_counter
                    + danger_total(all.take(i as int)),
                self.battery.battery_warning_counter == old(self).battery.battery_warning_counter
                    + warning_total(all.take(i as int)),
                self.battery.icon == old(self).battery.icon,
                self.alarm == old(self).alarm,
                self.door == old(self).door,
                self.humidity == old(self).humidity,
                self.light == old(self).light,
                self.luminosity == old(self).luminosity,
                self.motion == old(self).motion,
                self.outlet == old(self).outlet,
                self.power == old(self).power,
                self.security == old(self).security,
                self.shutter == old(self).shutter,
                self.temperature == old(self).temperature,
                self.updates == old(self).updates,
                self.windows == old(self).windows,
                self.notifications == old(self).notifications,
            decreases all.len() - i,
        {
            proof {
                lemma_battery_totals_prefix(all, i + 1);
                assert(all.take(i + 1).drop_last() =~= all.take(i as int));
                assert(all.take(i + 1).last() == all[i as int]);
            }
            let device = &devices[i];
            match &device.status {
                None => {},
                Some(st) => {
                    let mut in_danger = false;
                    match st.batterydanger {
                        Some(danger) => {
                            if danger != 0 {
                                in_danger = true;
                            } else {
                                match &st.battery {
                                    Some(level) => match level.0 {
                                        Some(l) => {
                                            if l <= JEEDOM_BATTERY_MIN_DANGER {
                                                in_danger = true;
                                            }
                                        },
                                        None => {},
                                    },
                                    None => {},
                                }
                            }
                        },
                        None => {},
                    }
                    if in_danger {
                        self.battery.battery_danger_counter =
                        self.battery.battery_danger_counter + 1;
                    } else {
                        let mut in_warning = false;
                        match st.batterywarning {
                            Some(warning) => {
                                if warning != 0 {
                                    in_warning = true;
                                } else {
                                    match &st.battery {
                                        Some(level) => match level.0 {
                                            Some(l) => {
                                                if l <= JEEDOM_BATTERY_MIN_WARNING {
                                                    in_warning = true;
                                                }
                                            },
                                            None => {},
                                        },
                                        None => {},
                                    }
                                }
                            },
                            None => {},
                        }
                        if in_warning {
                            self.battery.battery_warning_counter =
                            self.battery.battery_warning_counter + 1;
                        }
                    }
                },
            }
            i = i + 1;
        }
        proof {
            assert(all.take(all.len() as int) =~= all);
        }
    }

    /// Counts the notifications and the update notifications among
    /// them, and picks the count glyph for each; everything else is
    /// kept.
    pub fn update_notification_info(&mut self, notification_status: JeedomNotificationResult)
        requires
            notification_status.result@.len() <= u32::MAX,
        ensures
            final(self).notifications.message_counter == notification_status.result@.len() as u32,
            final(self).notifications.message_icon matches Some(i) && i@ == count_glyph_spec(
                notification_status.result@.len() as u32,
            ),
            final(self).notifications.update_counter == update_total(notification_status.result@),
            final(self).notifications.update_icon matches Some(i) && i@ == count_glyph_spec(
                update_total(notification_status.result@) as u32,
            ),
            final(self).alarm == old(self).alarm,
            final(self).battery == old(self).battery,
            final(self).door == old(self).door,
            final(self).humidity == old(self).humidity,
            final(self).light == old(self).light,
            final(self).luminosity == old(self).luminosity,
            final(self).motion == old(self).motion,
            final(self).outlet == old(self).outlet,
            final(self).power == old(self).power,
            final(self).security == old(self).security,
            final(self).shutter == old(self).shutter,
            final(self).temperature == old(self).temperature,
            final(self).updates == old(self).updates,
            final(self).windows == old(self).windows,
    {
        let messages = &notification_status.result;
        let ghost all = notification_status.result@;
        proof {
            lemma_update_total_bounded(all);
        }
        let mut updates: u32 = 0;
        let mut i: usize = 0;
        let update_plugin = String::from_str("update");
        proof {
            assert(all.take(0) =~= Seq::<JeedomNotificationStatus>::empty());
        }
        while i < messages.len()
            invariant
                i <= all.len(),
                all.len() <= u32::MAX,
                messages@ == all,
                update_plugin@ == "update"@,
                updates == update_total(all.take(i as int)),
                updates <= i,
            decreases all.len() - i,
        {
            proof {
                assert(all.take(i + 1).drop_last() =~= all.take(i as int));
                assert(all.take(i + 1).last() == all[i as int]);
            }
            if messages[i].plugin == update_plugin {
                updates = updates + 1;
            }
            i = i + 1;
        }
        proof {
            assert(all.take(all.len() as int) =~= all);
        }
        let count = messages.len() as u32;
        self.notifications.message_counter = count;
        self.notifications.message_icon = Some(notification_count_glyph(count));
        self.notifications.update_counter = updates;
        self.notifications.update_icon = Some(notification_count_glyph(updates));
    }

    /// Renders the bar: the idle string when nothing is worth printing,
    /// otherwise the counted segments joined by single spaces and
    /// wrapped in the envelope of `bar_type`.
    pub fn render_bar_output(
        &self,
        bar_type: BarType,
        ignore_battery_warning: bool,
        jeedom_url: String,
    ) -> (r: String)
        ensures
            r@ == render_spec(*self, bar_type, ignore_battery_warning, jeedom_url@),
    {
        if !self.is_there_something_to_print(ignore_battery_warning) {
            return String::from_str("Jeedom");
        }
        match bar_type {
            BarType::Mac => self.render_mac_block(jeedom_url),
            BarType::I3blocks => {
                let body = self.render_body_line(true, ignore_battery_warning);
                let mut r = body.clone();
                r.append("\n");
                r.append(body.as_str());
                r
            },
            BarType::I3StatusRust => self.render_body_line(true, ignore_battery_warning),
            BarType::Plain => {
                let mut r = self.render_body_line(false, ignore_battery_warning);
                r.append("\n");
                r
            },
        }
    }

    /// Builds the menu-style block of the menu bar format.
    fn render_mac_block(&self, jeedom_url: String) -> (r: String)
        ensures
            r@ == mac_block(*self, jeedom_url@),
    {
        let mut s = String::from_str("---");
        if self.notifications.update_counter > 0 {
            let n = u32_to_decimal(self.notifications.update_counter);
            s.append("\nUpdates ");
            s.append(n.as_str());
            s.append(" | color=red href=");
            s.append(jeedom_url.as_str());
            s.append("/index.php?v=d&p=update");
        }
        if self.notifications.message_counter > 0 {
            let n = u32_to_decimal(self.notifications.message_counter);
            s.append("\nMessages ");
            s.append(n.as_str());
            s.append(" | color=orange href=");
            s.append(jeedom_url.as_str());
        }
        proof {
            assert(s@ =~= mac_block(*self, jeedom_url@));
        }
        s
    }

    /// Builds the body line: every counted segment in order, joined by
    /// single spaces.
    fn render_body_line(&self, rich: bool, ignore_battery_warning: bool) -> (r: String)
        ensures
            r@ == join_space(body_segments(*self, rich, ignore_battery_warning)),
    {
        let mut parts: Vec<String> = Vec::new();
        push_cond(&mut parts, &self.security);
        push_cond(&mut parts, &self.motion);
        push_cond(&mut parts, &self.door);
        push_cond(&mut parts, &self.windows);
        push_cond(&mut parts, &self.shutter);
        push_cond(&mut parts, &self.light);
        push_cond(&mut parts, &self.outlet);
        push_cond(&mut parts, &self.temperature);
        push_cond(&mut parts, &self.humidity);
        push_cond(&mut parts, &self.luminosity);
        push_cond(&mut parts, &self.power);
        push_cond(&mut parts, &self.alarm);
        push_update(&mut parts, &self.notifications, rich);
        push_message(&mut parts, &self.notifications, rich);
        push_warning(&mut parts, &self.battery, rich, ignore_battery_warning);
        push_danger(&mut parts, &self.battery, rich);
        proof {
            assert(views_of(parts@) =~= body_segments(*self, rich, ignore_battery_warning));
        }
        join_with_spaces(&parts)
    }
}

/// Appends one category's segment when its counter is positive.
fn push_cond(parts: &mut Vec<String>, item: &JeedomSummaryItemOutput)
    ensures
        views_of(final(parts)@) == views_of(old(parts)@) + cond_seg(*item),
{
    if item.counter > 0 {
        parts.push(make_seg(item.counter, &item.icon));
    }
    proof {
        assert(views_of(parts@) =~= views_of(old(parts)@) + cond_seg(*item));
    }
}

/// Appends the update-notification segment when any update is pending.
fn push_update(parts: &mut Vec<String>, n: &JeedomNotificationsItemOutput, rich: bool)
    ensures
        views_of(final(parts)@) == views_of(old(parts)@) + update_segment(*n, rich),
{
    if n.update_counter > 0 {
        match &n.update_icon {
            Some(x) => {
                if rich {
                    parts.push(pango_wrap("red", x.as_str()));
                } else {
                    parts.push(x.clone());
                }
            },
            None => {},
        }
    }
    proof {
        assert(views_of(parts@) =~= views_of(old(parts)@) + update_segment(*n, rich));
    }
}

/// Appends the notification segment when any notification is pending.
fn push_message(parts: &mut Vec<String>, n: &JeedomNotificationsItemOutput, rich: bool)
    ensures
        views_of(final(parts)@) == views_of(old(parts)@) + message_segment(*n, rich),
{
    if n.message_counter > 0 {
        match &n.message_icon {
            Some(x) => {
                if rich {
                    parts.push(pango_wrap("yellow", x.as_str()));
                } else {
                    parts.push(x.clone());
                }
            },
            None => {},
        }
    }
    proof {
        assert(views_of(parts@) =~= views_of(old(parts)@) + message_segment(*n, rich));
    }
}

/// Appends the battery warning segment, unless warnings are ignored.
fn push_warning(parts: &mut Vec<String>, b: &JeedomBatteryInfoOuput, rich: bool, ignore: bool)
    ensures
        views_of(final(parts)@) == views_of(old(parts)@) + warning_segment(*b, rich, ignore),
{
    if !ignore && b.battery_warning_counter > 0 {
        let seg = make_seg(b.battery_warning_counter, &b.icon);
        if rich {
            parts.push(pango_wrap("yellow", seg.as_str()));
        } else {
            parts.push(seg);
        }
    }
    proof {
        assert(views_of(parts@) =~= views_of(old(parts)@) + warning_segment(*b, rich, ignore));
    }
}

/// Appends the battery danger segment.
fn push_danger(parts: &mut Vec<String>, b: &JeedomBatteryInfoOuput, rich: bool)
    ensures
        views_of(final(parts)@) == views_of(old(parts)@) + danger_segment(*b, rich),
{
    if b.battery_danger_counter > 0 {
        let seg = make_seg(b.battery_danger_counter, &b.icon);
        if rich {
            parts.push(pango_wrap("red", seg.as_str()));
        } else {
            parts.push(seg);
        }
    }
    proof {
        assert(views_of(parts@) =~= views_of(old(parts)@) + danger_segment(*b, rich));
    }
}

/// One `"<count><glyph>"` segment.
pub open spec fn seg_of(counter: u32, icon: Seq<char>) -> Seq<char> {
    dec_digits(counter as nat) + icon
}

/// The segment of one category: present exactly when its counter is
/// positive.
pub open spec fn cond_seg(item: JeedomSummaryItemOutput) -> Seq<Seq<char>> {
    if item.counter > 0 {
        seq![seg_of(item.counter, item.icon@)]
    } else {
        Seq::empty()
    }
}

/// The category segments in their fixed order, the optional alarm
/// category last.
pub open spec fn summary_segments(o: JeedomSummaryOutput) -> Seq<Seq<char>> {
    cond_seg(o.security) + cond_seg(o.motion) + cond_seg(o.door) + cond_seg(o.windows) + cond_seg(
        o.shutter,
    ) + cond_seg(o.light) + cond_seg(o.outlet) + cond_seg(o.temperature) + cond_seg(o.humidity)
        + cond_seg(o.luminosity) + cond_seg(o.power) + cond_seg(o.alarm)
}

/// A segment wrapped in the rich formats' colored markup.
pub open spec fn pango_span(color: Seq<char>, body: Seq<char>) -> Seq<char> {
    "<span color='"@ + color + "'><span font='Jeedom'>"@ + body + "</span></span>"@
}

/// A segment, colored when the format supports it.
pub open spec fn wrapped(rich: bool, color: Seq<char>, body: Seq<char>) -> Seq<char> {
    if rich {
        pango_span(color, body)
    } else {
        body
    }
}

/// The update-notification segment: its count glyph, in red on rich
/// formats, when any update is pending.
pub open spec fn update_segment(n: JeedomNotificationsItemOutput, rich: bool) -> Seq<Seq<char>> {
    if n.update_counter > 0 {
        match n.update_icon {
            Some(x) => seq![wrapped(rich, "red"@, x@)],
            None => Seq::empty(),
        }
    } else {
        Seq::empty()
    }
}

/// The notification segment: its count glyph, in yellow on rich
/// formats, when any notification is pending.
pub open spec fn message_segment(n: JeedomNotificationsItemOutput, rich: bool) -> Seq<Seq<char>> {
    if n.message_counter > 0 {
        match n.message_icon {
            Some(x) => seq![wrapped(rich, "yellow"@, x@)],
            None => Seq::empty(),
        }
    } else {
        Seq::empty()
    }
}

/// The battery warning segment, omitted entirely when warnings are
/// ignored.
pub open spec fn warning_segment(b: JeedomBatteryInfoOuput, rich: bool, ignore: bool) -> Seq<
    Seq<char>,
> {
    if !ignore && b.battery_warning_counter > 0 {
        seq![wrapped(rich, "yellow"@, seg_of(b.battery_warning_counter, b.icon@))]
    } else {
        Seq::empty()
    }
}

/// The battery danger segment.
pub open spec fn danger_segment(b: JeedomBatteryInfoOuput, rich: bool) -> Seq<Seq<char>> {
    if b.battery_danger_counter > 0 {
        seq![wrapped(rich, "red"@, seg_of(b.battery_danger_counter, b.icon@))]
    } else {
        Seq::empty()
    }
}

/// Whether `bar_type` takes colored markup in its body line.
pub open spec fn is_rich(bar_type: BarType) -> bool {
    bar_type is I3blocks || bar_type is I3StatusRust
}

/// Every segment of the body line, in order: the categories, the
/// notification pair, the battery pair.
pub open spec fn body_segments(o: JeedomSummaryOutput, rich: bool, ignore: bool) -> Seq<
    Seq<char>,
> {
    summary_segments(o) + update_segment(o.notifications, rich) + message_segment(
        o.notifications,
        rich,
    ) + warning_segment(o.battery, rich, ignore) + danger_segment(o.battery, rich)
}

/// The segments joined by single spaces.
pub open spec fn join_space(parts: Seq<Seq<char>>) -> Seq<char>
    decreases parts.len(),
{
    if parts.len() == 0 {
        Seq::empty()
    } else if parts.len() == 1 {
        parts[0]
    } else {
        join_space(parts.drop_last()) + " "@ + parts.last()
    }
}

/// The body line of `o` under `bar_type`.
pub open spec fn body_line(o: JeedomSummaryOutput, bar_type: BarType, ignore: bool) -> Seq<char> {
    join_space(body_segments(o, is_rich(bar_type), ignore))
}

/// The menu-style block: a separator line, then one clickable action
/// line per nonzero notification counter, referencing the dashboard.
pub open spec fn mac_block(o: JeedomSummaryOutput, url: Seq<char>) -> Seq<char> {
    "---"@ + (if o.notifications.update_counter > 0 {
        "\nUpdates "@ + dec_digits(o.notifications.update_counter as nat) + " | color=red href="@
            + url + "/index.php?v=d&p=update"@
    } else {
        Seq::<char>::empty()
    }) + (if o.notifications.message_counter > 0 {
        "\nMessages "@ + dec_digits(o.notifications.message_counter as nat)
            + " | color=orange href="@ + url
    } else {
        Seq::<char>::empty()
    })
}

/// What rendering yields: the idle string when nothing is worth
/// printing; otherwise the menu block for the menu format, the body
/// line doubled for the block format, bare for the single-line rich
/// format, and with a trailing newline for the plain format.
pub open spec fn render_spec(
    o: JeedomSummaryOutput,
    bar_type: BarType,
    ignore: bool,
    url: Seq<char>,
) -> Seq<char> {
    if !something_to_print(o, ignore) {
        "Jeedom"@
    } else {
        match bar_type {
            BarType::Mac => mac_block(o, url),
            BarType::I3blocks => body_line(o, bar_type, ignore) + "\n"@ + body_line(
                o,
                bar_type,
                ignore,
            ),
            BarType::I3StatusRust => body_line(o, bar_type, ignore),
            BarType::Plain => body_line(o, bar_type, ignore) + "\n"@,
        }
    }
}

/// A bar state with nothing to print renders as the fixed idle string,
/// whatever the format, the flag, and the dashboard URL.
pub proof fn lemma_idle_renders_fixed(
    o: JeedomSummaryOutput,
    bar_type: BarType,
    ignore: bool,
    url: Seq<char>,
)
    requires
        !something_to_print(o, ignore),
    ensures
        render_spec(o, bar_type, ignore, url) == "Jeedom"@,
{
}

/// A freshly aggregated state whose counters are all zero has nothing
/// to print, whether or not warnings are ignored.
pub proof fn lemma_zeroed_is_idle(o: JeedomSummaryOutput, ignore: bool)
    requires
        zeroed(o),
    ensures
        !something_to_print(o, ignore),
{
}

/// The views of a vector of segments.
pub open spec fn views_of(v: Seq<String>) -> Seq<Seq<char>> {
    Seq::new(v.len(), |i: int| v[i]@)
}

/// Builds one `"<count><glyph>"` segment.
fn make_seg(counter: u32, icon: &String) -> (r: String)
    ensures
        r@ == seg_of(counter, icon@),
{
    let mut s = u32_to_decimal(counter);
    s.append(icon.as_str());
    s
}

/// Wraps a segment in the rich formats' colored markup.
fn pango_wrap(color: &str, body: &str) -> (r: String)
    ensures
        r@ == pango_span(color@, body@),
{
    let mut s = String::from_str("<span color='");
    s.append(color);
    s.append("'><span font='Jeedom'>");
    s.append(body);
    s.append("</span></span>");
    s
}

/// Joins the segments with single spaces.
fn join_with_spaces(parts: &Vec<String>) -> (r: String)
    ensures
        r@ == join_space(views_of(parts@)),
{
    let mut r = String::new();
    let mut i: usize = 0;
    proof {
        assert(views_of(parts@).take(0) =~= Seq::<Seq<char>>::empty());
    }
    while i < parts.len()
        invariant
            i <= parts@.len(),
            r@ == join_space(views_of(parts@).take(i as int)),
        decreases parts@.len() - i,
    {
        proof {
            assert(views_of(parts@).take(i + 1).drop_last() =~= views_of(parts@).take(i as int));
            assert(views_of(parts@).take(i + 1).last() == views_of(parts@)[i as int]);
        }
        if i > 0 {
            r.append(" ");
        }
        let p = &parts[i];
        r.append(p.as_str());
        i = i + 1;
    }
    proof {
        assert(views_of(parts@).take(parts@.len() as int) =~= views_of(parts@));
    }
    r
}

} // verus!
