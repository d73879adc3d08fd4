//! Typed models of the controller's JSON-RPC requests and responses.
//!
//! Each response model mirrors one request kind: a ping or version string,
//! the global summary of counters, the per-device battery list, and the
//! notification list. Types that carry strings get a view struct over
//! `Seq<char>` so that contracts can speak of their contents.

use vstd::prelude::*;

use crate::json::DecodeError;

verus! {

/// The JSON-RPC call envelope sent to the controller.
#[derive(Debug, Clone, PartialEq)]
pub struct JeedomJsonRpcRequest {
    pub jsonrpc: String,
    pub id: String,
    pub method: String,
    pub params: JeedomJsonRpcApiParamsRequest,
}

/// The parameters of a call: the API key and a placeholder timestamp.
#[derive(Debug, Clone, PartialEq)]
pub struct JeedomJsonRpcApiParamsRequest {
    pub apikey: String,
    pub datetime: String,
}

impl JeedomJsonRpcRequest {
    /// Builds the call envelope for `method`, authenticated by `apikey`.
    pub fn new(apikey: String, method: String) -> (r: Self)
        ensures
            r.jsonrpc@ == "2.0"@,
            r.id@ == "1"@,
            r.method == method,
            r.params.apikey == apikey,
            r.params.datetime@ == "1"@,
    {
        Self {
            jsonrpc: String::from_str("2.0"),
            id: String::from_str("1"),
            method,
            params: JeedomJsonRpcApiParamsRequest { apikey, datetime: String::from_str("1") },
        }
    }
}

/// The controller's own error envelope.
#[derive(Debug, Clone, PartialEq)]
pub struct JeedomRpcError {
    pub error: JeedomErrorContent,
}

/// The code and message carried by an error envelope.
#[derive(Debug, Clone, PartialEq)]
pub struct JeedomErrorContent {
    pub code: u32,
    pub message: String,
}

/// The contents of a `JeedomErrorContent`, for contracts.
pub struct JeedomErrorContentView {
    pub code: u32,
    pub message: Seq<char>,
}

impl View for JeedomErrorContent {
    type V = JeedomErrorContentView;

    open spec fn view(&self) -> JeedomErrorContentView {
        JeedomErrorContentView { code: self.code, message: self.message@ }
    }
}

impl View for JeedomRpcError {
    type V = JeedomErrorContentView;

    open spec fn view(&self) -> JeedomErrorContentView {
        self.error@
    }
}

/// Why a response could not be used: either the controller reported an
/// error of its own, or the payload did not decode.
#[derive(Debug, Clone, PartialEq)]
pub enum JeedomClientErrors {
    ApiError(JeedomErrorContent),
    DeserializationError(DecodeError),
}

/// The contents of a `JeedomClientErrors`, for contracts.
pub enum JeedomClientErrorsView {
    ApiError(JeedomErrorContentView),
    DeserializationError(DecodeError),
}

impl View for JeedomClientErrors {
    type V = JeedomClientErrorsView;

    open spec fn view(&self) -> JeedomClientErrorsView {
        match self {
            JeedomClientErrors::ApiError(c) => JeedomClientErrorsView::ApiError(c@),
            JeedomClientErrors::DeserializationError(d) => {
                JeedomClientErrorsView::DeserializationError(*d)
            },
        }
    }
}

/// The ping response: the string `"pong"` on a healthy controller.
#[derive(Debug, Clone, PartialEq)]
pub struct JeedomPingResult {
    pub result: String,
}

impl View for JeedomPingResult {
    type V = Seq<char>;

    open spec fn view(&self) -> Seq<char> {
        self.result@
    }
}

/// The version response: the controller's version string.
#[derive(Debug, Clone, PartialEq)]
pub struct JeedomVersionResult {
    pub result: String,
}

impl View for JeedomVersionResult {
    type V = Seq<char>;

    open spec fn view(&self) -> Seq<char> {
        self.result@
    }
}

/// The global summary response envelope.
#[derive(Debug, Clone, PartialEq)]
pub struct JeedomGlobalSummaryResult {
    pub result: JeedomGlobalSummary,
}

/// One counter per summary category. `alarm` is absent on controllers
/// that do not define that custom category.
#[derive(Debug, Clone, PartialEq)]
pub struct JeedomGlobalSummary {
    pub security: JeedomSummary,
    pub motion: JeedomSummary,
    pub door: JeedomSummary,
    pub windows: JeedomSummary,
    pub shutter: JeedomSummary,
    pub light: JeedomSummary,
    pub outlet: JeedomSummary,
    pub temperature: JeedomSummary,
    pub humidity: JeedomSummary,
    pub luminosity: JeedomSummary,
    pub power: JeedomSummary,
    pub alarm: Option<JeedomSummary>,
}

/// One summary category: its key, display name, unit, and counter. The
/// counter is flexible upstream and may be absent.
#[derive(Debug, Clone, PartialEq)]
pub struct JeedomSummary {
    pub key: String,
    pub name: String,
    pub unit: String,
    pub value: Option<u32>,
}

/// The contents of a `JeedomSummary`, for contracts.
pub struct JeedomSummaryView {
    pub key: Seq<char>,
    pub name: Seq<char>,
    pub unit: Seq<char>,
    pub value: Option<u32>,
}

impl View for JeedomSummary {
    type V = JeedomSummaryView;

    open spec fn view(&self) -> JeedomSummaryView {
        JeedomSummaryView {
            key: self.key@,
            name: self.name@,
            unit: self.unit@,
            value: self.value,
        }
    }
}

/// The contents of a `JeedomGlobalSummary`, for contracts.
pub struct JeedomGlobalSummaryView {
    pub security: JeedomSummaryView,
    pub motion: JeedomSummaryView,
    pub door: JeedomSummaryView,
    pub windows: JeedomSummaryView,
    pub shutter: JeedomSummaryView,
    pub light: JeedomSummaryView,
    pub outlet: JeedomSummaryView,
    pub temperature: JeedomSummaryView,
    pub humidity: JeedomSummaryView,
    pub luminosity: JeedomSummaryView,
    pub power: JeedomSummaryView,
    pub alarm: Option<JeedomSummaryView>,
}

impl View for JeedomGlobalSummary {
    type V = JeedomGlobalSummaryView;

    open spec fn view(&self) -> JeedomGlobalSummaryView {
        JeedomGlobalSummaryView {
            security: self.security@,
            motion: self.motion@,
            door: self.door@,
            windows: self.windows@,
            shutter: self.shutter@,
            light: self.light@,
            outlet: self.outlet@,
            temperature: self.temperature@,
            humidity: self.humidity@,
            luminosity: self.luminosity@,
            power: self.power@,
            alarm: match self.alarm {
                Some(a) => Some(a@),
                None => None,
            },
        }
    }
}

/// The battery status response envelope: one record per device.
#[derive(Debug, Clone, PartialEq)]
pub struct JeedomBatteryResult {
    pub result: Vec<JeedomBattery>,
}

/// One device record. Only its status block matters to the library;
/// the block itself is flexible upstream and may be an empty array.
#[derive(Debug, Clone, PartialEq)]
pub struct JeedomBattery {
    pub status: Option<JeedomBatteryStatus>,
}

/// A device status block: the danger and warning flags (numbers read as
/// booleans, nonzero meaning set) and the battery level in percent.
#[derive(Debug, Clone, PartialEq)]
pub struct JeedomBatteryStatus {
    pub batterydanger: Option<u32>,
    pub batterywarning: Option<u32>,
    pub battery: Option<BatteryPercentage>,
}

/// A battery level that arrived as an integer or as a string; a
/// non-numeric string degrades to an absent level.
#[derive(Debug, Clone, PartialEq)]
pub struct BatteryPercentage(pub Option<u32>);

/// The update status response envelope.
#[derive(Default, Debug, Clone, PartialEq)]
pub struct JeedomUpdateStatusResult {
    pub result: Vec<JeedomUpdateStatus>,
}

/// One pending update entry, by name.
#[derive(Default, Debug, Clone, PartialEq)]
pub struct JeedomUpdateStatus {
    pub name: String,
}

/// The notification response envelope.
#[derive(Default, Debug, Clone, PartialEq)]
pub struct JeedomNotificationResult {
    pub result: Vec<JeedomNotificationStatus>,
}

/// One pending notification; only the originating plugin name matters.
#[derive(Default, Debug, Clone, PartialEq)]
pub struct JeedomNotificationStatus {
    pub plugin: String,
}

impl View for JeedomNotificationStatus {
    type V = Seq<char>;

    open spec fn view(&self) -> Seq<char> {
        self.plugin@
    }
}

} // verus!
