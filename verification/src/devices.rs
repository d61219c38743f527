//! Google Home devices served by a node: the dLight lamp and the Wemo plug.
//!
//! Talking to a device is left to the caller; these types hold what the
//! node knows of each device and decide, from each answer the device gives,
//! the device's new state and the JSON sent back to Google Home.

use vstd::prelude::*;
use vstd::string::*;

use crate::fulfillment::text_is;
use crate::json::{self, array_value, empty_object, get_member, object_value, push_member, text_value, Json, JsonNumber, JsonValue, Num};
use crate::strings;
use crate::uri::{self, byte_len, fits_url, join_url, port_of_url, with_port, MAX_URL_INPUT};

verus! {

broadcast use vstd::string::group_string_axioms;

/// What an EXECUTE request does to a lamp: the settings after its actions
/// ran, whether they all could be read, and which settings they touched.
#[derive(Clone, Copy)]
pub struct LightPlan {
    pub on: bool,
    pub brightness: u64,
    pub temperature: u64,
    pub success: bool,
    pub on_set: bool,
    pub brightness_set: bool,
    pub color_set: bool,
}

/// The plan after a failed action: settings already changed stay changed.
pub open spec fn failed(p: LightPlan) -> LightPlan {
    LightPlan { success: false, ..p }
}

/// The highest brightness of a lamp, in percent.
pub const MAX_BRIGHTNESS: u64 = 100;

/// The lowest colour temperature of a lamp, in Kelvin.
pub const MIN_TEMPERATURE: u64 = 2600;

/// The highest colour temperature of a lamp, in Kelvin.
pub const MAX_TEMPERATURE: u64 = 6000;

/// Whether `n` is a brightness a lamp can take.
pub open spec fn brightness_in_range(n: u64) -> bool {
    n <= MAX_BRIGHTNESS
}

/// Whether `t` is a colour temperature a lamp can take.
pub open spec fn temperature_in_range(t: u64) -> bool {
    MIN_TEMPERATURE <= t <= MAX_TEMPERATURE
}

/// One action of an EXECUTE request applied to a lamp plan. An action must
/// be an object with a `command` and an object `params`; OnOff reads a
/// boolean `on`, BrightnessAbsolute an unsigned `brightness` of at most 100,
/// ColorAbsolute an object `color` with an unsigned `temperature` between
/// 2600 and 6000; a value out of range fails the action like one that cannot
/// be read; other commands change nothing.
pub open spec fn light_action(p: LightPlan, a: Json) -> LightPlan {
    match a {
        Json::Object(m) => match (json::member(m, "command"@), json::member(m, "params"@)) {
            (Some(cmd), Some(Json::Object(params))) => match cmd {
                Json::Str(c) => if c == "action.devices.commands.OnOff"@ {
                    match json::member(params, "on"@) {
                        Some(Json::Bool(b)) => LightPlan { on: b, on_set: true, ..p },
                        _ => failed(p),
                    }
                } else if c == "action.devices.commands.BrightnessAbsolute"@ {
                    match json::member(params, "brightness"@) {
                        Some(Json::Number(Num::PosInt(n))) => if brightness_in_range(n) {
                            LightPlan { brightness: n, brightness_set: true, ..p }
                        } else {
                            failed(p)
                        },
                        _ => failed(p),
                    }
                } else if c == "action.devices.commands.ColorAbsolute"@ {
                    match json::member(params, "color"@) {
                        Some(Json::Object(cm)) => match json::member(cm, "temperature"@) {
                            Some(Json::Number(Num::PosInt(t))) => if temperature_in_range(t) {
                                LightPlan { temperature: t, color_set: true, ..p }
                            } else {
                                failed(p)
                            },
                            _ => failed(p),
                        },
                        _ => failed(p),
                    }
                } else {
                    p
                },
                _ => p,
            },
            _ => failed(p),
        },
        _ => failed(p),
    }
}

/// The plan after the actions `s`, stopping at the first action that fails.
pub open spec fn light_plan(p: LightPlan, s: Seq<Json>) -> LightPlan
    decreases s.len(),
{
    if s.len() == 0 {
        p
    } else {
        let q = light_plan(p, s.drop_last());
        if q.success {
            light_action(q, s.last())
        } else {
            q
        }
    }
}

/// Every setting a plan holds is the one it started from or one an action
/// set, and every setting an action sets lies in the lamp's range.
pub open spec fn settings_kept_or_in_range(start: LightPlan, q: LightPlan) -> bool {
    &&& (q.brightness_set ==> brightness_in_range(q.brightness))
    &&& (!q.brightness_set ==> q.brightness == start.brightness)
    &&& (q.color_set ==> temperature_in_range(q.temperature))
    &&& (!q.color_set ==> q.temperature == start.temperature)
}

/// Running the actions of an EXECUTE request only ever gives a lamp a
/// brightness of at most 100 percent and a colour temperature between 2600
/// and 6000 Kelvin: a setting the actions leave alone keeps its value.
pub proof fn lemma_light_plan_in_range(p: LightPlan, s: Seq<Json>)
    requires
        !p.brightness_set,
        !p.color_set,
    ensures
        settings_kept_or_in_range(p, light_plan(p, s)),
    decreases s.len(),
{
    if s.len() > 0 {
        lemma_light_plan_in_range(p, s.drop_last());
    }
}

/// A lamp action that can be read sets the setting it names to the value it
/// asks for: OnOff sets `on` to `params.on`, BrightnessAbsolute sets the
/// brightness to `params.brightness` when it is at most 100, ColorAbsolute
/// sets the temperature to `params.color.temperature` when it lies in
/// 2600..=6000; the other settings are left as they were.
pub proof fn lemma_light_action_sets_requested(
    p: LightPlan,
    m: Seq<(Seq<char>, Json)>,
    params: Seq<(Seq<char>, Json)>,
)
    requires
        json::member(m, "params"@) == Some(Json::Object(params)),
    ensures
        json::member(m, "command"@) == Some(Json::Str("action.devices.commands.OnOff"@)) ==> (json::member(
            params,
            "on"@,
        ) matches Some(Json::Bool(b)) ==> {
            let q = light_action(p, Json::Object(m));
            q.on == b && q.on_set && q.brightness == p.brightness && q.temperature == p.temperature && q.success
                == p.success
        }),
        json::member(m, "command"@) == Some(Json::Str("action.devices.commands.BrightnessAbsolute"@)) ==> (
        json::member(params, "brightness"@) matches Some(Json::Number(Num::PosInt(n))) ==> {
            let q = light_action(p, Json::Object(m));
            &&& n <= 100 ==> q.brightness == n && q.brightness_set && q.on == p.on && q.temperature == p.temperature
                && q.success == p.success
            &&& n > 100 ==> !q.success && q.brightness == p.brightness
        }),
        json::member(m, "command"@) == Some(Json::Str("action.devices.commands.ColorAbsolute"@)) ==> (
        json::member(params, "color"@) matches Some(Json::Object(cm)) ==> (json::member(cm, "temperature"@) matches Some(
            Json::Number(Num::PosInt(t)),
        ) ==> {
            let q = light_action(p, Json::Object(m));
            &&& 2600 <= t <= 6000 ==> q.temperature == t && q.color_set && q.on == p.on && q.brightness
                == p.brightness && q.success == p.success
            &&& !(2600 <= t <= 6000) ==> !q.success && q.temperature == p.temperature
        })),
{
    reveal_strlit("action.devices.commands.OnOff");
    reveal_strlit("action.devices.commands.BrightnessAbsolute");
    reveal_strlit("action.devices.commands.ColorAbsolute");
    assert("action.devices.commands.OnOff"@.len() != "action.devices.commands.BrightnessAbsolute"@.len());
    assert("action.devices.commands.OnOff"@.len() != "action.devices.commands.ColorAbsolute"@.len());
    assert("action.devices.commands.ColorAbsolute"@.len() != "action.devices.commands.BrightnessAbsolute"@.len());
}

/// A JSON number holding `n`.
pub open spec fn jnum(n: u64) -> Json {
    Json::Number(Num::PosInt(n))
}

/// The state object of a lamp after a successful EXECUTE request.
pub open spec fn light_states(p: LightPlan) -> Seq<(Seq<char>, Json)> {
    let s0 = seq![("online"@, Json::Bool(true))];
    let s1 = if p.color_set {
        s0.push(("color"@, Json::Object(seq![("temperatureK"@, jnum(p.temperature))])))
    } else {
        s0
    };
    let s2 = if p.brightness_set { s1.push(("brightness"@, jnum(p.brightness))) } else { s1 };
    if p.on_set {
        s2.push(("on"@, Json::Bool(p.on)))
    } else {
        s2
    }
}

/// The transient error reported when an EXECUTE request cannot be read.
pub open spec fn transient_error() -> Json {
    Json::Object(seq![("status"@, Json::Str("ERROR"@)), ("errorCode"@, Json::Str("transientError"@))])
}

/// The error reported for a device that did not answer.
pub open spec fn device_offline() -> Json {
    Json::Object(seq![("status"@, Json::Str("ERROR"@)), ("errorCode"@, Json::Str("deviceOffline"@))])
}

/// The answer to an EXECUTE request on a lamp.
pub open spec fn light_execute_reply(p: LightPlan) -> Json {
    if p.success {
        Json::Object(seq![("status"@, Json::Str("SUCCESS"@)), ("states"@, Json::Object(light_states(p)))])
    } else {
        transient_error()
    }
}

/// The settings a lamp is told to take.
#[derive(Clone, Copy)]
pub struct LightCommand {
    pub on: Option<bool>,
    pub brightness: Option<u64>,
    pub temperature: Option<u64>,
}

/// The command sent to a lamp after a successful EXECUTE request: the
/// settings the request touched.
pub open spec fn light_command(p: LightPlan) -> LightCommand {
    LightCommand {
        on: if p.on_set { Some(p.on) } else { None },
        brightness: if p.brightness_set { Some(p.brightness) } else { None },
        temperature: if p.color_set { Some(p.temperature) } else { None },
    }
}

/// The unsigned number stored under `k` in `m`.
fn unsigned_in(m: &Vec<(String, JsonValue)>, k: &str) -> (r: Option<u64>)
    ensures
        r is None <==> !(json::member(json::members_view(m@), k@) matches Some(Json::Number(Num::PosInt(_)))),
        r matches Some(n) ==> json::member(json::members_view(m@), k@) == Some(jnum(n)),
{
    match get_member(m, k) {
        Some(JsonValue::Number(JsonNumber::PosInt(n))) => Some(*n),
        _ => None,
    }
}

/// One action applied to a lamp plan.
pub fn light_step(p: LightPlan, a: &JsonValue) -> (q: LightPlan)
    ensures
        q == light_action(p, a@),
{
    let m = match a {
        JsonValue::Object(m) => m,
        _ => return LightPlan { success: false, ..p },
    };
    proof {
        json::lemma_object_view(*m);
    }
    let cmd = match get_member(m, "command") {
        Some(c) => c,
        None => return LightPlan { success: false, ..p },
    };
    let params = match get_member(m, "params") {
        Some(JsonValue::Object(params)) => params,
        _ => return LightPlan { success: false, ..p },
    };
    proof {
        json::lemma_object_view(*params);
    }
    let c = match cmd {
        JsonValue::String(c) => c,
        _ => return p,
    };
    if text_is(c, "action.devices.commands.OnOff") {
        match get_member(params, "on") {
            Some(JsonValue::Bool(b)) => LightPlan { on: *b, on_set: true, ..p },
            _ => LightPlan { success: false, ..p },
        }
    } else if text_is(c, "action.devices.commands.BrightnessAbsolute") {
        match unsigned_in(params, "brightness") {
            Some(n) => if n <= MAX_BRIGHTNESS {
                LightPlan { brightness: n, brightness_set: true, ..p }
            } else {
                LightPlan { success: false, ..p }
            },
            None => LightPlan { success: false, ..p },
        }
    } else if text_is(c, "action.devices.commands.ColorAbsolute") {
        match get_member(params, "color") {
            Some(JsonValue::Object(cm)) => {
                proof {
                    json::lemma_object_view(*cm);
                }
                match unsigned_in(cm, "temperature") {
                    Some(t) => if MIN_TEMPERATURE <= t && t <= MAX_TEMPERATURE {
                        LightPlan { temperature: t, color_set: true, ..p }
                    } else {
                        LightPlan { success: false, ..p }
                    },
                    None => LightPlan { success: false, ..p },
                }
            },
            _ => LightPlan { success: false, ..p },
        }
    } else {
        p
    }
}

/// A lamp reached over TCP.
pub struct DLight {
    pub id: String,
    pub name: String,
    pub device_id: String,
    /// Percent: 0 - 100
    pub brightness: u64,
    /// Kelvin: 2600 - 6000
    pub temperature: u64,
    pub on: bool,
    pub uri: Option<String>,
}

/// The settings a lamp reports about itself.
#[derive(Clone, Copy)]
pub struct LightStates {
    pub on: Option<bool>,
    pub brightness: Option<u64>,
    pub temperature: Option<u64>,
}

/// The object describing a lamp to a SYNC request.
pub open spec fn light_sync_value(id: Seq<char>, name: Seq<char>) -> Json {
    Json::Object(
        seq![
            ("id"@, Json::Str(id)),
            ("type"@, Json::Str("action.devices.types.LIGHT"@)),
            (
                "traits"@,
                Json::Array(
                    seq![
                        Json::Str("action.devices.traits.ColorSetting"@),
                        Json::Str("action.devices.traits.Brightness"@),
                        Json::Str("action.devices.traits.OnOff"@),
                    ],
                ),
            ),
            ("name"@, Json::Object(seq![("name"@, Json::Str(name))])),
            ("willReportState"@, Json::Bool(true)),
            (
                "attributes"@,
                Json::Object(
                    seq![
                        (
                            "colorTemperatureRange"@,
                            Json::Object(seq![("temperatureMinK"@, jnum(2600)), ("temperatureMaxK"@, jnum(6000))]),
                        ),
                    ],
                ),
            ),
            (
                "deviceInfo"@,
                Json::Object(
                    seq![
                        ("manufacturer"@, Json::Str("envtrackernode"@)),
                        ("model"@, Json::Str("dlight"@)),
                        ("hwVersion"@, Json::Str("1.0"@)),
                        ("swVersion"@, Json::Str("1.0"@)),
                    ],
                ),
            ),
        ],
    )
}

/// The object describing a lamp's state to a QUERY request.
pub open spec fn light_query_value(on: bool, brightness: u64, temperature: u64) -> Json {
    Json::Object(
        seq![
            ("status"@, Json::Str("SUCCESS"@)),
            ("online"@, Json::Bool(true)),
            ("on"@, Json::Bool(on)),
            ("brightness"@, jnum(brightness)),
            ("color"@, Json::Object(seq![("temperatureK"@, jnum(temperature))])),
        ],
    )
}

/// A lamp's QUERY state reports the lamp's own settings: status `SUCCESS`,
/// online, `on` as the lamp is, its brightness, and its colour temperature
/// under `color.temperatureK`.
pub proof fn lemma_light_query_reports_settings(on: bool, brightness: u64, temperature: u64)
    ensures
        light_query_value(on, brightness, temperature) matches Json::Object(m) && {
            &&& json::member(m, "status"@) == Some(Json::Str("SUCCESS"@))
            &&& json::member(m, "online"@) == Some(Json::Bool(true))
            &&& json::member(m, "on"@) == Some(Json::Bool(on))
            &&& json::member(m, "brightness"@) == Some(Json::Number(Num::PosInt(brightness)))
            &&& json::member(m, "color"@) matches Some(Json::Object(c)) && json::member(c, "temperatureK"@) == Some(
                Json::Number(Num::PosInt(temperature)),
            )
        },
{
    reveal_strlit("status");
    reveal_strlit("online");
    reveal_strlit("on");
    reveal_strlit("brightness");
    reveal_strlit("color");
    reveal_strlit("temperatureK");
    let m = match light_query_value(on, brightness, temperature) {
        Json::Object(m) => m,
        _ => Seq::empty(),
    };
    assert("status"@ != "online"@) by {
        assert("status"@[0] != "online"@[0]);
    }
    assert("on"@.len() == 2 && "status"@.len() == 6 && "online"@.len() == 6 && "brightness"@.len() == 10
        && "color"@.len() == 5);
    assert(json::is_first_key(m, "status"@, 0));
    json::lemma_key_index_found(m, "status"@, 0);
    assert(json::is_first_key(m, "online"@, 1));
    json::lemma_key_index_found(m, "online"@, 1);
    assert(json::is_first_key(m, "on"@, 2));
    json::lemma_key_index_found(m, "on"@, 2);
    assert(json::is_first_key(m, "brightness"@, 3));
    json::lemma_key_index_found(m, "brightness"@, 3);
    assert(json::is_first_key(m, "color"@, 4));
    json::lemma_key_index_found(m, "color"@, 4);
    let c = seq![("temperatureK"@, jnum(temperature))];
    assert(json::is_first_key(c, "temperatureK"@, 0));
    json::lemma_key_index_found(c, "temperatureK"@, 0);
}

/// The device information object of a node's device.
fn device_info_value(model: &str) -> (v: JsonValue)
    ensures
        v@ == Json::Object(
            seq![
                ("manufacturer"@, Json::Str("envtrackernode"@)),
                ("model"@, Json::Str(model@)),
                ("hwVersion"@, Json::Str("1.0"@)),
                ("swVersion"@, Json::Str("1.0"@)),
            ],
        ),
{
    let mut m: Vec<(String, JsonValue)> = Vec::new();
    push_member(&mut m, "manufacturer", text_value("envtrackernode"));
    push_member(&mut m, "model", text_value(model));
    push_member(&mut m, "hwVersion", text_value("1.0"));
    push_member(&mut m, "swVersion", text_value("1.0"));
    let v = object_value(m);
    assert(json::members_view(m@) =~= seq![
        ("manufacturer"@, Json::Str("envtrackernode"@)),
        ("model"@, Json::Str(model@)),
        ("hwVersion"@, Json::Str("1.0"@)),
        ("swVersion"@, Json::Str("1.0"@)),
    ]);
    v
}

/// `{ name: name }`
fn name_value(name: &String) -> (v: JsonValue)
    ensures
        v@ == Json::Object(seq![("name"@, Json::Str(name@))]),
{
    let mut m: Vec<(String, JsonValue)> = Vec::new();
    push_member(&mut m, "name", JsonValue::String(name.clone()));
    assert(json::members_view(m@) =~= seq![("name"@, Json::Str(name@))]);
    object_value(m)
}

/// A JSON number holding `n`.
pub fn number_value(n: u64) -> (v: JsonValue)
    ensures
        v@ == jnum(n),
{
    JsonValue::Number(JsonNumber::PosInt(n))
}

/// `{ temperatureK: t }`
fn color_value(t: u64) -> (v: JsonValue)
    ensures
        v@ == Json::Object(seq![("temperatureK"@, jnum(t))]),
{
    let mut m: Vec<(String, JsonValue)> = Vec::new();
    push_member(&mut m, "temperatureK", number_value(t));
    assert(json::members_view(m@) =~= seq![("temperatureK"@, jnum(t))]);
    object_value(m)
}

/// The transient error reported when an EXECUTE request cannot be read.
pub fn transient_error_value() -> (v: JsonValue)
    ensures
        v@ == transient_error(),
{
    let mut m: Vec<(String, JsonValue)> = Vec::new();
    push_member(&mut m, "status", text_value("ERROR"));
    push_member(&mut m, "errorCode", text_value("transientError"));
    assert(json::members_view(m@) =~= seq![("status"@, Json::Str("ERROR"@)), ("errorCode"@, Json::Str("transientError"@))]);
    object_value(m)
}

/// The error reported for a device that did not answer.
pub fn device_offline_value() -> (v: JsonValue)
    ensures
        v@ == device_offline(),
{
    let mut m: Vec<(String, JsonValue)> = Vec::new();
    push_member(&mut m, "status", text_value("ERROR"));
    push_member(&mut m, "errorCode", text_value("deviceOffline"));
    assert(json::members_view(m@) =~= seq![("status"@, Json::Str("ERROR"@)), ("errorCode"@, Json::Str("deviceOffline"@))]);
    object_value(m)
}

/// The text `a + "_" + b`.
pub fn joined_id(a: &str, b: &str) -> (s: String)
    ensures
        s@ == a@ + "_"@ + b@,
{
    let mut s = String::from_str(a);
    s.append("_");
    s.append(b);
    s
}

impl DLight {
    /// A lamp not yet discovered, named after the identifier `uuid`.
    pub fn base(uuid: &str) -> (d: DLight)
        ensures
            d.id@ == "GLAMP_BASE_"@ + uuid@,
            d.name@ == "GLAMP_BASE"@,
            d.device_id@ == uuid@,
            d.brightness == 0,
            d.temperature == 0,
            !d.on,
            d.uri is None,
    {
        let mut id = String::from_str("GLAMP_BASE_");
        id.append(uuid);
        DLight {
            id,
            name: String::from_str("GLAMP_BASE"),
            device_id: String::from_str(uuid),
            brightness: 0,
            temperature: 0,
            on: false,
            uri: None,
        }
    }

    /// The lamp found at `uri` that answered discovery with `device_model`
    /// and `device_id`; its settings are read afterwards.
    pub fn discovered(device_model: &str, device_id: &str, uri: String) -> (d: DLight)
        ensures
            d.id@ == device_model@ + "_"@ + device_id@,
            d.name@ == device_model@,
            d.device_id@ == device_id@,
            d.brightness == 0,
            d.temperature == 0,
            !d.on,
            d.uri == Some(uri),
    {
        DLight {
            id: joined_id(device_model, device_id),
            name: String::from_str(device_model),
            device_id: String::from_str(device_id),
            brightness: 0,
            temperature: 0,
            on: false,
            uri: Some(uri),
        }
    }

    /// The lamp's identifier.
    pub fn get_id(&self) -> (s: String)
        ensures
            s@ == self.id@,
    {
        self.id.clone()
    }

    /// Whether a lamp's answer belongs to the request `command_id` sent to
    /// this lamp and reports success.
    pub fn answer_accepted(&self, command_id: &str, status: &String, answer_command_id: &String, answer_device_id: &String) -> (r: bool)
        ensures
            r == (status@ == "SUCCESS"@ && answer_command_id@ == command_id@ && answer_device_id@ == self.device_id@),
    {
        text_is(status, "SUCCESS") && *answer_command_id == String::from_str(command_id)
            && *answer_device_id == self.device_id
    }

    /// Takes the settings a lamp reported.
    pub fn apply_states(&mut self, states: LightStates)
        requires
            states.on is Some,
            states.brightness is Some,
            states.temperature is Some,
        ensures
            final(self).on == states.on.unwrap(),
            final(self).brightness == states.brightness.unwrap(),
            final(self).temperature == states.temperature.unwrap(),
            final(self).id == old(self).id,
            final(self).name == old(self).name,
            final(self).device_id == old(self).device_id,
            final(self).uri == old(self).uri,
    {
        self.on = states.on.unwrap();
        self.brightness = states.brightness.unwrap();
        self.temperature = states.temperature.unwrap();
    }

    /// The object describing the lamp to a SYNC request.
    pub fn get_sync_value(&self) -> (v: JsonValue)
        ensures
            v@ == light_sync_value(self.id@, self.name@),
    {
        let mut traits: Vec<JsonValue> = Vec::new();
        traits.push(text_value("action.devices.traits.ColorSetting"));
        traits.push(text_value("action.devices.traits.Brightness"));
        traits.push(text_value("action.devices.traits.OnOff"));
        let ghost tv = json::elements_view(traits@);
        assert(tv =~= seq![
            Json::Str("action.devices.traits.ColorSetting"@),
            Json::Str("action.devices.traits.Brightness"@),
            Json::Str("action.devices.traits.OnOff"@),
        ]);
        let mut range: Vec<(String, JsonValue)> = Vec::new();
        push_member(&mut range, "temperatureMinK", number_value(2600));
        push_member(&mut range, "temperatureMaxK", number_value(6000));
        assert(json::members_view(range@) =~= seq![("temperatureMinK"@, jnum(2600)), ("temperatureMaxK"@, jnum(6000))]);
        let mut attributes: Vec<(String, JsonValue)> = Vec::new();
        push_member(&mut attributes, "colorTemperatureRange", object_value(range));
        let ghost av = json::members_view(attributes@);
        assert(av =~= seq![
            (
                "colorTemperatureRange"@,
                Json::Object(seq![("temperatureMinK"@, jnum(2600)), ("temperatureMaxK"@, jnum(6000))]),
            ),
        ]);
        let mut fields: Vec<(String, JsonValue)> = Vec::new();
        push_member(&mut fields, "id", JsonValue::String(self.id.clone()));
        push_member(&mut fields, "type", text_value("action.devices.types.LIGHT"));
        push_member(&mut fields, "traits", array_value(traits));
        push_member(&mut fields, "name", name_value(&self.name));
        push_member(&mut fields, "willReportState", JsonValue::Bool(true));
        push_member(&mut fields, "attributes", object_value(attributes));
        push_member(&mut fields, "deviceInfo", device_info_value("dlight"));
        assert(json::members_view(fields@) =~= match light_sync_value(self.id@, self.name@) {
            Json::Object(m) => m,
            _ => Seq::empty(),
        });
        object_value(fields)
    }

    /// The object describing the lamp's state to a QUERY request.
    pub fn get_query_value(&self) -> (v: JsonValue)
        ensures
            v@ == light_query_value(self.on, self.brightness, self.temperature),
    {
        let mut fields: Vec<(String, JsonValue)> = Vec::new();
        push_member(&mut fields, "status", text_value("SUCCESS"));
        push_member(&mut fields, "online", JsonValue::Bool(true));
        push_member(&mut fields, "on", JsonValue::Bool(self.on));
        push_member(&mut fields, "brightness", number_value(self.brightness));
        push_member(&mut fields, "color", color_value(self.temperature));
        assert(json::members_view(fields@) =~= match light_query_value(self.on, self.brightness, self.temperature) {
            Json::Object(m) => m,
            _ => Seq::empty(),
        });
        object_value(fields)
    }

    /// Runs the actions of an EXECUTE request on the lamp's settings. Returns
    /// the answer for Google Home and, when every action could be read, the
    /// command to send to the lamp. Settings changed before a failing action
    /// stay changed.
    pub fn execute_actions(&mut self, execution: &Vec<JsonValue>) -> (r: (JsonValue, Option<LightCommand>))
        ensures
            ({
                let p = light_plan(
                    LightPlan {
                        on: old(self).on,
                        brightness: old(self).brightness,
                        temperature: old(self).temperature,
                        success: true,
                        on_set: false,
                        brightness_set: false,
                        color_set: false,
                    },
                    json::elements_view(execution@),
                );
                &&& r.0@ == light_execute_reply(p)
                &&& r.1 == (if p.success { Some(light_command(p)) } else { None })
                &&& final(self).on == p.on
                &&& final(self).brightness == p.brightness
                &&& final(self).temperature == p.temperature
            }),
            brightness_in_range(old(self).brightness) ==> brightness_in_range(final(self).brightness),
            temperature_in_range(old(self).temperature) ==> temperature_in_range(final(self).temperature),
            r.1 matches Some(c) ==> (c.brightness matches Some(b) ==> brightness_in_range(b)) && (
            c.temperature matches Some(t) ==> temperature_in_range(t)),
            final(self).id == old(self).id,
            final(self).name == old(self).name,
            final(self).device_id == old(self).device_id,
            final(self).uri == old(self).uri,
    {
        let ghost ev = json::elements_view(execution@);
        let p0 = LightPlan {
            on: self.on,
            brightness: self.brightness,
            temperature: self.temperature,
            success: true,
            on_set: false,
            brightness_set: false,
            color_set: false,
        };
        let mut p = p0;
        let mut i: usize = 0;
        assert(ev.take(0) =~= Seq::<Json>::empty());
        while i < execution.len()
            invariant
                i <= execution.len(),
                ev == json::elements_view(execution@),
                p == light_plan(p0, ev.take(i as int)),
            decreases execution.len() - i,
        {
            assert(ev.take(i + 1).drop_last() =~= ev.take(i as int));
            assert(ev.take(i + 1).last() == json::json_view(execution@[i as int]));
            if p.success {
                p = light_step(p, &execution[i]);
            }
            i = i + 1;
        }
        assert(ev.take(execution.len() as int) =~= ev);
        proof {
            lemma_light_plan_in_range(p0, ev);
        }
        self.on = p.on;
        self.brightness = p.brightness;
        self.temperature = p.temperature;
        if !p.success {
            return (transient_error_value(), None);
        }
        let mut state: Vec<(String, JsonValue)> = Vec::new();
        push_member(&mut state, "online", JsonValue::Bool(true));
        if p.color_set {
            push_member(&mut state, "color", color_value(p.temperature));
        }
        if p.brightness_set {
            push_member(&mut state, "brightness", number_value(p.brightness));
        }
        if p.on_set {
            push_member(&mut state, "on", JsonValue::Bool(p.on));
        }
        let ghost sv = json::members_view(state@);
        assert(sv =~= light_states(p));
        let mut fields: Vec<(String, JsonValue)> = Vec::new();
        push_member(&mut fields, "status", text_value("SUCCESS"));
        push_member(&mut fields, "states", object_value(state));
        assert(json::members_view(fields@) =~= seq![("status"@, Json::Str("SUCCESS"@)), ("states"@, Json::Object(light_states(p)))]);
        let command = LightCommand {
            on: if p.on_set { Some(p.on) } else { None },
            brightness: if p.brightness_set { Some(p.brightness) } else { None },
            temperature: if p.color_set { Some(p.temperature) } else { None },
        };
        (object_value(fields), Some(command))
    }
}

/// What an EXECUTE request does to a plug: its state after the actions
/// ran, whether they all could be read, and whether one set the state.
#[derive(Clone, Copy)]
pub struct PlugPlan {
    pub on: bool,
    pub success: bool,
    pub on_set: bool,
}

/// One action of an EXECUTE request applied to a plug plan: as for a lamp,
/// but only OnOff changes anything.
pub open spec fn plug_action(p: PlugPlan, a: Json) -> PlugPlan {
    match a {
        Json::Object(m) => match (json::member(m, "command"@), json::member(m, "params"@)) {
            (Some(cmd), Some(Json::Object(params))) => match cmd {
                Json::Str(c) => if c == "action.devices.commands.OnOff"@ {
                    match json::member(params, "on"@) {
                        Some(Json::Bool(b)) => PlugPlan { on: b, on_set: true, ..p },
                        _ => PlugPlan { success: false, ..p },
                    }
                } else {
                    p
                },
                _ => p,
            },
            _ => PlugPlan { success: false, ..p },
        },
        _ => PlugPlan { success: false, ..p },
    }
}

/// The plan after the actions `s`, stopping at the first action that fails.
pub open spec fn plug_plan(p: PlugPlan, s: Seq<Json>) -> PlugPlan
    decreases s.len(),
{
    if s.len() == 0 {
        p
    } else {
        let q = plug_plan(p, s.drop_last());
        if q.success {
            plug_action(q, s.last())
        } else {
            q
        }
    }
}

/// An OnOff action that can be read switches the plug to the state it asks
/// for: after the action, the plan's state is the action's `params.on`, and
/// the plan records that the state was set. An EXECUTE request made of that
/// one action gives the requested state, whatever the plug was before.
pub proof fn lemma_plug_onoff_sets_requested(
    p: PlugPlan,
    m: Seq<(Seq<char>, Json)>,
    params: Seq<(Seq<char>, Json)>,
    b: bool,
)
    requires
        json::member(m, "command"@) == Some(Json::Str("action.devices.commands.OnOff"@)),
        json::member(m, "params"@) == Some(Json::Object(params)),
        json::member(params, "on"@) == Some(Json::Bool(b)),
    ensures
        plug_action(p, Json::Object(m)).on == b,
        plug_action(p, Json::Object(m)).on_set,
        plug_action(p, Json::Object(m)).success == p.success,
        plug_plan(PlugPlan { on: p.on, success: true, on_set: false }, seq![Json::Object(m)]) == (PlugPlan {
            on: b,
            success: true,
            on_set: true,
        }),
{
    let s = seq![Json::Object(m)];
    let p0 = PlugPlan { on: p.on, success: true, on_set: false };
    assert(s.drop_last() =~= Seq::<Json>::empty());
    assert(s.last() == Json::Object(m));
    assert(plug_plan(p0, Seq::<Json>::empty()) == p0);
    assert(plug_plan(p0, s) == plug_action(p0, Json::Object(m)));
}

/// One action applied to a plug plan.
pub fn plug_step(p: PlugPlan, a: &JsonValue) -> (q: PlugPlan)
    ensures
        q == plug_action(p, a@),
{
    let m = match a {
        JsonValue::Object(m) => m,
        _ => return PlugPlan { success: false, ..p },
    };
    proof {
        json::lemma_object_view(*m);
    }
    let cmd = match get_member(m, "command") {
        Some(c) => c,
        None => return PlugPlan { success: false, ..p },
    };
    let params = match get_member(m, "params") {
        Some(JsonValue::Object(params)) => params,
        _ => return PlugPlan { success: false, ..p },
    };
    proof {
        json::lemma_object_view(*params);
    }
    match cmd {
        JsonValue::String(c) => {
            if text_is(c, "action.devices.commands.OnOff") {
                match get_member(params, "on") {
                    Some(JsonValue::Bool(b)) => PlugPlan { on: *b, on_set: true, ..p },
                    _ => PlugPlan { success: false, ..p },
                }
            } else {
                p
            }
        },
        _ => p,
    }
}

/// A plug reached over SOAP.
pub struct Wemo {
    pub id: String,
    pub name: String,
    pub on: bool,
    pub uri: Option<String>,
    /// When the plug was first found unreachable, while it stays so.
    pub unreachable_since: Option<i64>,
    pub state_changed: bool,
}

/// The object describing a plug to a SYNC request.
pub open spec fn plug_sync_value(id: Seq<char>, name: Seq<char>) -> Json {
    Json::Object(
        seq![
            ("id"@, Json::Str(id)),
            ("type"@, Json::Str("action.devices.types.OUTLET"@)),
            ("traits"@, Json::Array(seq![Json::Str("action.devices.traits.OnOff"@)])),
            ("name"@, Json::Object(seq![("name"@, Json::Str(name))])),
            ("willReportState"@, Json::Bool(true)),
            ("attributes"@, Json::Object(Seq::empty())),
            (
                "deviceInfo"@,
                Json::Object(
                    seq![
                        ("manufacturer"@, Json::Str("envtrackernode"@)),
                        ("model"@, Json::Str("wemo"@)),
                        ("hwVersion"@, Json::Str("1.0"@)),
                        ("swVersion"@, Json::Str("1.0"@)),
                    ],
                ),
            ),
        ],
    )
}

/// The object describing a plug's state to a QUERY request.
pub open spec fn plug_query_value(on: bool) -> Json {
    Json::Object(seq![("status"@, Json::Str("SUCCESS"@)), ("online"@, Json::Bool(true)), ("on"@, Json::Bool(on))])
}

/// The state object of a plug after a successful EXECUTE request.
pub open spec fn plug_states(on_set: bool, on: bool) -> Seq<(Seq<char>, Json)> {
    if on_set {
        seq![("online"@, Json::Bool(true)), ("on"@, Json::Bool(on))]
    } else {
        seq![("online"@, Json::Bool(true))]
    }
}

/// The time a device counts as unreachable from, once it fails to answer
/// at `now`: the first failure is kept.
pub open spec fn unreachable_from(since: Option<i64>, now: i64) -> Option<i64> {
    match since {
        Some(t) => Some(t),
        None => Some(now),
    }
}

/// The identifier of a plug named `name` whose device information payload
/// is `payload`: the name, `_`, and the text after the first `//`.
pub open spec fn plug_id(name: Seq<char>, payload: Seq<char>) -> Seq<char> {
    name + "_"@ + strings::pieces(payload, "//"@)[1]
}

impl Wemo {
    /// A plug not yet discovered.
    pub fn base() -> (w: Wemo)
        ensures
            w.id@ == "WEMO_BASE"@,
            w.name@ == "WEMO_BASE"@,
            !w.on,
            w.uri is None,
            w.unreachable_since is None,
            !w.state_changed,
    {
        Wemo {
            id: String::from_str("WEMO_BASE"),
            name: String::from_str("WEMO_BASE"),
            on: false,
            uri: None,
            unreachable_since: None,
            state_changed: false,
        }
    }

    /// The plug found at `uri` whose device information payload is `payload`.
    pub fn discovered(name: &str, payload: &str, uri: String) -> (w: Wemo)
        requires
            strings::pieces(payload@, "//"@).len() >= 2,
        ensures
            w.id@ == plug_id(name@, payload@),
            w.name@ == name@,
            !w.on,
            w.uri == Some(uri),
            w.unreachable_since is None,
            w.state_changed,
    {
        proof {
            reveal_strlit("//");
        }
        let parts = strings::split_str(payload, "//");
        assert(parts@[1]@ == strings::strings_view(parts@)[1]);
        let id = joined_id(name, parts[1].as_str());
        Wemo { id, name: String::from_str(name), on: false, uri: Some(uri), unreachable_since: None, state_changed: true }
    }

    /// The plug's identifier.
    pub fn get_id(&self) -> (s: String)
        ensures
            s@ == self.id@,
    {
        self.id.clone()
    }

    /// Takes the state the plug reported; whether it differs from the last one.
    pub fn record_state(&mut self, reported: bool) -> (changed: bool)
        ensures
            changed == (reported != old(self).on),
            final(self).on == reported,
            final(self).id == old(self).id,
            final(self).name == old(self).name,
            final(self).uri == old(self).uri,
            final(self).unreachable_since == old(self).unreachable_since,
            final(self).state_changed == old(self).state_changed,
    {
        let prev_on = self.on;
        self.on = reported;
        self.on != prev_on
    }

    /// Answers a SYNC request after asking the plug for its state at `now`;
    /// `reported` is its answer, `None` when it did not answer.
    pub fn get_sync_value(&mut self, reported: Option<bool>, now: i64) -> (v: JsonValue)
        ensures
            final(self).state_changed,
            final(self).id == old(self).id,
            final(self).name == old(self).name,
            final(self).uri == old(self).uri,
            match reported {
                None => {
                    &&& v@ == device_offline()
                    &&& final(self).unreachable_since == unreachable_from(old(self).unreachable_since, now)
                    &&& final(self).on == old(self).on
                },
                Some(b) => {
                    &&& v@ == plug_sync_value(old(self).id@, old(self).name@)
                    &&& final(self).unreachable_since is None
                    &&& final(self).on == b
                },
            },
    {
        self.state_changed = true;
        match reported {
            None => {
                if self.unreachable_since.is_none() {
                    self.unreachable_since = Some(now);
                }
                device_offline_value()
            },
            Some(b) => {
                self.record_state(b);
                self.unreachable_since = None;
                let mut traits: Vec<JsonValue> = Vec::new();
                traits.push(text_value("action.devices.traits.OnOff"));
                assert(json::elements_view(traits@) =~= seq![Json::Str("action.devices.traits.OnOff"@)]);
                let mut fields: Vec<(String, JsonValue)> = Vec::new();
                push_member(&mut fields, "id", JsonValue::String(self.id.clone()));
                push_member(&mut fields, "type", text_value("action.devices.types.OUTLET"));
                push_member(&mut fields, "traits", array_value(traits));
                push_member(&mut fields, "name", name_value(&self.name));
                push_member(&mut fields, "willReportState", JsonValue::Bool(true));
                push_member(&mut fields, "attributes", empty_object());
                push_member(&mut fields, "deviceInfo", device_info_value("wemo"));
                assert(json::members_view(fields@) =~= match plug_sync_value(self.id@, self.name@) {
                    Json::Object(m) => m,
                    _ => Seq::empty(),
                });
                object_value(fields)
            },
        }
    }

    /// Answers a QUERY request after asking the plug for its state at `now`;
    /// `reported` is its answer, `None` when it did not answer. The flag
    /// tells whether the state should be reported to the Home Graph.
    pub fn get_query_value(&mut self, reported: Option<bool>, now: i64) -> (r: (bool, JsonValue))
        ensures
            final(self).id == old(self).id,
            final(self).name == old(self).name,
            final(self).uri == old(self).uri,
            match reported {
                None => {
                    &&& r.0 == (old(self).unreachable_since is None)
                    &&& r.1@ == device_offline()
                    &&& final(self).unreachable_since == unreachable_from(old(self).unreachable_since, now)
                    &&& final(self).on == old(self).on
                    &&& final(self).state_changed == old(self).state_changed
                },
                Some(b) => {
                    &&& r.0 == (b != old(self).on || old(self).unreachable_since is Some || old(self).state_changed)
                    &&& r.1@ == plug_query_value(b)
                    &&& final(self).unreachable_since is None
                    &&& final(self).on == b
                    &&& !final(self).state_changed
                },
            },
    {
        match reported {
            None => {
                let prev_reachable = self.unreachable_since.is_none();
                if self.unreachable_since.is_none() {
                    self.unreachable_since = Some(now);
                }
                (prev_reachable, device_offline_value())
            },
            Some(b) => {
                let state = self.record_state(b);
                let changed = state || self.unreachable_since.is_some() || self.state_changed;
                self.unreachable_since = None;
                self.state_changed = false;
                let mut fields: Vec<(String, JsonValue)> = Vec::new();
                push_member(&mut fields, "status", text_value("SUCCESS"));
                push_member(&mut fields, "online", JsonValue::Bool(true));
                push_member(&mut fields, "on", JsonValue::Bool(self.on));
                assert(json::members_view(fields@) =~= match plug_query_value(b) {
                    Json::Object(m) => m,
                    _ => Seq::empty(),
                });
                (changed, object_value(fields))
            },
        }
    }

    /// Runs the actions of an EXECUTE request on the plug's state. When every
    /// action could be read, returns the state to send to the plug (off when
    /// no action set one) and whether an action set it; otherwise `None`,
    /// and the answer is the transient error.
    pub fn plan_execute(&mut self, execution: &Vec<JsonValue>) -> (r: Option<(bool, bool)>)
        ensures
            ({
                let p = plug_plan(PlugPlan { on: old(self).on, success: true, on_set: false }, json::elements_view(execution@));
                &&& final(self).on == p.on
                &&& r == (if p.success { Some((if p.on_set { p.on } else { false }, p.on_set)) } else { None })
            }),
            final(self).state_changed,
            final(self).id == old(self).id,
            final(self).name == old(self).name,
            final(self).uri == old(self).uri,
            final(self).unreachable_since == old(self).unreachable_since,
    {
        self.state_changed = true;
        let ghost ev = json::elements_view(execution@);
        let p0 = PlugPlan { on: self.on, success: true, on_set: false };
        let mut p = p0;
        let mut i: usize = 0;
        assert(ev.take(0) =~= Seq::<Json>::empty());
        while i < execution.len()
            invariant
                i <= execution.len(),
                ev == json::elements_view(execution@),
                p == plug_plan(p0, ev.take(i as int)),
            decreases execution.len() - i,
        {
            assert(ev.take(i + 1).drop_last() =~= ev.take(i as int));
            assert(ev.take(i + 1).last() == json::json_view(execution@[i as int]));
            if p.success {
                p = plug_step(p, &execution[i]);
            }
            i = i + 1;
        }
        assert(ev.take(execution.len() as int) =~= ev);
        self.on = p.on;
        if !p.success {
            return None;
        }
        let command = if p.on_set { p.on } else { false };
        Some((command, p.on_set))
    }

    /// Answers an EXECUTE request once the plug was told to take state
    /// `command` at `now`; `reported` is the state it answered with, `None`
    /// when it did not answer.
    pub fn finish_execute(&mut self, command: bool, on_set: bool, reported: Option<bool>, now: i64) -> (v: JsonValue)
        ensures
            final(self).id == old(self).id,
            final(self).name == old(self).name,
            final(self).uri == old(self).uri,
            final(self).state_changed == old(self).state_changed,
            match reported {
                None => {
                    &&& v@ == device_offline()
                    &&& final(self).unreachable_since == unreachable_from(old(self).unreachable_since, now)
                    &&& final(self).on == old(self).on
                },
                Some(b) => {
                    &&& v@ == Json::Object(seq![("status"@, Json::Str("SUCCESS"@)), ("states"@, Json::Object(plug_states(on_set, command)))])
                    &&& final(self).unreachable_since is None
                    &&& final(self).on == b
                },
            },
    {
        match reported {
            None => {
                if self.unreachable_since.is_none() {
                    self.unreachable_since = Some(now);
                }
                device_offline_value()
            },
            Some(b) => {
                self.on = b;
                self.unreachable_since = None;
                let mut state: Vec<(String, JsonValue)> = Vec::new();
                push_member(&mut state, "online", JsonValue::Bool(true));
                if on_set {
                    push_member(&mut state, "on", JsonValue::Bool(command));
                }
                assert(json::members_view(state@) =~= plug_states(on_set, command));
                let mut fields: Vec<(String, JsonValue)> = Vec::new();
                push_member(&mut fields, "status", text_value("SUCCESS"));
                push_member(&mut fields, "states", object_value(state));
                assert(json::members_view(fields@) =~= seq![("status"@, Json::Str("SUCCESS"@)), ("states"@, Json::Object(plug_states(on_set, command)))]);
                object_value(fields)
            },
        }
    }
}

/// The port tried after a plug failed to answer on `port`: plugs move
/// between two neighbouring ports, so an even port steps down and an odd
/// port steps up.
pub open spec fn other_port(port: u16) -> u16 {
    if port % 2 == 0 {
        (port - 1) as u16
    } else {
        (port + 1) as u16
    }
}

/// The port tried after a plug failed to answer on `port`.
pub fn toggled_port(port: u16) -> (p: u16)
    requires
        0 < port < 65535,
    ensures
        p == other_port(port),
{
    if port % 2 == 0 {
        port - 1
    } else {
        port + 1
    }
}

/// Stepping to the other port twice comes back to the first port.
pub proof fn lemma_port_toggle_returns(port: u16)
    requires
        0 < port < 65535,
    ensures
        0 < other_port(port) < 65535,
        other_port(other_port(port)) == port,
{
}

/// Where a plug is tried next after a request to `uri` failed.
pub enum PortRetry {
    /// The URL names no port (or does not parse); there is no port to move from.
    NoPort,
    /// The port cannot be moved; keep the URL.
    Keep,
    /// Try this URL, on the other port.
    Use(String),
}

/// The URL a plug at `uri` is tried on next: the same URL on
/// [`other_port`]; `0` when there is no port to move from, `1` when the
/// URL keeps its port (the port is at either end of the range, or the URL
/// takes no port).
pub open spec fn retry_of(uri: Seq<char>) -> (int, Seq<char>) {
    if byte_len(uri) < MAX_URL_INPUT {
        match uri::url_port(uri) {
            Some(Some(p)) => if 0 < p < 65535 {
                match uri::url_set_port(uri, other_port(p)) {
                    Some(u) => (2, u),
                    None => (1, Seq::empty()),
                }
            } else {
                (1, Seq::empty())
            },
            _ => (0, Seq::empty()),
        }
    } else {
        (1, Seq::empty())
    }
}

impl PortRetry {
    pub open spec fn view(self) -> (int, Seq<char>) {
        match self {
            PortRetry::NoPort => (0, Seq::empty()),
            PortRetry::Keep => (1, Seq::empty()),
            PortRetry::Use(u) => (2, u@),
        }
    }
}

/// The port a plug is tried on next, given the port its URL names: the
/// other port of the pair, where the port is inside the range.
pub fn retry_port(port: u16) -> (r: Option<u16>)
    ensures
        r == (if 0 < port < 65535 { Some(other_port(port)) } else { None::<u16> }),
{
    if 0 < port && port < 65535 {
        Some(toggled_port(port))
    } else {
        None
    }
}

/// Moves a plug's URL to the other port, as [`retry_of`] says.
pub fn alternate_port_uri(uri: &str) -> (r: PortRetry)
    ensures
        r.view() == retry_of(uri@),
{
    if !fits_url(uri) {
        return PortRetry::Keep;
    }
    match port_of_url(uri) {
        Some(Some(p)) => match retry_port(p) {
            Some(q) => match with_port(uri, q) {
                Some(u) => PortRetry::Use(u),
                None => PortRetry::Keep,
            },
            None => PortRetry::Keep,
        },
        _ => PortRetry::NoPort,
    }
}

/// The URL of a plug's control service `service` (an absolute path) at the
/// plug reached on `uri`.
pub open spec fn plug_service_url(uri: Seq<char>, service: Seq<char>) -> Option<Seq<char>> {
    if byte_len(uri) + byte_len(service) < MAX_URL_INPUT {
        uri::url_join(uri, service)
    } else {
        None
    }
}

/// Resolves a plug's control service, as [`plug_service_url`] says.
pub fn plug_service(uri: &str, service: &str) -> (r: Option<String>)
    ensures
        strings::opt_text(r) == plug_service_url(uri@, service@),
{
    let a = uri.as_bytes().len();
    let b = service.as_bytes().len();
    if a < MAX_URL_INPUT && b < MAX_URL_INPUT && a + b < MAX_URL_INPUT {
        join_url(uri, service)
    } else {
        None
    }
}

/// The URL of the binary-state service of the plug reached on `uri`.
pub fn basic_event_url(uri: &str) -> (r: Option<String>)
    ensures
        strings::opt_text(r) == plug_service_url(uri@, "/upnp/control/basicevent1"@),
{
    plug_service(uri, "/upnp/control/basicevent1")
}

/// The URL of the device-information service of the plug reached on `uri`.
pub fn device_info_url(uri: &str) -> (r: Option<String>)
    ensures
        strings::opt_text(r) == plug_service_url(uri@, "/upnp/control/deviceinfo1"@),
{
    plug_service(uri, "/upnp/control/deviceinfo1")
}

/// How many more attempts a request to a plug gets after the first fails.
pub const PLUG_RETRY: i32 = 3;

/// What an attempt to reach a plug gave.
pub enum PlugAnswer {
    /// The request could not be sent.
    SendFailed,
    /// The plug answered with a status other than 200.
    BadStatus(u16),
    /// The plug answered 200 with a body that holds no binary state.
    Malformed,
    /// The plug answered with its binary state.
    State(bool),
}

/// What to do after an attempt to reach a plug.
pub enum PlugStep {
    /// Try again.
    Retry,
    /// The plug's state.
    Done(bool),
    /// Give up, for the reason the last answer gave.
    GiveUp(PlugAnswer),
}

/// The attempt counter and the step after an attempt with `count` left.
pub open spec fn plug_next(count: i32, answer: PlugAnswer) -> (i32, PlugStep) {
    let c = count - 1;
    match answer {
        PlugAnswer::State(b) => (c as i32, PlugStep::Done(b)),
        _ => if c >= 0 {
            (c as i32, PlugStep::Retry)
        } else {
            (c as i32, PlugStep::GiveUp(answer))
        },
    }
}

/// The counter before the attempt that follows `j` earlier ones, starting
/// from [`PLUG_RETRY`].
pub open spec fn plug_count(j: nat) -> i32 {
    (PLUG_RETRY - j) as i32
}

/// Whether each of the first `k` attempts, with the answers `answers`, was
/// followed by another attempt.
pub open spec fn plug_retried(answers: Seq<PlugAnswer>, k: nat) -> bool {
    forall|j: nat| j < k ==> (#[trigger] plug_next(plug_count(j), answers[j as int])).1 is Retry
}

/// A request to a plug is attempted at most `PLUG_RETRY + 1` times. With
/// the counter starting at [`PLUG_RETRY`] and counted down by each attempt,
/// an attempt is retried only while fewer than `PLUG_RETRY` attempts came
/// before it and it gave no state; the attempt after `PLUG_RETRY` failed
/// ones ends the exchange, giving up unless it gave a state.
pub proof fn lemma_plug_attempts_bounded(answers: Seq<PlugAnswer>, k: nat)
    requires
        plug_retried(answers, k),
    ensures
        k <= PLUG_RETRY,
        k == PLUG_RETRY && (answers[k as int] !is State) ==> plug_next(plug_count(k), answers[k as int]).1 is GiveUp,
        forall|j: nat| j < k ==> (answers[j as int] !is State),
{
    if k > PLUG_RETRY {
        let j = PLUG_RETRY as nat;
        assert(plug_next(plug_count(j), answers[j as int]).1 is Retry);
    }
    assert forall|j: nat| j < k implies (answers[j as int] !is State) by {
        assert(plug_next(plug_count(j), answers[j as int]).1 is Retry);
    }
}

/// Counts an attempt to reach a plug and decides what follows it: an
/// answer with a state ends the exchange, any other answer is retried
/// while attempts remain.
pub fn plug_attempt(count: &mut i32, answer: PlugAnswer) -> (step: PlugStep)
    requires
        *old(count) > i32::MIN,
    ensures
        (*final(count), step) == plug_next(*old(count), answer),
{
    *count = *count - 1;
    match answer {
        PlugAnswer::State(b) => PlugStep::Done(b),
        _ => {
            if *count >= 0 {
                PlugStep::Retry
            } else {
                PlugStep::GiveUp(answer)
            }
        },
    }
}

// ---------------------------------------------------------------------------
// Requests to a node's device endpoint.

/// What a request to the device endpoint asks for.
pub enum DeviceRequest {
    /// The QUERY states of these devices, in this order, skipping unknown ones.
    QueryMany(Vec<String>),
    /// The SYNC values of every device.
    SyncAll,
    /// The QUERY state of this device, or 404 where it is unknown.
    QueryOne(String),
}

/// The values of the `device_ids` parameters among `pairs`, in order.
pub open spec fn device_ids_of(pairs: Seq<(Seq<char>, Seq<char>)>) -> Seq<Seq<char>>
    decreases pairs.len(),
{
    if pairs.len() == 0 {
        Seq::empty()
    } else {
        let rest = device_ids_of(pairs.drop_last());
        if pairs.last().0 == "device_ids"@ {
            rest.push(pairs.last().1)
        } else {
            rest
        }
    }
}

/// Query parameters taken by their texts.
pub open spec fn params_view(v: Seq<(String, String)>) -> Seq<(Seq<char>, Seq<char>)> {
    Seq::new(v.len(), |i: int| (v[i].0@, v[i].1@))
}

/// A device request over texts: `0` for QUERY of these ids, `1` for SYNC
/// of all, `2` for QUERY of this one.
pub open spec fn device_request_of(query: Option<Seq<(Seq<char>, Seq<char>)>>, path: Option<Seq<char>>) -> (int, Seq<Seq<char>>) {
    match query {
        Some(q) if q.len() > 0 => (0, device_ids_of(q)),
        _ => match path {
            None => (1, Seq::empty()),
            Some(d) => (2, seq![d]),
        },
    }
}

impl DeviceRequest {
    pub open spec fn view(self) -> (int, Seq<Seq<char>>) {
        match self {
            DeviceRequest::QueryMany(ids) => (0, strings::strings_view(ids@)),
            DeviceRequest::SyncAll => (1, Seq::empty()),
            DeviceRequest::QueryOne(d) => (2, seq![d@]),
        }
    }
}

/// What a request to the device endpoint with query parameters `query`
/// and path `path` asks for: a non-empty query asks for the QUERY states of
/// its `device_ids`; otherwise a path names one device, and no path asks
/// for every device's SYNC value.
pub fn device_request(query: Option<&Vec<(String, String)>>, path: Option<&String>) -> (r: DeviceRequest)
    ensures
        r.view() == device_request_of(
            match query {
                Some(q) => Some(params_view(q@)),
                None => None,
            },
            match path {
                Some(p) => Some(p@),
                None => None,
            },
        ),
{
    if let Some(q) = query {
        if q.len() > 0 {
            let ghost ps = params_view(q@);
            let mut ids: Vec<String> = Vec::new();
            let mut i: usize = 0;
            while i < q.len()
                invariant
                    i <= q.len(),
                    ps == params_view(q@),
                    strings::strings_view(ids@) == device_ids_of(ps.take(i as int)),
                decreases q.len() - i,
            {
                assert(ps.take(i + 1).drop_last() =~= ps.take(i as int));
                if text_is(&q[i].0, "device_ids") {
                    let ghost before = ids@;
                    ids.push(q[i].1.clone());
                    assert(strings::strings_view(ids@) =~= strings::strings_view(before).push(q@[i as int].1@));
                }
                i = i + 1;
            }
            assert(ps.take(q.len() as int) =~= ps);
            return DeviceRequest::QueryMany(ids);
        }
    }
    match path {
        None => DeviceRequest::SyncAll,
        Some(d) => DeviceRequest::QueryOne(d.clone()),
    }
}

// ---------------------------------------------------------------------------
// Kasa outlets, listed as devices without anything to report.

/// A Kasa outlet listed among the node's devices: it takes part in no
/// SYNC, QUERY or EXECUTE exchange.
pub struct KasaDeviceId {
    pub id: String,
}

impl KasaDeviceId {
    /// The outlet `id`.
    pub fn new(id: String) -> (d: KasaDeviceId)
        ensures
            d.id@ == id@,
    {
        KasaDeviceId { id }
    }

    /// The outlet's identifier.
    pub fn get_id(&self) -> (s: String)
        ensures
            s@ == self.id@,
    {
        self.id.clone()
    }

    /// Its SYNC value: null.
    pub fn get_sync_value(&self) -> (v: JsonValue)
        ensures
            v@ == Json::Null,
    {
        JsonValue::Null
    }

    /// Its QUERY value: null, with nothing to report to the Home Graph.
    pub fn get_query_value(&self) -> (r: (bool, JsonValue))
        ensures
            !r.0,
            r.1@ == Json::Null,
    {
        (false, JsonValue::Null)
    }

    /// Its EXECUTE answer: null, whatever the actions.
    pub fn execute_actions(&self, execution: &Vec<JsonValue>) -> (v: JsonValue)
        ensures
            v@ == Json::Null,
    {
        JsonValue::Null
    }
}

} // verus!
