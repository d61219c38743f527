//! Google Home fulfillment: parsing requests and building responses.

use vstd::prelude::*;
use vstd::string::*;

use crate::strings;
use crate::uri;
use crate::json::{self, find_member, get_member, insert_member, Json, JsonValue};

verus! {

broadcast use vstd::string::group_string_axioms;

/// Whether the text of `s` is `lit`.
pub fn text_is(s: &String, lit: &str) -> (r: bool)
    ensures
        r == (s@ == lit@),
{
    *s == String::from_str(lit)
}

/// A request sent by Google Home to the fulfillment endpoint.
pub struct Request {
    pub request_id: String,
    pub inputs: Vec<JsonValue>,
}

/// One command of an EXECUTE intent: the devices it targets and the
/// actions to run on them.
pub struct Command {
    pub devices: Vec<JsonValue>,
    pub execution: Vec<JsonValue>,
}

/// Mathematical model of a command.
pub struct CommandView {
    pub devices: Seq<Json>,
    pub execution: Seq<Json>,
}

impl View for Command {
    type V = CommandView;

    open spec fn view(&self) -> CommandView {
        CommandView { devices: json::elements_view(self.devices@), execution: json::elements_view(self.execution@) }
    }
}

/// The intents Google Home sends.
pub enum Intent {
    Sync,
    Query(Vec<JsonValue>),
    Execute(Vec<Command>),
    Disconnect,
}

/// Mathematical model of an intent.
pub enum IntentView {
    Sync,
    Query(Seq<Json>),
    Execute(Seq<CommandView>),
    Disconnect,
}

/// Each command taken by its view.
pub open spec fn commands_view(c: Seq<Command>) -> Seq<CommandView> {
    Seq::new(c.len(), |i: int| c[i]@)
}

impl View for Intent {
    type V = IntentView;

    open spec fn view(&self) -> IntentView {
        match self {
            Intent::Sync => IntentView::Sync,
            Intent::Query(d) => IntentView::Query(json::elements_view(d@)),
            Intent::Execute(c) => IntentView::Execute(commands_view(c@)),
            Intent::Disconnect => IntentView::Disconnect,
        }
    }
}

/// The identifier a device entry carries: its `id` member when that is a
/// string, the empty text otherwise.
pub open spec fn device_entry_id(d: Json) -> Seq<char> {
    match d {
        Json::Object(m) => match json::member(m, "id"@) {
            Some(Json::Str(s)) => s,
            _ => Seq::empty(),
        },
        _ => Seq::empty(),
    }
}

impl Command {
    /// The identifiers of the devices the command targets, one per device
    /// entry (empty for an entry without a string `id`).
    pub fn get_devices(&self) -> (ids: Vec<String>)
        ensures
            ids@.len() == self.devices@.len(),
            forall|i: int| 0 <= i < ids@.len() ==> #[trigger] ids@[i]@ == device_entry_id(self@.devices[i]),
    {
        let mut ids: Vec<String> = Vec::new();
        let mut i: usize = 0;
        while i < self.devices.len()
            invariant
                i <= self.devices.len(),
                ids@.len() == i,
                forall|j: int| 0 <= j < i ==> #[trigger] ids@[j]@ == device_entry_id(self@.devices[j]),
            decreases self.devices.len() - i,
        {
            let id = match &self.devices[i] {
                JsonValue::Object(m) => {
                    proof {
                        json::lemma_object_view(*m);
                    }
                    match get_member(m, "id") {
                        Some(JsonValue::String(s)) => s.clone(),
                        _ => String::new(),
                    }
                },
                _ => String::new(),
            };
            ids.push(id);
            i = i + 1;
        }
        ids
    }

    /// The actions of the command.
    pub fn get_execution(&self) -> (e: &Vec<JsonValue>)
        ensures
            e == &self.execution,
    {
        &self.execution
    }
}

/// The command a command entry describes, when it is an object whose
/// `devices` and `execution` members are arrays.
pub open spec fn command_entry(c: Json) -> Option<CommandView> {
    match c {
        Json::Object(m) => match (json::member(m, "devices"@), json::member(m, "execution"@)) {
            (Some(Json::Array(d)), Some(Json::Array(e))) => Some(CommandView { devices: d, execution: e }),
            _ => None,
        },
        _ => None,
    }
}

/// The commands described by the well-formed entries of `cs`, in order;
/// other entries are skipped.
pub open spec fn command_entries(cs: Seq<Json>) -> Seq<CommandView>
    decreases cs.len(),
{
    if cs.len() == 0 {
        Seq::empty()
    } else {
        let rest = command_entries(cs.drop_last());
        match command_entry(cs.last()) {
            Some(c) => rest.push(c),
            None => rest,
        }
    }
}

/// The array stored under `k` in the object `o`, when there is one.
pub open spec fn array_member(o: Json, k: Seq<char>) -> Option<Seq<Json>> {
    match o {
        Json::Object(m) => match json::member(m, k) {
            Some(Json::Array(a)) => Some(a),
            _ => None,
        },
        _ => None,
    }
}

/// The intent an input entry of a request describes.
pub open spec fn intent_of(input: Json) -> Option<IntentView> {
    match input {
        Json::Object(m) => match json::member(m, "intent"@) {
            Some(Json::Str(t)) => if t == "action.devices.SYNC"@ {
                Some(IntentView::Sync)
            } else if t == "action.devices.QUERY"@ {
                match json::member(m, "payload"@) {
                    Some(p) => match array_member(p, "devices"@) {
                        Some(d) => Some(IntentView::Query(d)),
                        None => None,
                    },
                    None => None,
                }
            } else if t == "action.devices.EXECUTE"@ {
                match json::member(m, "payload"@) {
                    Some(p) => match array_member(p, "commands"@) {
                        Some(c) => Some(IntentView::Execute(command_entries(c))),
                        None => None,
                    },
                    None => None,
                }
            } else if t == "action.devices.DISCONNECT"@ {
                Some(IntentView::Disconnect)
            } else {
                None
            },
            _ => None,
        },
        _ => None,
    }
}

/// A copy of each value of `v`.
pub fn copy_values(v: &Vec<JsonValue>) -> (r: Vec<JsonValue>)
    ensures
        json::elements_view(r@) == json::elements_view(v@),
{
    let mut r: Vec<JsonValue> = Vec::new();
    let mut i: usize = 0;
    while i < v.len()
        invariant
            i <= v.len(),
            r@.len() == i,
            forall|j: int| 0 <= j < i ==> json::json_view(#[trigger] r@[j]) == json::json_view(v@[j]),
        decreases v.len() - i,
    {
        r.push(v[i].copy());
        i = i + 1;
    }
    assert(json::elements_view(r@) =~= json::elements_view(v@));
    r
}

/// The array stored under `k` in the members `m`.
fn array_in<'a>(m: &'a Vec<(String, JsonValue)>, k: &str) -> (r: Option<&'a Vec<JsonValue>>)
    ensures
        r is None <==> !(json::member(json::members_view(m@), k@) matches Some(Json::Array(_))),
        r matches Some(a) ==> json::member(json::members_view(m@), k@) == Some(Json::Array(json::elements_view(a@))),
{
    match get_member(m, k) {
        Some(JsonValue::Array(a)) => {
            proof {
                json::lemma_array_view(*a);
            }
            Some(a)
        },
        Some(v) => {
            assert(!(json::json_view(*v) matches Json::Array(_)));
            None
        },
        None => None,
    }
}

/// The array stored under `k` in `v`, when `v` is an object.
fn array_member_of<'a>(v: &'a JsonValue, k: &str) -> (r: Option<&'a Vec<JsonValue>>)
    ensures
        r is None <==> array_member(v@, k@) is None,
        r matches Some(a) ==> array_member(v@, k@) == Some(json::elements_view(a@)),
{
    match v {
        JsonValue::Object(m) => {
            proof {
                json::lemma_object_view(*m);
            }
            array_in(m, k)
        },
        _ => None,
    }
}

/// The commands described by the well-formed entries of `cs`.
fn parse_commands(cs: &Vec<JsonValue>) -> (r: Vec<Command>)
    ensures
        commands_view(r@) == command_entries(json::elements_view(cs@)),
{
    let ghost cv = json::elements_view(cs@);
    let mut r: Vec<Command> = Vec::new();
    let mut i: usize = 0;
    assert(cv.take(0) =~= Seq::<Json>::empty());
    assert(commands_view(r@) =~= Seq::<CommandView>::empty());
    while i < cs.len()
        invariant
            i <= cs.len(),
            cv == json::elements_view(cs@),
            commands_view(r@) == command_entries(cv.take(i as int)),
        decreases cs.len() - i,
    {
        assert(cv.take(i + 1).drop_last() =~= cv.take(i as int));
        assert(cv.take(i + 1).last() == json::json_view(cs@[i as int]));
        let ghost before = r@;
        match &cs[i] {
            JsonValue::Object(m) => {
                proof {
                    json::lemma_object_view(*m);
                }
                match (array_in(m, "devices"), array_in(m, "execution")) {
                    (Some(d), Some(e)) => {
                        let c = Command { devices: copy_values(d), execution: copy_values(e) };
                        r.push(c);
                        assert(commands_view(r@) =~= commands_view(before).push(c@));
                    },
                    _ => {},
                }
            },
            _ => {},
        }
        i = i + 1;
    }
    assert(cv.take(cs.len() as int) =~= cv);
    r
}

impl Request {
    /// The identifier of the request.
    pub fn get_request_id(&self) -> (r: String)
        ensures
            r@ == self.request_id@,
    {
        self.request_id.clone()
    }

    /// The input entries of the request.
    pub fn get_inputs(&self) -> (r: &Vec<JsonValue>)
        ensures
            r == &self.inputs,
    {
        &self.inputs
    }

    /// The intent an input entry describes, or `None` for an entry that is
    /// not an object, names no known intent, or lacks the payload its intent
    /// needs.
    pub fn parse_intent(intent: &JsonValue) -> (r: Option<Intent>)
        ensures
            r is None <==> intent_of(intent@) is None,
            r matches Some(i) ==> intent_of(intent@) == Some(i@),
    {
        let m = match intent {
            JsonValue::Object(m) => m,
            _ => return None,
        };
        proof {
            json::lemma_object_view(*m);
        }
        let t = match get_member(m, "intent") {
            Some(JsonValue::String(t)) => t,
            _ => return None,
        };
        if text_is(t, "action.devices.SYNC") {
            Some(Intent::Sync)
        } else if text_is(t, "action.devices.QUERY") {
            let payload = match get_member(m, "payload") {
                Some(p) => p,
                None => return None,
            };
            match array_member_of(payload, "devices") {
                Some(d) => Some(Intent::Query(copy_values(d))),
                None => None,
            }
        } else if text_is(t, "action.devices.EXECUTE") {
            let payload = match get_member(m, "payload") {
                Some(p) => p,
                None => return None,
            };
            match array_member_of(payload, "commands") {
                Some(c) => Some(Intent::Execute(parse_commands(c))),
                None => None,
            }
        } else if text_is(t, "action.devices.DISCONNECT") {
            Some(Intent::Disconnect)
        } else {
            None
        }
    }
}

/// A response to a fulfillment request, built up while the request is handled.
pub struct Response {
    pub request_id: String,
    pub payload: JsonValue,
    pub agent_user_id: String,
    pub handling_intent: Option<Intent>,
}

/// Mathematical model of a response.
pub struct ResponseView {
    pub request_id: Seq<char>,
    pub payload: Json,
    pub agent_user_id: Seq<char>,
    pub intent: Option<IntentView>,
}

impl View for Response {
    type V = ResponseView;

    open spec fn view(&self) -> ResponseView {
        ResponseView {
            request_id: self.request_id@,
            payload: self.payload@,
            agent_user_id: self.agent_user_id@,
            intent: match self.handling_intent {
                Some(i) => Some(i@),
                None => None,
            },
        }
    }
}

/// A JSON string.
pub open spec fn jstr(s: Seq<char>) -> Json {
    Json::Str(s)
}

/// The error payload for `code`; an empty code stands for `notSupported`.
pub open spec fn error_object(code: Seq<char>) -> Json {
    Json::Object(
        seq![
            ("errorCode"@, jstr(if code.len() == 0 { "notSupported"@ } else { code })),
            ("status"@, jstr("ERROR"@)),
        ],
    )
}

/// The state reported for a device that did not answer.
pub open spec fn offline_object() -> Json {
    Json::Object(seq![("errorCode"@, jstr("deviceOffline"@)), ("status"@, jstr("ERROR"@))])
}

/// The payload a SYNC response starts from.
pub open spec fn initial_sync_payload(agent: Seq<char>) -> Json {
    Json::Object(seq![("agentUserId"@, jstr(agent)), ("devices"@, Json::Array(Seq::empty()))])
}

/// The payload a QUERY response starts from.
pub open spec fn initial_query_payload() -> Json {
    Json::Object(seq![("devices"@, Json::Object(Seq::empty()))])
}

/// The payload holds a `devices` array.
pub open spec fn has_device_array(p: Json) -> bool {
    p matches Json::Object(m) && json::member(m, "devices"@) matches Some(Json::Array(_))
}

/// The payload holds a `devices` object.
pub open spec fn has_device_object(p: Json) -> bool {
    p matches Json::Object(m) && json::member(m, "devices"@) matches Some(Json::Object(_))
}

/// Each identifier as a JSON string.
pub open spec fn id_strings(ids: Seq<Seq<char>>) -> Seq<Json> {
    Seq::new(ids.len(), |i: int| jstr(ids[i]))
}

/// The command statuses reported for groups of devices that share a state:
/// each state object gains an `ids` member listing its devices; groups whose
/// state is not an object are left out.
pub open spec fn command_statuses(g: Seq<(Json, Seq<Seq<char>>)>) -> Seq<Json>
    decreases g.len(),
{
    if g.len() == 0 {
        Seq::empty()
    } else {
        let rest = command_statuses(g.drop_last());
        match g.last().0 {
            Json::Object(m) => rest.push(Json::Object(json::with_member(m, "ids"@, Json::Array(id_strings(g.last().1))))),
            _ => rest,
        }
    }
}

/// Whether the status `s` reports the group with state `state` and devices
/// `ids`: it is the state object with an `ids` member listing the devices,
/// each as a JSON string, and every other member as the state has it.
pub open spec fn reports_group(s: Json, state: Json, ids: Seq<Seq<char>>) -> bool {
    &&& s matches Json::Object(sm)
    &&& state matches Json::Object(m)
    &&& json::member(sm, "ids"@) == Some(Json::Array(Seq::new(ids.len(), |j: int| Json::Str(ids[j]))))
    &&& forall|k: Seq<char>| k != "ids"@ ==> #[trigger] json::member(sm, k) == json::member(m, k)
}

/// Every group of devices whose shared state is an object gets its own
/// command status, in order: when all states are objects there are as many
/// statuses as groups, the i-th reporting the i-th group with its ids. No
/// more statuses than groups are ever reported.
pub proof fn lemma_command_statuses_one_per_group(g: Seq<(Json, Seq<Seq<char>>)>)
    ensures
        command_statuses(g).len() <= g.len(),
        (forall|i: int| 0 <= i < g.len() ==> (#[trigger] g[i]).0 is Object) ==> {
            &&& command_statuses(g).len() == g.len()
            &&& forall|i: int| 0 <= i < g.len() ==> reports_group(#[trigger] command_statuses(g)[i], g[i].0, g[i].1)
        },
    decreases g.len(),
{
    if g.len() > 0 {
        let init = g.drop_last();
        lemma_command_statuses_one_per_group(init);
        if forall|i: int| 0 <= i < g.len() ==> (#[trigger] g[i]).0 is Object {
            assert forall|i: int| 0 <= i < init.len() implies (#[trigger] init[i]).0 is Object by {
                assert(init[i] == g[i]);
            }
            let last = g.last();
            let m = last.0->Object_0;
            assert(g[g.len() - 1].0 is Object);
            let ids = Json::Array(id_strings(last.1));
            let sm = json::with_member(m, "ids"@, ids);
            json::lemma_member_after_store(m, "ids"@, ids, "ids"@);
            assert(id_strings(last.1) =~= Seq::new(last.1.len(), |j: int| Json::Str(last.1[j])));
            assert forall|k: Seq<char>| k != "ids"@ implies #[trigger] json::member(sm, k) == json::member(m, k) by {
                json::lemma_member_after_store(m, "ids"@, ids, k);
            }
            assert(reports_group(Json::Object(sm), last.0, last.1));
            assert forall|i: int| 0 <= i < g.len() implies reports_group(
                #[trigger] command_statuses(g)[i],
                g[i].0,
                g[i].1,
            ) by {
                if i < init.len() {
                    assert(command_statuses(g)[i] == command_statuses(init)[i]);
                    assert(init[i] == g[i]);
                }
            }
        }
    }
}

/// An EXECUTE response reports, under `commands`, one status per group of
/// devices sharing a state, each listing that group's devices; any other
/// response is left as it was.
pub proof fn lemma_execute_response_reports_groups(r: ResponseView, g: Seq<(Json, Seq<Seq<char>>)>)
    requires
        forall|i: int| 0 <= i < g.len() ==> (#[trigger] g[i]).0 is Object,
    ensures
        r.intent matches Some(IntentView::Execute(_)) ==> r.with_command_status(g).payload matches Json::Object(p) && {
            &&& json::member(p, "commands"@) matches Some(Json::Array(cs))
            &&& cs.len() == g.len()
            &&& forall|i: int| 0 <= i < g.len() ==> reports_group(#[trigger] cs[i], g[i].0, g[i].1)
        },
        !(r.intent matches Some(IntentView::Execute(_))) ==> r.with_command_status(g) == r,
{
    lemma_command_statuses_one_per_group(g);
    let p = seq![("commands"@, Json::Array(command_statuses(g)))];
    assert(json::is_first_key(p, "commands"@, 0));
    json::lemma_key_index_found(p, "commands"@, 0);
}

impl ResponseView {
    /// The response once it handles intent `i`; the first intent set stays.
    pub open spec fn with_intent(self, i: IntentView) -> ResponseView {
        if self.intent is Some {
            self
        } else {
            ResponseView { intent: Some(i), ..self }
        }
    }

    /// The response can take a device entry.
    pub open spec fn device_ready(self) -> bool {
        &&& self.intent matches Some(IntentView::Sync) ==> (self.payload is Null || has_device_array(self.payload))
        &&& self.intent matches Some(IntentView::Query(_)) ==> (self.payload is Null || has_device_object(self.payload))
    }

    /// The response after adding device `id` with entry `v`: a SYNC response
    /// appends `v` to its device list, a QUERY response records `v` (or the
    /// offline state when `v` is null) under `id`; other responses are unchanged.
    pub open spec fn with_device(self, id: Seq<char>, v: Json) -> ResponseView {
        match self.intent {
            Some(IntentView::Sync) => {
                let p = if self.payload is Null { initial_sync_payload(self.agent_user_id) } else { self.payload };
                match p {
                    Json::Object(m) => match json::member(m, "devices"@) {
                        Some(Json::Array(a)) => ResponseView {
                            payload: Json::Object(json::with_member(m, "devices"@, Json::Array(a.push(v)))),
                            ..self
                        },
                        _ => self,
                    },
                    _ => self,
                }
            },
            Some(IntentView::Query(_)) => {
                let p = if self.payload is Null { initial_query_payload() } else { self.payload };
                match p {
                    Json::Object(m) => match json::member(m, "devices"@) {
                        Some(Json::Object(d)) => ResponseView {
                            payload: Json::Object(
                                json::with_member(
                                    m,
                                    "devices"@,
                                    Json::Object(json::with_member(d, id, if v is Null { offline_object() } else { v })),
                                ),
                            ),
                            ..self
                        },
                        _ => self,
                    },
                    _ => self,
                }
            },
            _ => self,
        }
    }

    /// The response after reporting the command statuses `g` (EXECUTE only).
    pub open spec fn with_command_status(self, g: Seq<(Json, Seq<Seq<char>>)>) -> ResponseView {
        if self.intent matches Some(IntentView::Execute(_)) {
            ResponseView {
                payload: Json::Object(seq![("commands"@, Json::Array(command_statuses(g)))]),
                ..self
            }
        } else {
            self
        }
    }

    /// The response carrying the error `code`.
    pub open spec fn with_error(self, code: Seq<char>) -> ResponseView {
        ResponseView { payload: error_object(code), ..self }
    }

    /// The payload sent: a response that never got one reports a transient error.
    pub open spec fn final_payload(self) -> Json {
        if self.payload is Null {
            error_object("transientError"@)
        } else {
            self.payload
        }
    }

    /// The body sent back to Google Home.
    pub open spec fn body(self) -> Json {
        Json::Object(seq![("requestId"@, jstr(self.request_id)), ("payload"@, self.final_payload())])
    }
}

/// A JSON string value.
pub fn string_value(s: &str) -> (v: JsonValue)
    ensures
        v@ == jstr(s@),
{
    JsonValue::String(String::from_str(s))
}

/// The error payload for `code`.
pub fn error_value(code: String) -> (v: JsonValue)
    ensures
        v@ == error_object(code@),
{
    let code = if code.as_str().is_empty() { String::from_str("notSupported") } else { code };
    let mut m: Vec<(String, JsonValue)> = Vec::new();
    m.push((String::from_str("errorCode"), JsonValue::String(code)));
    m.push((String::from_str("status"), string_value("ERROR")));
    proof {
        json::lemma_object_view(m);
        assert(json::members_view(m@) =~= seq![
            ("errorCode"@, jstr(if code@.len() == 0 { "notSupported"@ } else { code@ })),
            ("status"@, jstr("ERROR"@)),
        ]);
    }
    JsonValue::Object(m)
}

/// The state reported for a device that did not answer.
pub fn offline_value() -> (v: JsonValue)
    ensures
        v@ == offline_object(),
{
    let mut m: Vec<(String, JsonValue)> = Vec::new();
    m.push((String::from_str("errorCode"), string_value("deviceOffline")));
    m.push((String::from_str("status"), string_value("ERROR")));
    proof {
        json::lemma_object_view(m);
        assert(json::members_view(m@) =~= seq![("errorCode"@, jstr("deviceOffline"@)), ("status"@, jstr("ERROR"@))]);
    }
    JsonValue::Object(m)
}

/// Replaces the value of the member at index `i` of `m` by `f(old value)`,
/// here specialised as appending `v` to the array held there.
fn push_into_array_member(m: &mut Vec<(String, JsonValue)>, i: usize, v: JsonValue)
    requires
        i < old(m)@.len(),
        json::members_view(old(m)@)[i as int].1 matches Json::Array(_),
    ensures
        json::members_view(final(m)@) == json::members_view(old(m)@).update(
            i as int,
            (
                json::members_view(old(m)@)[i as int].0,
                Json::Array(json::members_view(old(m)@)[i as int].1->Array_0.push(v@)),
            ),
        ),
{
    let ghost mv = json::members_view(m@);
    let (k, item) = m.remove(i);
    let item2 = match item {
        JsonValue::Array(mut a) => {
            let ghost av = json::elements_view(a@);
            proof {
                json::lemma_array_view(a);
            }
            a.push(v);
            proof {
                json::lemma_array_view(a);
                assert(json::elements_view(a@) =~= av.push(v@));
            }
            JsonValue::Array(a)
        },
        other => other,
    };
    m.insert(i, (k, item2));
    assert(json::members_view(m@) =~= mv.update(i as int, (mv[i as int].0, Json::Array(mv[i as int].1->Array_0.push(v@)))));
}

/// Stores `v` under `id` in the object held by the member at index `i` of `m`.
fn insert_into_object_member(m: &mut Vec<(String, JsonValue)>, i: usize, id: String, v: JsonValue)
    requires
        i < old(m)@.len(),
        json::members_view(old(m)@)[i as int].1 matches Json::Object(_),
    ensures
        json::members_view(final(m)@) == json::members_view(old(m)@).update(
            i as int,
            (
                json::members_view(old(m)@)[i as int].0,
                Json::Object(json::with_member(json::members_view(old(m)@)[i as int].1->Object_0, id@, v@)),
            ),
        ),
{
    let ghost mv = json::members_view(m@);
    let (k, item) = m.remove(i);
    let item2 = match item {
        JsonValue::Object(mut d) => {
            let ghost dv = json::members_view(d@);
            proof {
                json::lemma_object_view(d);
            }
            insert_member(&mut d, id, v);
            proof {
                json::lemma_object_view(d);
            }
            JsonValue::Object(d)
        },
        other => other,
    };
    m.insert(i, (k, item2));
    assert(json::members_view(m@) =~= mv.update(
        i as int,
        (mv[i as int].0, Json::Object(json::with_member(mv[i as int].1->Object_0, id@, v@))),
    ));
}

impl Response {
    /// A response to request `request_id` on behalf of `agent_user_id`, with
    /// no payload and no intent yet.
    pub fn new(request_id: String, agent_user_id: String) -> (r: Response)
        ensures
            r@ == (ResponseView {
                request_id: request_id@,
                payload: Json::Null,
                agent_user_id: agent_user_id@,
                intent: None,
            }),
    {
        Response { request_id, payload: JsonValue::Null, agent_user_id, handling_intent: None }
    }

    /// Records the intent being handled; the first intent set stays.
    pub fn set_intent(self, intent: Intent) -> (r: Response)
        ensures
            r@ == self@.with_intent(intent@),
    {
        if self.handling_intent.is_some() {
            return self;
        }
        Response { handling_intent: Some(intent), ..self }
    }

    /// Adds device `id` with entry `value` to the payload.
    pub fn add_device(self, id: String, value: JsonValue) -> (r: Response)
        requires
            self@.device_ready(),
        ensures
            r@ == self@.with_device(id@, value@),
    {
        let is_sync = match &self.handling_intent {
            Some(Intent::Sync) => true,
            Some(Intent::Query(_)) => false,
            _ => return self,
        };
        let Response { request_id, payload, agent_user_id, handling_intent } = self;
        let ghost p0 = payload@;
        let mut m: Vec<(String, JsonValue)> = match payload {
            JsonValue::Object(m) => {
                proof {
                    json::lemma_object_view(m);
                }
                m
            },
            _ => {
                let mut m: Vec<(String, JsonValue)> = Vec::new();
                if is_sync {
                    m.push((String::from_str("agentUserId"), JsonValue::String(agent_user_id.clone())));
                    let e: Vec<JsonValue> = Vec::new();
                    proof {
                        json::lemma_array_view(e);
                        assert(json::elements_view(e@) =~= Seq::<Json>::empty());
                    }
                    m.push((String::from_str("devices"), JsonValue::Array(e)));
                    proof {
                        assert(json::members_view(m@) =~= seq![
                            ("agentUserId"@, jstr(agent_user_id@)),
                            ("devices"@, Json::Array(Seq::empty())),
                        ]);
                    }
                } else {
                    let e: Vec<(String, JsonValue)> = Vec::new();
                    proof {
                        json::lemma_object_view(e);
                        assert(json::members_view(e@) =~= Seq::<(Seq<char>, Json)>::empty());
                    }
                    m.push((String::from_str("devices"), JsonValue::Object(e)));
                    proof {
                        assert(json::members_view(m@) =~= seq![("devices"@, Json::Object(Seq::empty()))]);
                    }
                }
                m
            },
        };
        let ghost mv = json::members_view(m@);
        proof {
            if p0 is Null {
                reveal_strlit("agentUserId");
                reveal_strlit("devices");
                if is_sync {
                    assert(mv[0].0.len() != "devices"@.len());
                    json::lemma_key_index_found(mv, "devices"@, 1);
                } else {
                    json::lemma_key_index_found(mv, "devices"@, 0);
                }
            }
        }
        let idx = match find_member(&m, "devices") {
            Some(i) => i,
            None => 0,
        };
        if is_sync {
            push_into_array_member(&mut m, idx, value);
        } else {
            let v2 = if matches!(value, JsonValue::Null) { offline_value() } else { value };
            insert_into_object_member(&mut m, idx, id, v2);
        }
        proof {
            json::lemma_object_view(m);
        }
        Response { request_id, payload: JsonValue::Object(m), agent_user_id, handling_intent }
    }

    /// Reports, for an EXECUTE response, the groups of devices that share a
    /// state; other responses are unchanged.
    pub fn add_command_status(self, command_result: Vec<(JsonValue, Vec<String>)>) -> (r: Response)
        ensures
            r@ == self@.with_command_status(groups_view(command_result@)),
    {
        match &self.handling_intent {
            Some(Intent::Execute(_)) => {},
            _ => return self,
        }
        let ghost gv = groups_view(command_result@);
        let mut result: Vec<JsonValue> = Vec::new();
        let mut i: usize = 0;
        assert(gv.take(0) =~= Seq::<(Json, Seq<Seq<char>>)>::empty());
        assert(json::elements_view(result@) =~= Seq::<Json>::empty());
        while i < command_result.len()
            invariant
                i <= command_result.len(),
                gv == groups_view(command_result@),
                json::elements_view(result@) == command_statuses(gv.take(i as int)),
            decreases command_result.len() - i,
        {
            assert(gv.take(i + 1).drop_last() =~= gv.take(i as int));
            assert(gv.take(i + 1).last() == gv[i as int]);
            let ghost rv = json::elements_view(result@);
            match command_result[i].0.copy() {
                JsonValue::Object(mut m) => {
                    proof {
                        json::lemma_object_view(m);
                    }
                    let ghost mv = json::members_view(m@);
                    let idv = id_values(&command_result[i].1);
                    insert_member(&mut m, String::from_str("ids"), idv);
                    proof {
                        json::lemma_object_view(m);
                    }
                    result.push(JsonValue::Object(m));
                    assert(json::elements_view(result@) =~= rv.push(
                        Json::Object(json::with_member(mv, "ids"@, Json::Array(id_strings(gv[i as int].1)))),
                    ));
                },
                _ => {},
            }
            i = i + 1;
        }
        assert(gv.take(command_result.len() as int) =~= gv);
        let mut payload_members: Vec<(String, JsonValue)> = Vec::new();
        payload_members.push((String::from_str("commands"), JsonValue::Array(result)));
        proof {
            json::lemma_array_view(result);
            json::lemma_object_view(payload_members);
            assert(json::members_view(payload_members@) =~= seq![("commands"@, Json::Array(command_statuses(gv)))]);
        }
        Response { payload: JsonValue::Object(payload_members), ..self }
    }

    /// Replaces the payload by the error payload for `error_code`.
    pub fn error_payload(self, error_code: String) -> (r: Response)
        ensures
            r@ == self@.with_error(error_code@),
    {
        Response { payload: error_value(error_code), ..self }
    }

    /// The body sent back to Google Home: the request identifier and the
    /// payload, a transient error when no payload was set.
    pub fn build(self) -> (body: JsonValue)
        ensures
            body@ == self@.body(),
    {
        let payload = if matches!(self.payload, JsonValue::Null) {
            error_value(String::from_str("transientError"))
        } else {
            self.payload
        };
        let mut m: Vec<(String, JsonValue)> = Vec::new();
        m.push((String::from_str("requestId"), JsonValue::String(self.request_id)));
        m.push((String::from_str("payload"), payload));
        proof {
            json::lemma_object_view(m);
            assert(json::members_view(m@) =~= seq![
                ("requestId"@, jstr(self@.request_id)),
                ("payload"@, self@.final_payload()),
            ]);
        }
        JsonValue::Object(m)
    }
}

/// The string `id` member of a device entry, if it has one.
pub open spec fn string_id(d: Json) -> Option<Seq<char>> {
    match d {
        Json::Object(m) => match json::member(m, "id"@) {
            Some(Json::Str(s)) => Some(s),
            _ => None,
        },
        _ => None,
    }
}

/// A reply from a node to a request the fulfillment handler sent it.
pub enum NodeReply {
    /// The request could not be sent, or no reply came.
    SendFailed,
    /// The node replied with `status`; `body` is the reply parsed as JSON,
    /// when it parses.
    Answered { status: u16, body: Option<JsonValue> },
}

/// The response after adding, in order, each entry of `ds` that carries a
/// string identifier.
pub open spec fn with_sync_devices(r: ResponseView, ds: Seq<Json>) -> ResponseView
    decreases ds.len(),
{
    if ds.len() == 0 {
        r
    } else {
        let prev = with_sync_devices(r, ds.drop_last());
        match string_id(ds.last()) {
            Some(id) => prev.with_device(id, ds.last()),
            None => prev,
        }
    }
}

/// An entry of a QUERY reply: a two-element array of a device identifier
/// and its state.
pub open spec fn query_pair(e: Json) -> Option<(Seq<char>, Json)> {
    match e {
        Json::Array(a) => if a.len() == 2 {
            match a[0] {
                Json::Str(id) => Some((id, a[1])),
                _ => None,
            }
        } else {
            None
        },
        _ => None,
    }
}

/// Every entry of `s` is a QUERY reply entry.
pub open spec fn all_query_pairs(s: Seq<Json>) -> bool {
    forall|i: int| 0 <= i < s.len() ==> (#[trigger] query_pair(s[i])) is Some
}

/// The response after adding, in order, the device state of each entry of `s`.
pub open spec fn with_query_states(r: ResponseView, s: Seq<Json>) -> ResponseView
    decreases s.len(),
{
    if s.len() == 0 {
        r
    } else {
        let prev = with_query_states(r, s.drop_last());
        match query_pair(s.last()) {
            Some((id, v)) => prev.with_device(id, v),
            None => prev,
        }
    }
}

impl ResponseView {
    /// The response after the node's reply to a SYNC request.
    pub open spec fn after_sync_reply(self, reply: Option<(u16, Option<Json>)>) -> ResponseView {
        match reply {
            None => self.with_error("hardError"@),
            Some((status, body)) => if status != 200 {
                self
            } else {
                match body {
                    Some(Json::Array(ds)) => with_sync_devices(self, ds),
                    _ => self.with_error("hardError"@),
                }
            },
        }
    }

    /// The response after the node's reply to a QUERY request.
    pub open spec fn after_query_reply(self, reply: Option<(u16, Option<Json>)>) -> ResponseView {
        match reply {
            None => self.with_error("hardError"@),
            Some((status, body)) => if status == 404 {
                self.with_error("deviceNotFound"@)
            } else if status != 200 {
                self.with_error("hardError"@)
            } else {
                match body {
                    Some(Json::Array(s)) => if all_query_pairs(s) {
                        with_query_states(self, s)
                    } else {
                        self.with_error("hardError"@)
                    },
                    _ => self.with_error("hardError"@),
                }
            },
        }
    }
}

/// Whether every entry of `s` is an identifier/state pair.
fn are_query_pairs(s: &Vec<JsonValue>) -> (r: bool)
    ensures
        r == all_query_pairs(json::elements_view(s@)),
{
    let ghost sv = json::elements_view(s@);
    let mut k: usize = 0;
    while k < s.len()
        invariant
            k <= s.len(),
            sv == json::elements_view(s@),
            forall|j: int| 0 <= j < k ==> (#[trigger] query_pair(sv[j])) is Some,
        decreases s.len() - k,
    {
        let ok = match &s[k] {
            JsonValue::Array(a) => {
                proof {
                    json::lemma_array_view(*a);
                }
                a.len() == 2 && matches!(a[0], JsonValue::String(_))
            },
            _ => false,
        };
        if !ok {
            assert(query_pair(sv[k as int]) is None);
            return false;
        }
        k = k + 1;
    }
    true
}

/// The reply taken by its view.
pub open spec fn reply_view(reply: NodeReply) -> Option<(u16, Option<Json>)> {
    match reply {
        NodeReply::SendFailed => None,
        NodeReply::Answered { status, body } => Some(
            (
                status,
                match body {
                    Some(b) => Some(b@),
                    None => None,
                },
            ),
        ),
    }
}

/// Adding a device keeps a SYNC or QUERY response able to take further devices.
pub proof fn lemma_device_ready_kept(r: ResponseView, id: Seq<char>, v: Json)
    requires
        r.device_ready(),
    ensures
        r.with_device(id, v).device_ready(),
        r.with_device(id, v).intent == r.intent,
{
    let p = match r.intent {
        Some(IntentView::Sync) => if r.payload is Null { initial_sync_payload(r.agent_user_id) } else { r.payload },
        _ => if r.payload is Null { initial_query_payload() } else { r.payload },
    };
    if let Json::Object(m) = p {
        match json::member(m, "devices"@) {
            Some(Json::Array(a)) => {
                json::lemma_member_after_store(m, "devices"@, Json::Array(a.push(v)), "devices"@);
            },
            Some(Json::Object(d)) => {
                json::lemma_member_after_store(
                    m,
                    "devices"@,
                    Json::Object(json::with_member(d, id, if v is Null { offline_object() } else { v })),
                    "devices"@,
                );
            },
            _ => {},
        }
    }
}

impl Response {
    /// Applies the node's reply to the SYNC request: the devices it lists are
    /// added; a reply that cannot be read makes the response a hard error;
    /// a reply with a status other than 200 leaves the response unchanged.
    pub fn apply_sync_reply(self, reply: NodeReply) -> (r: Response)
        requires
            self@.intent == Some(IntentView::Sync),
            self@.device_ready(),
        ensures
            r@ == self@.after_sync_reply(reply_view(reply)),
    {
        match reply {
            NodeReply::SendFailed => self.error_payload(String::from_str("hardError")),
            NodeReply::Answered { status, body } => {
                if status != 200 {
                    return self;
                }
                match body {
                    Some(JsonValue::Array(ds)) => {
                        let ghost dv = json::elements_view(ds@);
                        proof {
                            json::lemma_array_view(ds);
                        }
                        let ghost r0 = self@;
                        let mut response = self;
                        let mut i: usize = 0;
                        assert(dv.take(0) =~= Seq::<Json>::empty());
                        while i < ds.len()
                            invariant
                                i <= ds.len(),
                                dv == json::elements_view(ds@),
                                response@ == with_sync_devices(r0, dv.take(i as int)),
                                response@.device_ready(),
                                response@.intent == Some(IntentView::Sync),
                            decreases ds.len() - i,
                        {
                            assert(dv.take(i + 1).drop_last() =~= dv.take(i as int));
                            assert(dv.take(i + 1).last() == json::json_view(ds@[i as int]));
                            match &ds[i] {
                                JsonValue::Object(m) => {
                                    proof {
                                        json::lemma_object_view(*m);
                                    }
                                    match get_member(m, "id") {
                                        Some(JsonValue::String(id)) => {
                                            proof {
                                                lemma_device_ready_kept(response@, id@, json::json_view(ds@[i as int]));
                                            }
                                            response = response.add_device(id.clone(), ds[i].copy());
                                        },
                                        _ => {},
                                    }
                                },
                                _ => {},
                            }
                            i = i + 1;
                        }
                        assert(dv.take(ds.len() as int) =~= dv);
                        response
                    },
                    _ => self.error_payload(String::from_str("hardError")),
                }
            },
        }
    }

    /// Applies the node's reply to the QUERY request: the states it lists
    /// are added; an unknown device makes the response `deviceNotFound`; any
    /// other failure makes it a hard error.
    pub fn apply_query_reply(self, reply: NodeReply) -> (r: Response)
        requires
            self@.intent matches Some(IntentView::Query(_)),
            self@.device_ready(),
        ensures
            r@ == self@.after_query_reply(reply_view(reply)),
    {
        match reply {
            NodeReply::SendFailed => self.error_payload(String::from_str("hardError")),
            NodeReply::Answered { status, body } => {
                if status == 404 {
                    return self.error_payload(String::from_str("deviceNotFound"));
                }
                if status != 200 {
                    return self.error_payload(String::from_str("hardError"));
                }
                match body {
                    Some(JsonValue::Array(s)) => {
                        let ghost sv = json::elements_view(s@);
                        proof {
                            json::lemma_array_view(s);
                        }
                        if !are_query_pairs(&s) {
                            return self.error_payload(String::from_str("hardError"));
                        }
                        let ghost r0 = self@;
                        let mut response = self;
                        let mut i: usize = 0;
                        assert(sv.take(0) =~= Seq::<Json>::empty());
                        while i < s.len()
                            invariant
                                i <= s.len(),
                                sv == json::elements_view(s@),
                                all_query_pairs(sv),
                                response@ == with_query_states(r0, sv.take(i as int)),
                                response@.device_ready(),
                                response@.intent == r0.intent,
                                r0.intent matches Some(IntentView::Query(_)),
                            decreases s.len() - i,
                        {
                            assert(sv.take(i + 1).drop_last() =~= sv.take(i as int));
                            assert(sv.take(i + 1).last() == sv[i as int]);
                            assert(query_pair(sv[i as int]) is Some);
                            match &s[i] {
                                JsonValue::Array(a) => {
                                    proof {
                                        json::lemma_array_view(*a);
                                    }
                                    match &a[0] {
                                        JsonValue::String(id) => {
                                            proof {
                                                lemma_device_ready_kept(response@, id@, json::json_view(a@[1]));
                                            }
                                            response = response.add_device(id.clone(), a[1].copy());
                                        },
                                        _ => {},
                                    }
                                },
                                _ => {},
                            }
                            i = i + 1;
                        }
                        assert(sv.take(s.len() as int) =~= sv);
                        response
                    },
                    _ => self.error_payload(String::from_str("hardError")),
                }
            },
        }
    }
}

/// Whether index `i` holds the first group of `g` with state `state`.
pub open spec fn is_first_group(g: Seq<(Json, Seq<Seq<char>>)>, state: Json, i: int) -> bool {
    &&& 0 <= i < g.len()
    &&& g[i].0 == state
    &&& forall|j: int| 0 <= j < i ==> g[j].0 != state
}

/// Index of the first group with state `state`, or -1 when there is none.
pub open spec fn group_index(g: Seq<(Json, Seq<Seq<char>>)>, state: Json) -> int {
    if exists|i: int| is_first_group(g, state, i) {
        choose|i: int| is_first_group(g, state, i)
    } else {
        -1
    }
}

/// The groups after recording that device `id` reached `state`: it joins
/// the first group with that state, or starts a new group at the end.
pub open spec fn grouped(g: Seq<(Json, Seq<Seq<char>>)>, state: Json, id: Seq<char>) -> Seq<(Json, Seq<Seq<char>>)> {
    let i = group_index(g, state);
    if i >= 0 {
        g.update(i, (state, g[i].1.push(id)))
    } else {
        g.push((state, seq![id]))
    }
}

proof fn lemma_group_index_found(g: Seq<(Json, Seq<Seq<char>>)>, state: Json, i: int)
    requires
        is_first_group(g, state, i),
    ensures
        group_index(g, state) == i,
{
    let c = choose|c: int| is_first_group(g, state, c);
    assert(is_first_group(g, state, c));
    if c < i {
        assert(g[c].0 != state);
    } else if c > i {
        assert(g[i].0 != state);
    }
}

/// Index of the first group with state `state`.
fn find_group(groups: &Vec<(JsonValue, Vec<String>)>, state: &JsonValue) -> (r: Option<usize>)
    ensures
        r is None ==> group_index(groups_view(groups@), state@) == -1,
        r matches Some(i) ==> i == group_index(groups_view(groups@), state@) && i < groups@.len(),
{
    let ghost gv = groups_view(groups@);
    let mut i: usize = 0;
    while i < groups.len()
        invariant
            i <= groups.len(),
            gv == groups_view(groups@),
            forall|j: int| 0 <= j < i ==> gv[j].0 != state@,
        decreases groups.len() - i,
    {
        if groups[i].0.same(state) {
            proof {
                lemma_group_index_found(gv, state@, i as int);
            }
            return Some(i);
        }
        i = i + 1;
    }
    None
}

/// Records that device `id` reached `state`.
pub fn group_state(groups: &mut Vec<(JsonValue, Vec<String>)>, state: JsonValue, id: String)
    ensures
        groups_view(final(groups)@) == grouped(groups_view(old(groups)@), state@, id@),
{
    let ghost gv = groups_view(groups@);
    match find_group(groups, &state) {
        Some(i) => {
            let (st, mut ids) = groups.remove(i);
            let ghost idsv = strings::strings_view(ids@);
            let ghost stv = st@;
            ids.push(id);
            groups.insert(i, (st, ids));
            proof {
                assert(stv == state@);
                assert(strings::strings_view(ids@) =~= idsv.push(id@));
                assert(groups_view(groups@) =~= gv.update(i as int, (state@, gv[i as int].1.push(id@))));
            }
        },
        None => {
            let mut ids: Vec<String> = Vec::new();
            ids.push(id);
            let ghost sv = state@;
            groups.push((state, ids));
            proof {
                assert(strings::strings_view(ids@) =~= seq![id@]);
                assert(groups_view(groups@) =~= gv.push((sv, seq![id@])));
            }
        },
    }
}

/// The groups and response after the node's reply to an EXECUTE request for
/// device `id`.
pub open spec fn after_execute_reply(
    r: ResponseView,
    g: Seq<(Json, Seq<Seq<char>>)>,
    id: Seq<char>,
    reply: Option<(u16, Option<Json>)>,
) -> (ResponseView, Seq<(Json, Seq<Seq<char>>)>) {
    match reply {
        None => (r.with_error("hardError"@), g),
        Some((status, body)) => if status == 404 {
            (r.with_error("deviceNotFound"@), g)
        } else if status != 200 {
            (r.with_error("hardError"@), g)
        } else {
            match body {
                Some(state) => (r, grouped(g, state, id)),
                None => (r.with_error("hardError"@), g),
            }
        },
    }
}

impl Response {
    /// Applies the node's reply to the EXECUTE request sent for device `id`:
    /// the state it reports joins the groups; an unknown device makes the
    /// response `deviceNotFound`; any other failure makes it a hard error.
    pub fn apply_execute_reply(
        self,
        groups: &mut Vec<(JsonValue, Vec<String>)>,
        id: String,
        reply: NodeReply,
    ) -> (r: Response)
        ensures
            (r@, groups_view(final(groups)@)) == after_execute_reply(
                self@,
                groups_view(old(groups)@),
                id@,
                reply_view(reply),
            ),
    {
        match reply {
            NodeReply::SendFailed => self.error_payload(String::from_str("hardError")),
            NodeReply::Answered { status, body } => {
                if status == 404 {
                    return self.error_payload(String::from_str("deviceNotFound"));
                }
                if status != 200 {
                    return self.error_payload(String::from_str("hardError"));
                }
                match body {
                    Some(state) => {
                        group_state(groups, state, id);
                        self
                    },
                    None => self.error_payload(String::from_str("hardError")),
                }
            },
        }
    }
}

/// The identifiers of the devices a QUERY intent asks about: the string
/// `id` member of each entry, entries without one being skipped.
pub open spec fn queried_ids(ds: Seq<Json>) -> Seq<Seq<char>>
    decreases ds.len(),
{
    if ds.len() == 0 {
        Seq::empty()
    } else {
        let rest = queried_ids(ds.drop_last());
        match string_id(ds.last()) {
            Some(id) => rest.push(id),
            None => rest,
        }
    }
}

/// The identifiers of the devices a QUERY intent asks about.
pub fn query_device_ids(devices: &Vec<JsonValue>) -> (ids: Vec<String>)
    ensures
        strings::strings_view(ids@) == queried_ids(json::elements_view(devices@)),
{
    let ghost dv = json::elements_view(devices@);
    let mut ids: Vec<String> = Vec::new();
    let mut i: usize = 0;
    assert(dv.take(0) =~= Seq::<Json>::empty());
    assert(strings::strings_view(ids@) =~= Seq::<Seq<char>>::empty());
    while i < devices.len()
        invariant
            i <= devices.len(),
            dv == json::elements_view(devices@),
            strings::strings_view(ids@) == queried_ids(dv.take(i as int)),
        decreases devices.len() - i,
    {
        assert(dv.take(i + 1).drop_last() =~= dv.take(i as int));
        assert(dv.take(i + 1).last() == json::json_view(devices@[i as int]));
        let ghost before = strings::strings_view(ids@);
        match &devices[i] {
            JsonValue::Object(m) => {
                proof {
                    json::lemma_object_view(*m);
                }
                match get_member(m, "id") {
                    Some(JsonValue::String(id)) => {
                        ids.push(id.clone());
                        assert(strings::strings_view(ids@) =~= before.push(id@));
                    },
                    _ => {},
                }
            },
            _ => {},
        }
        i = i + 1;
    }
    assert(dv.take(devices.len() as int) =~= dv);
    ids
}

/// Each group of devices taken by its view: the shared state and the
/// identifiers of the devices in it.
pub open spec fn groups_view(g: Seq<(JsonValue, Vec<String>)>) -> Seq<(Json, Seq<Seq<char>>)> {
    Seq::new(g.len(), |i: int| (g[i].0@, strings::strings_view(g[i].1@)))
}

/// The identifiers as a JSON array of strings.
pub fn id_values(ids: &Vec<String>) -> (v: JsonValue)
    ensures
        v@ == Json::Array(id_strings(strings::strings_view(ids@))),
{
    let mut a: Vec<JsonValue> = Vec::new();
    let mut i: usize = 0;
    while i < ids.len()
        invariant
            i <= ids.len(),
            a@.len() == i,
            forall|j: int| 0 <= j < i ==> json::json_view(#[trigger] a@[j]) == jstr(ids@[j]@),
        decreases ids.len() - i,
    {
        a.push(JsonValue::String(ids[i].clone()));
        i = i + 1;
    }
    proof {
        json::lemma_array_view(a);
        assert(json::elements_view(a@) =~= id_strings(strings::strings_view(ids@)));
    }
    JsonValue::Array(a)
}

// ---------------------------------------------------------------------------
// Where the fulfillment endpoint reaches the node, and whose request it is.

/// The node's device listing: the node URL `node` with the trailing `/` of
/// its path taken off; `None` where its path does not end in `/` or the URL
/// does not parse.
pub open spec fn device_listing_url(node: Seq<char>) -> Option<Seq<char>> {
    if uri::byte_len(node) < uri::MAX_URL_INPUT {
        match uri::url_path(node) {
            Some(p) => if p.len() > 0 && p.last() == '/' && uri::byte_len(node) + uri::byte_len(p.drop_last())
                < uri::MAX_URL_INPUT {
                uri::url_set_path(node, p.drop_last())
            } else {
                None
            },
            None => None,
        }
    } else {
        None
    }
}

/// The path of a node's device listing, for a node URL with path `path`:
/// the path without its trailing `/`; `None` where it has none.
pub fn listing_path(path: &str) -> (r: Option<String>)
    ensures
        match r {
            Some(t) => path@.len() > 0 && path@.last() == '/' && t@ == path@.drop_last(),
            None => !(path@.len() > 0 && path@.last() == '/'),
        },
{
    let n = path.unicode_len();
    if n == 0 || path.get_char(n - 1) != '/' {
        return None;
    }
    let trimmed = path.substring_char(0, n - 1);
    assert(trimmed@ =~= path@.drop_last());
    Some(String::from_str(trimmed))
}

/// Builds [`device_listing_url`].
pub fn device_listing(node: &str) -> (r: Option<String>)
    ensures
        strings::opt_text(r) == device_listing_url(node@),
{
    if !uri::fits_url(node) {
        return None;
    }
    let p = match uri::path_of_url(node) {
        Some(p) => p,
        None => return None,
    };
    let trimmed = match listing_path(p.as_str()) {
        Some(t) => t,
        None => return None,
    };
    let a = node.as_bytes().len();
    let b = trimmed.as_str().as_bytes().len();
    if a < uri::MAX_URL_INPUT && b < uri::MAX_URL_INPUT && a + b < uri::MAX_URL_INPUT {
        uri::with_path(node, trimmed.as_str())
    } else {
        None
    }
}

/// The URL `rel` resolved against the node URL `node`.
pub open spec fn node_url(node: Seq<char>, rel: Seq<char>) -> Option<Seq<char>> {
    if uri::byte_len(node) + uri::byte_len(rel) < uri::MAX_URL_INPUT {
        uri::url_join(node, rel)
    } else {
        None
    }
}

/// Builds [`node_url`]: a device's endpoint for its id, or the report-state
/// endpoint for `report_state`.
pub fn node_endpoint(node: &str, rel: &str) -> (r: Option<String>)
    ensures
        strings::opt_text(r) == node_url(node@, rel@),
{
    let a = node.as_bytes().len();
    let b = rel.as_bytes().len();
    if a < uri::MAX_URL_INPUT && b < uri::MAX_URL_INPUT && a + b < uri::MAX_URL_INPUT {
        uri::join_url(node, rel)
    } else {
        None
    }
}

/// The session id an `Authorization` header value stands for: the access
/// token being what follows its last space.
pub open spec fn bearer_session(header: Seq<char>) -> Seq<char> {
    crate::auth::access_key(strings::pieces(header, " "@).last())
}

/// Builds [`bearer_session`].
pub fn bearer_session_id(header: &str) -> (k: String)
    ensures
        k@ == bearer_session(header@),
{
    proof {
        reveal_strlit(" ");
    }
    let parts = strings::split_str(header, " ");
    let last = &parts[parts.len() - 1];
    proof {
        assert(strings::strings_view(parts@).last() == last@);
    }
    crate::auth::access_session_id(last.as_str())
}

} // verus!
