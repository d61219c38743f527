//! Reporting device states to the Home Graph after QUERY and EXECUTE.

use vstd::prelude::*;
use vstd::string::*;

use crate::error::NodeError;
use crate::fulfillment::{Intent, IntentView};
use crate::json::{self, get_member, insert_member, remove_member, Json, JsonValue};

verus! {

broadcast use vstd::string::group_string_axioms;

/// The state reported for a device: its state object without `status`.
pub open spec fn reported(m: Seq<(Seq<char>, Json)>) -> Json {
    Json::Object(json::without_member(m, "status"@))
}

/// The states gathered from the `devices` object of a QUERY payload: every
/// device whose entry is an object, in order.
pub open spec fn query_states(devs: Seq<(Seq<char>, Json)>) -> Seq<(Seq<char>, Json)>
    decreases devs.len(),
{
    if devs.len() == 0 {
        Seq::empty()
    } else {
        let acc = query_states(devs.drop_last());
        match devs.last().1 {
            Json::Object(m) => json::with_member(acc, devs.last().0, reported(m)),
            _ => acc,
        }
    }
}

/// Every device of a QUERY payload's `devices` object whose entry is an
/// object is reported, under its own id, with that entry less its `status`;
/// no other id is reported. (The keys of a JSON object are distinct.)
pub proof fn lemma_query_states_report_each_device(devs: Seq<(Seq<char>, Json)>, id: Seq<char>)
    requires
        json::keys_distinct(devs),
    ensures
        json::member(query_states(devs), id) == match json::member(devs, id) {
            Some(Json::Object(m)) => Some(Json::Object(json::without_member(m, "status"@))),
            _ => None::<Json>,
        },
    decreases devs.len(),
{
    if devs.len() == 0 {
        json::lemma_key_index_absent(devs, id);
        json::lemma_key_index_absent(query_states(devs), id);
    } else {
        let init = devs.drop_last();
        let (k, v) = devs.last();
        assert(json::keys_distinct(init));
        lemma_query_states_report_each_device(init, id);
        lemma_query_states_report_each_device(init, k);
        assert forall|j: int| 0 <= j < init.len() implies init[j].0 != k by {
            assert(devs[j].0 != devs[devs.len() - 1].0);
        }
        json::lemma_key_index_absent(init, k);
        assert(devs =~= json::with_member(init, k, v));
        json::lemma_member_after_store(init, k, v, id);
        let acc = query_states(init);
        match v {
            Json::Object(m) => {
                json::lemma_member_after_store(acc, k, reported(m), id);
            },
            _ => {},
        }
    }
}

/// The states gathered from one command status of an EXECUTE payload.
pub open spec fn command_states(acc: Seq<(Seq<char>, Json)>, ids: Seq<Json>, st: Json) -> Seq<(Seq<char>, Json)>
    decreases ids.len(),
{
    if ids.len() == 0 {
        acc
    } else {
        let prev = command_states(acc, ids.drop_last(), st);
        match (ids.last(), st) {
            (Json::Str(id), Json::Object(m)) => json::with_member(prev, id, reported(m)),
            _ => prev,
        }
    }
}

/// The states gathered from the `commands` array of an EXECUTE payload:
/// for every command object with an `ids` array and a `states` member, each
/// string identifier takes that state when it is an object.
pub open spec fn execute_states(cmds: Seq<Json>) -> Seq<(Seq<char>, Json)>
    decreases cmds.len(),
{
    if cmds.len() == 0 {
        Seq::empty()
    } else {
        let acc = execute_states(cmds.drop_last());
        match cmds.last() {
            Json::Object(c) => match (json::member(c, "ids"@), json::member(c, "states"@)) {
                (Some(Json::Array(ids)), Some(st)) => command_states(acc, ids, st),
                _ => acc,
            },
            _ => acc,
        }
    }
}

/// The request body reporting `states`.
pub open spec fn report_body(request_id: Seq<char>, agent_user_id: Seq<char>, states: Seq<(Seq<char>, Json)>) -> Json {
    Json::Object(
        seq![
            ("requestId"@, Json::Str(request_id)),
            ("agentUserId"@, Json::Str(agent_user_id)),
            (
                "payload"@,
                Json::Object(
                    seq![
                        (
                            "devices"@,
                            Json::Object(
                                seq![
                                    ("states"@, Json::Object(states)),
                                    ("notifications"@, Json::Object(Seq::empty())),
                                ],
                            ),
                        ),
                    ],
                ),
            ),
        ],
    )
}

/// The outcome of preparing a state report for a response payload: no report
/// for SYNC, DISCONNECT or no intent, the report for QUERY and EXECUTE, or
/// the error for a payload of the wrong shape.
pub open spec fn report_for(
    request_id: Seq<char>,
    agent_user_id: Seq<char>,
    intent: Option<IntentView>,
    payload: Json,
) -> Result<Option<Json>, Seq<char>> {
    match intent {
        Some(IntentView::Query(_)) => match payload {
            Json::Object(p) => match json::member(p, "devices"@) {
                Some(Json::Object(devs)) => Ok(Some(report_body(request_id, agent_user_id, query_states(devs)))),
                _ => Err("Query - Mismatched payload type"@),
            },
            _ => Err("Query - Mismatched payload type"@),
        },
        Some(IntentView::Execute(_)) => match payload {
            Json::Object(p) => match json::member(p, "commands"@) {
                Some(Json::Array(cmds)) => Ok(Some(report_body(request_id, agent_user_id, execute_states(cmds)))),
                _ => Err("Execute - Mismatched payload type"@),
            },
            _ => Err("Execute - Mismatched payload type"@),
        },
        _ => Ok(None),
    }
}

/// The outcome of preparing a report, the error taken by its message.
pub open spec fn outcome_view(r: Result<Option<JsonValue>, Box<NodeError>>) -> Result<Option<Json>, Seq<char>> {
    match r {
        Ok(Some(v)) => Ok(Some(v@)),
        Ok(None) => Ok(None),
        Err(e) => Err(e._msg@),
    }
}

/// The reported state of a device state object.
fn reported_value(m: &Vec<(String, JsonValue)>) -> (v: JsonValue)
    ensures
        v@ == reported(json::members_view(m@)),
{
    let mut c = copy_members(m);
    remove_member(&mut c, "status");
    proof {
        json::lemma_object_view(c);
    }
    JsonValue::Object(c)
}

/// A copy of the members `m`.
fn copy_members(m: &Vec<(String, JsonValue)>) -> (c: Vec<(String, JsonValue)>)
    ensures
        json::members_view(c@) == json::members_view(m@),
{
    let mut c: Vec<(String, JsonValue)> = Vec::new();
    let mut i: usize = 0;
    while i < m.len()
        invariant
            i <= m.len(),
            c@.len() == i,
            forall|j: int| 0 <= j < i ==> (#[trigger] c@[j]).0@ == m@[j].0@ && json::json_view(c@[j].1) == json::json_view(m@[j].1),
        decreases m.len() - i,
    {
        c.push((m[i].0.clone(), m[i].1.copy()));
        i = i + 1;
    }
    assert(json::members_view(c@) =~= json::members_view(m@));
    c
}

/// The states of a QUERY payload's `devices` object.
fn collect_query_states(devs: &Vec<(String, JsonValue)>) -> (states: Vec<(String, JsonValue)>)
    ensures
        json::members_view(states@) == query_states(json::members_view(devs@)),
{
    let ghost dv = json::members_view(devs@);
    let mut states: Vec<(String, JsonValue)> = Vec::new();
    let mut i: usize = 0;
    assert(dv.take(0) =~= Seq::<(Seq<char>, Json)>::empty());
    assert(json::members_view(states@) =~= Seq::<(Seq<char>, Json)>::empty());
    while i < devs.len()
        invariant
            i <= devs.len(),
            dv == json::members_view(devs@),
            json::members_view(states@) == query_states(dv.take(i as int)),
        decreases devs.len() - i,
    {
        assert(dv.take(i + 1).drop_last() =~= dv.take(i as int));
        assert(dv.take(i + 1).last() == dv[i as int]);
        match &devs[i].1 {
            JsonValue::Object(m) => {
                proof {
                    json::lemma_object_view(*m);
                }
                let v = reported_value(m);
                insert_member(&mut states, devs[i].0.clone(), v);
            },
            _ => {},
        }
        i = i + 1;
    }
    assert(dv.take(devs.len() as int) =~= dv);
    states
}

/// Adds the states of one EXECUTE command status.
fn collect_command_states(states: &mut Vec<(String, JsonValue)>, ids: &Vec<JsonValue>, st: &JsonValue)
    ensures
        json::members_view(final(states)@) == command_states(
            json::members_view(old(states)@),
            json::elements_view(ids@),
            st@,
        ),
{
    let ghost iv = json::elements_view(ids@);
    let ghost s0 = json::members_view(states@);
    let mut i: usize = 0;
    assert(iv.take(0) =~= Seq::<Json>::empty());
    while i < ids.len()
        invariant
            i <= ids.len(),
            iv == json::elements_view(ids@),
            json::members_view(states@) == command_states(s0, iv.take(i as int), st@),
        decreases ids.len() - i,
    {
        assert(iv.take(i + 1).drop_last() =~= iv.take(i as int));
        assert(iv.take(i + 1).last() == iv[i as int]);
        match (&ids[i], st) {
            (JsonValue::String(id), JsonValue::Object(m)) => {
                proof {
                    json::lemma_object_view(*m);
                }
                let v = reported_value(m);
                insert_member(states, id.clone(), v);
            },
            _ => {},
        }
        i = i + 1;
    }
    assert(iv.take(ids.len() as int) =~= iv);
}

/// The states of an EXECUTE payload's `commands` array.
fn collect_execute_states(cmds: &Vec<JsonValue>) -> (states: Vec<(String, JsonValue)>)
    ensures
        json::members_view(states@) == execute_states(json::elements_view(cmds@)),
{
    let ghost cv = json::elements_view(cmds@);
    let mut states: Vec<(String, JsonValue)> = Vec::new();
    let mut i: usize = 0;
    assert(cv.take(0) =~= Seq::<Json>::empty());
    assert(json::members_view(states@) =~= Seq::<(Seq<char>, Json)>::empty());
    while i < cmds.len()
        invariant
            i <= cmds.len(),
            cv == json::elements_view(cmds@),
            json::members_view(states@) == execute_states(cv.take(i as int)),
        decreases cmds.len() - i,
    {
        assert(cv.take(i + 1).drop_last() =~= cv.take(i as int));
        assert(cv.take(i + 1).last() == cv[i as int]);
        match &cmds[i] {
            JsonValue::Object(c) => {
                proof {
                    json::lemma_object_view(*c);
                }
                match (get_member(c, "ids"), get_member(c, "states")) {
                    (Some(JsonValue::Array(ids)), Some(st)) => {
                        proof {
                            json::lemma_array_view(*ids);
                        }
                        collect_command_states(&mut states, ids, st);
                    },
                    _ => {},
                }
            },
            _ => {},
        }
        i = i + 1;
    }
    assert(cv.take(cmds.len() as int) =~= cv);
    states
}

/// The request body reporting `states`.
fn report_body_value(request_id: String, agent_user_id: String, states: Vec<(String, JsonValue)>) -> (v: JsonValue)
    ensures
        v@ == report_body(request_id@, agent_user_id@, json::members_view(states@)),
{
    let ghost sv = json::members_view(states@);
    let empty: Vec<(String, JsonValue)> = Vec::new();
    proof {
        json::lemma_object_view(states);
        json::lemma_object_view(empty);
        assert(json::members_view(empty@) =~= Seq::<(Seq<char>, Json)>::empty());
    }
    let mut device_states: Vec<(String, JsonValue)> = Vec::new();
    device_states.push((String::from_str("states"), JsonValue::Object(states)));
    device_states.push((String::from_str("notifications"), JsonValue::Object(empty)));
    let mut devices: Vec<(String, JsonValue)> = Vec::new();
    proof {
        json::lemma_object_view(device_states);
        assert(json::members_view(device_states@) =~= seq![
            ("states"@, Json::Object(sv)),
            ("notifications"@, Json::Object(Seq::empty())),
        ]);
    }
    let ghost dsv = json::members_view(device_states@);
    devices.push((String::from_str("devices"), JsonValue::Object(device_states)));
    proof {
        json::lemma_object_view(devices);
        assert(json::members_view(devices@) =~= seq![("devices"@, Json::Object(dsv))]);
    }
    let ghost dv = json::members_view(devices@);
    let mut body: Vec<(String, JsonValue)> = Vec::new();
    body.push((String::from_str("requestId"), JsonValue::String(request_id)));
    body.push((String::from_str("agentUserId"), JsonValue::String(agent_user_id)));
    body.push((String::from_str("payload"), JsonValue::Object(devices)));
    proof {
        json::lemma_object_view(body);
        assert(json::members_view(body@) =~= seq![
            ("requestId"@, Json::Str(request_id@)),
            ("agentUserId"@, Json::Str(agent_user_id@)),
            ("payload"@, Json::Object(dv)),
        ]);
    }
    JsonValue::Object(body)
}

/// Prepares the Home Graph state report for a fulfillment response: `None`
/// when the intent needs no report, the request body for QUERY and EXECUTE,
/// an error when the payload does not have the shape the intent gives it.
pub fn report_state_request(
    request_id: String,
    agent_user_id: String,
    intent: &Option<Intent>,
    payload: &JsonValue,
) -> (r: Result<Option<JsonValue>, Box<NodeError>>)
    ensures
        outcome_view(r) == report_for(
            request_id@,
            agent_user_id@,
            match intent {
                Some(i) => Some(i@),
                None => None,
            },
            payload@,
        ),
{
    match intent {
        Some(Intent::Query(_)) => {
            let p = match payload {
                JsonValue::Object(p) => p,
                _ => return Err(NodeError::new("Query - Mismatched payload type")),
            };
            proof {
                json::lemma_object_view(*p);
            }
            match get_member(p, "devices") {
                Some(JsonValue::Object(devs)) => {
                    proof {
                        json::lemma_object_view(*devs);
                    }
                    let states = collect_query_states(devs);
                    Ok(Some(report_body_value(request_id, agent_user_id, states)))
                },
                _ => Err(NodeError::new("Query - Mismatched payload type")),
            }
        },
        Some(Intent::Execute(_)) => {
            let p = match payload {
                JsonValue::Object(p) => p,
                _ => return Err(NodeError::new("Execute - Mismatched payload type")),
            };
            proof {
                json::lemma_object_view(*p);
            }
            match get_member(p, "commands") {
                Some(JsonValue::Array(cmds)) => {
                    proof {
                        json::lemma_array_view(*cmds);
                    }
                    let states = collect_execute_states(cmds);
                    Ok(Some(report_body_value(request_id, agent_user_id, states)))
                },
                _ => Err(NodeError::new("Execute - Mismatched payload type")),
            }
        },
        _ => Ok(None),
    }
}

/// The state report a device node sends for `request_id`: no device states.
pub fn empty_report_body(request_id: String, agent_user_id: String) -> (v: JsonValue)
    ensures
        v@ == report_body(request_id@, agent_user_id@, Seq::empty()),
{
    let states: Vec<(String, JsonValue)> = Vec::new();
    let v = report_body_value(request_id, agent_user_id, states);
    assert(json::members_view(states@) =~= Seq::<(Seq<char>, Json)>::empty());
    v
}

/// The body asking Home Graph to sync the devices of `agent_user_id`.
pub open spec fn request_sync_body(agent_user_id: Seq<char>) -> Json {
    Json::Object(seq![("agentUserId"@, Json::Str(agent_user_id))])
}

/// Builds [`request_sync_body`].
pub fn request_sync_value(agent_user_id: String) -> (v: JsonValue)
    ensures
        v@ == request_sync_body(agent_user_id@),
{
    let mut m: Vec<(String, JsonValue)> = Vec::new();
    m.push((String::from_str("agentUserId"), JsonValue::String(agent_user_id)));
    let v = JsonValue::Object(m);
    proof {
        json::lemma_object_view(m);
    }
    assert(json::members_view(m@) =~= seq![("agentUserId"@, Json::Str(agent_user_id@))]);
    v
}

} // verus!
