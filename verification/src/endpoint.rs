//! The fulfillment endpoint of the API server, as a state machine: from
//! the `Authorization` header and the bearer session it names, through the
//! requests forwarded to the node, to the answer. The caller performs each
//! step (a cache lookup, a request to the node, an invalidation) and hands
//! back what it came to.

use vstd::prelude::*;
use vstd::string::*;

use crate::auth::{access_key, access_session_id, jwt_unverified, refresh_key, refresh_session_id, session_subject};
use crate::fulfillment::{
    bearer_session, bearer_session_id, device_entry_id, device_listing, device_listing_url, groups_view, intent_of,
    node_endpoint, node_url, queried_ids, query_device_ids, reply_view, CommandView, Intent, IntentView, NodeReply,
    Request, Response, ResponseView,
};
use crate::json::{self, empty_object, Json, JsonValue};
use crate::strings::{self, opt_text, strings_view};

verus! {

broadcast use vstd::string::group_string_axioms;

/// What the cache holds for a bearer session.
pub struct Session {
    pub id_token: String,
    pub access_token: String,
    pub refresh_token: Option<String>,
}

/// [`Session`] over texts.
pub struct SessionView {
    pub id_token: Seq<char>,
    pub access_token: Seq<char>,
    pub refresh_token: Option<Seq<char>>,
}

impl View for Session {
    type V = SessionView;

    open spec fn view(&self) -> SessionView {
        SessionView {
            id_token: self.id_token@,
            access_token: self.access_token@,
            refresh_token: opt_text(self.refresh_token),
        }
    }
}

/// A device an EXECUTE request is forwarded for: its id, its endpoint on
/// the node and the actions sent to it.
pub struct Target {
    pub id: String,
    pub url: String,
    pub execution: Vec<JsonValue>,
}

/// [`Target`] over texts.
pub open spec fn target_view(t: Target) -> (Seq<char>, Seq<char>, Seq<Json>) {
    (t.id@, t.url@, json::elements_view(t.execution@))
}

/// Targets taken by their views.
pub open spec fn targets_view(ts: Seq<Target>) -> Seq<(Seq<char>, Seq<char>, Seq<Json>)> {
    Seq::new(ts.len(), |i: int| target_view(ts[i]))
}

/// The targets of one command: each device it names that has an endpoint
/// on the node, in order.
pub open spec fn command_targets(node: Seq<char>, devices: Seq<Json>, execution: Seq<Json>) -> Seq<
    (Seq<char>, Seq<char>, Seq<Json>),
>
    decreases devices.len(),
{
    if devices.len() == 0 {
        Seq::empty()
    } else {
        let rest = command_targets(node, devices.drop_last(), execution);
        let id = device_entry_id(devices.last());
        match node_url(node, id) {
            Some(u) => rest.push((id, u, execution)),
            None => rest,
        }
    }
}

/// The targets of an EXECUTE intent's commands, command after command.
pub open spec fn execute_targets(node: Seq<char>, cs: Seq<CommandView>) -> Seq<(Seq<char>, Seq<char>, Seq<Json>)>
    decreases cs.len(),
{
    if cs.len() == 0 {
        Seq::empty()
    } else {
        execute_targets(node, cs.drop_last()) + command_targets(node, cs.last().devices, cs.last().execution)
    }
}

/// The ids of the targets.
pub open spec fn target_ids(ts: Seq<(Seq<char>, Seq<char>, Seq<Json>)>) -> Seq<Seq<char>> {
    Seq::new(ts.len(), |i: int| ts[i].0)
}

/// Where a fulfillment request stands.
pub enum EndpointStage {
    /// Nothing done yet.
    Begin,
    /// The bearer session is being looked up.
    Lookup,
    /// The node's device listing is being read, for a SYNC request or, with
    /// `query`, for the QUERY of `ids`.
    Listing { request_id: String, sub: String, ids: Vec<String>, query: bool },
    /// The EXECUTE request for `targets[next]` is out.
    Executing { response: Response, groups: Vec<(JsonValue, Vec<String>)>, targets: Vec<Target>, next: usize },
    /// The access-token session is being ended; the refresh-token one follows.
    Revoking { refresh_token: Option<String> },
    /// The refresh-token session is being ended.
    RefreshRevoking,
    /// The node is being told to report state; `body` is the answer.
    Reporting { body: JsonValue },
    /// Answered.
    Done,
}

/// What the outside work of the last step came to.
pub enum EndpointEvent {
    /// The request arrived, with its `Authorization` header when it has a
    /// readable one.
    Start(Option<String>),
    /// The session found, if the lookup succeeded and found one.
    SessionFound(Option<Session>),
    /// The node's reply.
    NodeReplied(NodeReply),
    /// Whether the invalidation succeeded.
    Invalidated(bool),
    /// The report request went out (or failed; either way it is not waited for).
    Reported,
}

/// What to do next for a fulfillment request.
pub enum EndpointStep {
    /// Answer with this status and no body.
    Refuse(u16),
    /// Look up the session with this id.
    LookupSession(String),
    /// Read the node's device listing at this URL (where the node URL has
    /// one), with a `device_ids` parameter for each of these ids.
    GetDevices(Option<String>, Vec<String>),
    /// Post these actions to this device endpoint.
    PostExecution(String, Vec<JsonValue>),
    /// End the session with this id.
    Invalidate(String),
    /// Ask the node, at this URL (where the node URL resolves it), to report
    /// the state of these devices for this request and user.
    Report(Option<String>, String, String, Vec<String>),
    /// Answer 200 with this body.
    Answer(JsonValue),
}

/// [`EndpointStage`] over texts.
pub enum EndpointStageView {
    Begin,
    Lookup,
    Listing(Seq<char>, Seq<char>, Seq<Seq<char>>, bool),
    Executing(ResponseView, Seq<(Json, Seq<Seq<char>>)>, Seq<(Seq<char>, Seq<char>, Seq<Json>)>, nat),
    Revoking(Option<Seq<char>>),
    RefreshRevoking,
    Reporting(Json),
    Done,
}

/// [`EndpointEvent`] over texts.
pub enum EndpointEventView {
    Start(Option<Seq<char>>),
    SessionFound(Option<SessionView>),
    NodeReplied(Option<(u16, Option<Json>)>),
    Invalidated(bool),
    Reported,
}

/// [`EndpointStep`] over texts.
pub enum EndpointStepView {
    Refuse(u16),
    LookupSession(Seq<char>),
    GetDevices(Option<Seq<char>>, Seq<Seq<char>>),
    PostExecution(Seq<char>, Seq<Json>),
    Invalidate(Seq<char>),
    Report(Option<Seq<char>>, Seq<char>, Seq<char>, Seq<Seq<char>>),
    Answer(Json),
}

impl EndpointStage {
    pub open spec fn view(self) -> EndpointStageView {
        match self {
            EndpointStage::Begin => EndpointStageView::Begin,
            EndpointStage::Lookup => EndpointStageView::Lookup,
            EndpointStage::Listing { request_id, sub, ids, query } => EndpointStageView::Listing(
                request_id@,
                sub@,
                strings_view(ids@),
                query,
            ),
            EndpointStage::Executing { response, groups, targets, next } => EndpointStageView::Executing(
                response@,
                groups_view(groups@),
                targets_view(targets@),
                next as nat,
            ),
            EndpointStage::Revoking { refresh_token } => EndpointStageView::Revoking(opt_text(refresh_token)),
            EndpointStage::RefreshRevoking => EndpointStageView::RefreshRevoking,
            EndpointStage::Reporting { body } => EndpointStageView::Reporting(body@),
            EndpointStage::Done => EndpointStageView::Done,
        }
    }
}

impl EndpointEvent {
    pub open spec fn view(self) -> EndpointEventView {
        match self {
            EndpointEvent::Start(h) => EndpointEventView::Start(opt_text(h)),
            EndpointEvent::SessionFound(s) => EndpointEventView::SessionFound(
                match s {
                    Some(s) => Some(s@),
                    None => None,
                },
            ),
            EndpointEvent::NodeReplied(r) => EndpointEventView::NodeReplied(reply_view(r)),
            EndpointEvent::Invalidated(b) => EndpointEventView::Invalidated(b),
            EndpointEvent::Reported => EndpointEventView::Reported,
        }
    }
}

impl EndpointStep {
    pub open spec fn view(self) -> EndpointStepView {
        match self {
            EndpointStep::Refuse(s) => EndpointStepView::Refuse(s),
            EndpointStep::LookupSession(k) => EndpointStepView::LookupSession(k@),
            EndpointStep::GetDevices(u, ids) => EndpointStepView::GetDevices(opt_text(u), strings_view(ids@)),
            EndpointStep::PostExecution(u, e) => EndpointStepView::PostExecution(u@, json::elements_view(e@)),
            EndpointStep::Invalidate(k) => EndpointStepView::Invalidate(k@),
            EndpointStep::Report(u, r, a, ids) => EndpointStepView::Report(opt_text(u), r@, a@, strings_view(ids@)),
            EndpointStep::Answer(b) => EndpointStepView::Answer(b@),
        }
    }
}

/// Stop with this status.
pub open spec fn refused_with(status: u16) -> (EndpointStageView, EndpointStepView) {
    (EndpointStageView::Done, EndpointStepView::Refuse(status))
}

/// A fresh response to request `request_id` on behalf of `sub`.
pub open spec fn fresh_response(request_id: Seq<char>, sub: Seq<char>) -> ResponseView {
    ResponseView { request_id, payload: Json::Null, agent_user_id: sub, intent: None }
}

/// The report step of request `request_id` for user `sub` and devices `ids`,
/// answering `body` once it went out.
pub open spec fn report_then(node: Seq<char>, request_id: Seq<char>, sub: Seq<char>, ids: Seq<Seq<char>>, body: Json) -> (
    EndpointStageView,
    EndpointStepView,
) {
    (EndpointStageView::Reporting(body), EndpointStepView::Report(node_url(node, "report_state"@), request_id, sub, ids))
}

/// What a found session leads to: a session whose ID token does not decode
/// is refused with 401; a request without inputs fails with 500; otherwise
/// the first input's intent is handled on behalf of the token's subject.
/// SYNC and QUERY read the node's device listing; EXECUTE posts each
/// command's actions to each device with an endpoint, one after the other;
/// DISCONNECT ends the access-token session, then the refresh-token one; an
/// intent that cannot be read is answered with an empty error code.
pub open spec fn authorized_next(node: Seq<char>, request_id: Seq<char>, inputs: Seq<Json>, s: SessionView) -> (
    EndpointStageView,
    EndpointStepView,
) {
    match jwt_unverified(s.id_token) {
        None => refused_with(401),
        Some(c) => {
            let sub = c.sub;
            if inputs.len() == 0 {
                refused_with(500)
            } else {
                let r0 = fresh_response(request_id, sub);
                match intent_of(inputs[0]) {
                    Some(IntentView::Sync) => (
                        EndpointStageView::Listing(request_id, sub, Seq::empty(), false),
                        EndpointStepView::GetDevices(device_listing_url(node), Seq::empty()),
                    ),
                    Some(IntentView::Query(ds)) => (
                        EndpointStageView::Listing(request_id, sub, queried_ids(ds), true),
                        EndpointStepView::GetDevices(device_listing_url(node), queried_ids(ds)),
                    ),
                    Some(IntentView::Execute(cs)) => {
                        let r1 = r0.with_intent(IntentView::Execute(Seq::empty()));
                        let ts = execute_targets(node, cs);
                        if ts.len() == 0 {
                            report_then(node, request_id, sub, Seq::empty(), r1.with_command_status(Seq::empty()).body())
                        } else {
                            (
                                EndpointStageView::Executing(r1, Seq::empty(), ts, 0),
                                EndpointStepView::PostExecution(ts[0].1, ts[0].2),
                            )
                        }
                    },
                    Some(IntentView::Disconnect) => (
                        EndpointStageView::Revoking(s.refresh_token),
                        EndpointStepView::Invalidate(access_key(s.access_token)),
                    ),
                    None => report_then(node, request_id, sub, Seq::empty(), r0.with_error(Seq::empty()).body()),
                }
            }
        },
    }
}

/// The next stage and step of a fulfillment request with id `request_id`
/// and inputs `inputs`, forwarded to the node at `node`. A request without
/// a readable `Authorization` header, or whose bearer session is not found,
/// is refused with 401; a failed invalidation fails with 500; the node's
/// replies are folded into the response as the reply functions of
/// [`Response`] say; after SYNC, QUERY, EXECUTE or an unreadable intent the
/// node is asked to report state and the response is sent.
pub open spec fn endpoint_next(
    node: Seq<char>,
    request_id: Seq<char>,
    inputs: Seq<Json>,
    st: EndpointStageView,
    ev: EndpointEventView,
) -> (EndpointStageView, EndpointStepView) {
    match (st, ev) {
        (EndpointStageView::Begin, EndpointEventView::Start(None)) => refused_with(401),
        (EndpointStageView::Begin, EndpointEventView::Start(Some(h))) => (
            EndpointStageView::Lookup,
            EndpointStepView::LookupSession(bearer_session(h)),
        ),
        (EndpointStageView::Lookup, EndpointEventView::SessionFound(None)) => refused_with(401),
        (EndpointStageView::Lookup, EndpointEventView::SessionFound(Some(s))) => authorized_next(node, request_id, inputs, s),
        (EndpointStageView::Listing(rid, sub, ids, query), EndpointEventView::NodeReplied(reply)) => {
            let r = if query {
                fresh_response(rid, sub).with_intent(IntentView::Query(Seq::empty())).after_query_reply(reply)
            } else {
                fresh_response(rid, sub).with_intent(IntentView::Sync).after_sync_reply(reply)
            };
            report_then(node, rid, sub, ids, r.body())
        },
        (EndpointStageView::Executing(r, g, ts, k), EndpointEventView::NodeReplied(reply)) => if k < ts.len() {
            let (r1, g1) = crate::fulfillment::after_execute_reply(r, g, ts[k as int].0, reply);
            if k + 1 < ts.len() {
                (
                    EndpointStageView::Executing(r1, g1, ts, (k + 1) as nat),
                    EndpointStepView::PostExecution(ts[k + 1int].1, ts[k + 1int].2),
                )
            } else {
                report_then(node, r1.request_id, r1.agent_user_id, target_ids(ts), r1.with_command_status(g1).body())
            }
        } else {
            refused_with(500)
        },
        (EndpointStageView::Revoking(_), EndpointEventView::Invalidated(false)) => refused_with(500),
        (EndpointStageView::Revoking(Some(rt)), EndpointEventView::Invalidated(true)) => (
            EndpointStageView::RefreshRevoking,
            EndpointStepView::Invalidate(refresh_key(rt)),
        ),
        (EndpointStageView::RefreshRevoking, EndpointEventView::Invalidated(false)) => refused_with(500),
        (EndpointStageView::RefreshRevoking, EndpointEventView::Invalidated(true)) => (
            EndpointStageView::Done,
            EndpointStepView::Answer(Json::Object(Seq::empty())),
        ),
        (EndpointStageView::Reporting(body), EndpointEventView::Reported) => (
            EndpointStageView::Done,
            EndpointStepView::Answer(body),
        ),
        _ => refused_with(500),
    }
}


/// A copy of a list of texts.
fn copy_strings(v: &Vec<String>) -> (r: Vec<String>)
    ensures
        strings_view(r@) == strings_view(v@),
{
    let mut r: Vec<String> = Vec::new();
    let mut i: usize = 0;
    while i < v.len()
        invariant
            i <= v.len(),
            strings_view(r@) == strings_view(v@).take(i as int),
        decreases v.len() - i,
    {
        let ghost before = strings_view(r@);
        r.push(v[i].clone());
        assert(strings_view(r@) =~= before.push(strings_view(v@)[i as int]));
        assert(strings_view(v@).take(i + 1) =~= strings_view(v@).take(i as int).push(strings_view(v@)[i as int]));
        i = i + 1;
    }
    assert(strings_view(v@).take(i as int) =~= strings_view(v@));
    r
}

/// The devices an EXECUTE intent's commands are forwarded to, as
/// [`execute_targets`] says.
pub fn execute_plan(node: &str, commands: &Vec<crate::fulfillment::Command>) -> (ts: Vec<Target>)
    ensures
        targets_view(ts@) == execute_targets(node@, crate::fulfillment::commands_view(commands@)),
{
    let ghost cv = crate::fulfillment::commands_view(commands@);
    let mut ts: Vec<Target> = Vec::new();
    let mut i: usize = 0;
    assert(cv.take(0) =~= Seq::<CommandView>::empty());
    assert(targets_view(ts@) =~= Seq::<(Seq<char>, Seq<char>, Seq<Json>)>::empty());
    while i < commands.len()
        invariant
            i <= commands.len(),
            cv == crate::fulfillment::commands_view(commands@),
            targets_view(ts@) == execute_targets(node@, cv.take(i as int)),
        decreases commands.len() - i,
    {
        let c = &commands[i];
        let ids = c.get_devices();
        let ghost dv = c@.devices;
        let ghost ev = c@.execution;
        let ghost base = targets_view(ts@);
        let mut j: usize = 0;
        assert(dv.take(0) =~= Seq::<Json>::empty());
        assert(base + command_targets(node@, dv.take(0), ev) =~= base);
        while j < ids.len()
            invariant
                j <= ids.len(),
                ids@.len() == dv.len(),
                dv == c@.devices,
                ev == c@.execution,
                forall|k: int| 0 <= k < ids@.len() ==> #[trigger] ids@[k]@ == device_entry_id(dv[k]),
                targets_view(ts@) == base + command_targets(node@, dv.take(j as int), ev),
            decreases ids.len() - j,
        {
            assert(dv.take(j + 1).drop_last() =~= dv.take(j as int));
            assert(dv.take(j + 1).last() == dv[j as int]);
            assert(ids@[j as int]@ == device_entry_id(dv[j as int]));
            match node_endpoint(node, ids[j].as_str()) {
                Some(url) => {
                    let ghost before = targets_view(ts@);
                    let t = Target { id: ids[j].clone(), url, execution: crate::fulfillment::copy_values(&c.execution) };
                    ts.push(t);
                    assert(targets_view(ts@) =~= before.push(target_view(t)));
                    assert(base + command_targets(node@, dv.take(j + 1), ev) =~= (base + command_targets(
                        node@,
                        dv.take(j as int),
                        ev,
                    )).push(target_view(t)));
                },
                None => {},
            }
            j = j + 1;
        }
        assert(dv.take(j as int) =~= dv);
        assert(cv.take(i + 1).drop_last() =~= cv.take(i as int));
        assert(cv.take(i + 1).last() == c@);
        i = i + 1;
    }
    assert(cv.take(i as int) =~= cv);
    ts
}

/// The report step, as [`report_then`] says.
fn report_step(node: &str, request_id: String, sub: String, ids: Vec<String>, body: JsonValue) -> (r: (
    EndpointStage,
    EndpointStep,
))
    ensures
        (r.0.view(), r.1.view()) == report_then(node@, request_id@, sub@, strings_view(ids@), body@),
{
    proof {
        reveal_strlit("report_state");
    }
    let url = node_endpoint(node, "report_state");
    (EndpointStage::Reporting { body }, EndpointStep::Report(url, request_id, sub, ids))
}

/// Stop with this status.
fn refuse_with(status: u16) -> (r: (EndpointStage, EndpointStep))
    ensures
        (r.0.view(), r.1.view()) == refused_with(status),
{
    (EndpointStage::Done, EndpointStep::Refuse(status))
}

/// The step after a session was found, as [`authorized_next`] says.
fn authorized_step(node: &str, request: &Request, s: Session) -> (r: (EndpointStage, EndpointStep))
    ensures
        (r.0.view(), r.1.view()) == authorized_next(node@, request.request_id@, json::elements_view(request.inputs@), s@),
{
    let sub = match session_subject(s.id_token.as_str()) {
        Some(sub) => sub,
        None => return refuse_with(401),
    };
    if request.inputs.len() == 0 {
        return refuse_with(500);
    }
    let ghost inputs = json::elements_view(request.inputs@);
    assert(inputs[0] == request.inputs@[0]@);
    let request_id = request.get_request_id();
    match Request::parse_intent(&request.inputs[0]) {
        Some(Intent::Sync) => {
            let listing = device_listing(node);
            let ids: Vec<String> = Vec::new();
            let asked: Vec<String> = Vec::new();
            assert(strings_view(ids@) =~= Seq::<Seq<char>>::empty());
            assert(strings_view(asked@) =~= Seq::<Seq<char>>::empty());
            (EndpointStage::Listing { request_id, sub, ids, query: false }, EndpointStep::GetDevices(listing, asked))
        },
        Some(Intent::Query(devices)) => {
            let ids = query_device_ids(&devices);
            let listing = device_listing(node);
            let copy = copy_strings(&ids);
            (EndpointStage::Listing { request_id, sub, ids, query: true }, EndpointStep::GetDevices(listing, copy))
        },
        Some(Intent::Execute(commands)) => {
            let none: Vec<crate::fulfillment::Command> = Vec::new();
            assert(crate::fulfillment::commands_view(none@) =~= Seq::<CommandView>::empty());
            let response = Response::new(request_id, sub).set_intent(Intent::Execute(none));
            let targets = execute_plan(node, &commands);
            if targets.len() == 0 {
                let rid = response.request_id.clone();
                let agent = response.agent_user_id.clone();
                let no_groups: Vec<(JsonValue, Vec<String>)> = Vec::new();
                assert(groups_view(no_groups@) =~= Seq::<(Json, Seq<Seq<char>>)>::empty());
                let body = response.add_command_status(no_groups).build();
                let ids: Vec<String> = Vec::new();
                assert(strings_view(ids@) =~= Seq::<Seq<char>>::empty());
                return report_step(node, rid, agent, ids, body);
            }
            let url = targets[0].url.clone();
            let execution = crate::fulfillment::copy_values(&targets[0].execution);
            let groups: Vec<(JsonValue, Vec<String>)> = Vec::new();
            assert(groups_view(groups@) =~= Seq::<(Json, Seq<Seq<char>>)>::empty());
            (EndpointStage::Executing { response, groups, targets, next: 0 }, EndpointStep::PostExecution(url, execution))
        },
        Some(Intent::Disconnect) => {
            let key = access_session_id(s.access_token.as_str());
            (EndpointStage::Revoking { refresh_token: s.refresh_token }, EndpointStep::Invalidate(key))
        },
        None => {
            let rid = request.get_request_id();
            let agent = sub.clone();
            let body = Response::new(request_id, sub).error_payload(String::new()).build();
            let ids: Vec<String> = Vec::new();
            assert(strings_view(ids@) =~= Seq::<Seq<char>>::empty());
            report_step(node, rid, agent, ids, body)
        },
    }
}


/// The next stage and step of a fulfillment request, as [`endpoint_next`]
/// says. A DISCONNECT for a session without a refresh token cannot go on
/// once its access-token session is ended; that event is left out.
pub fn endpoint_step(node: &str, request: &Request, st: EndpointStage, ev: EndpointEvent) -> (r: (EndpointStage, EndpointStep))
    requires
        !(st.view() == EndpointStageView::Revoking(None) && ev.view() == EndpointEventView::Invalidated(true)),
    ensures
        (r.0.view(), r.1.view()) == endpoint_next(
            node@,
            request.request_id@,
            json::elements_view(request.inputs@),
            st.view(),
            ev.view(),
        ),
{
    match st {
        EndpointStage::Begin => match ev {
            EndpointEvent::Start(Some(h)) => (EndpointStage::Lookup, EndpointStep::LookupSession(bearer_session_id(h.as_str()))),
            EndpointEvent::Start(None) => refuse_with(401),
            _ => refuse_with(500),
        },
        EndpointStage::Lookup => match ev {
            EndpointEvent::SessionFound(Some(s)) => authorized_step(node, request, s),
            EndpointEvent::SessionFound(None) => refuse_with(401),
            _ => refuse_with(500),
        },
        EndpointStage::Listing { request_id, sub, ids, query } => match ev {
            EndpointEvent::NodeReplied(reply) => {
                let rid = request_id.clone();
                let agent = sub.clone();
                let body = if query {
                    let none: Vec<JsonValue> = Vec::new();
                    assert(json::elements_view(none@) =~= Seq::<Json>::empty());
                    Response::new(request_id, sub).set_intent(Intent::Query(none)).apply_query_reply(reply).build()
                } else {
                    Response::new(request_id, sub).set_intent(Intent::Sync).apply_sync_reply(reply).build()
                };
                report_step(node, rid, agent, ids, body)
            },
            _ => refuse_with(500),
        },
        EndpointStage::Executing { response, mut groups, targets, next } => match ev {
            EndpointEvent::NodeReplied(reply) => {
                if next >= targets.len() {
                    return refuse_with(500);
                }
                let ghost tv = targets_view(targets@);
                assert(tv[next as int] == target_view(targets@[next as int]));
                let id = targets[next].id.clone();
                let response = response.apply_execute_reply(&mut groups, id, reply);
                if next + 1 < targets.len() {
                    assert(tv[next + 1] == target_view(targets@[next + 1]));
                    let url = targets[next + 1].url.clone();
                    let execution = crate::fulfillment::copy_values(&targets[next + 1].execution);
                    (
                        EndpointStage::Executing { response, groups, targets, next: next + 1 },
                        EndpointStep::PostExecution(url, execution),
                    )
                } else {
                    let mut ids: Vec<String> = Vec::new();
                    let mut i: usize = 0;
                    while i < targets.len()
                        invariant
                            i <= targets.len(),
                            tv == targets_view(targets@),
                            strings_view(ids@) == target_ids(tv).take(i as int),
                        decreases targets.len() - i,
                    {
                        let ghost before = strings_view(ids@);
                        assert(tv[i as int] == target_view(targets@[i as int]));
                        ids.push(targets[i].id.clone());
                        assert(strings_view(ids@) =~= before.push(target_ids(tv)[i as int]));
                        assert(target_ids(tv).take(i + 1) =~= target_ids(tv).take(i as int).push(target_ids(tv)[i as int]));
                        i = i + 1;
                    }
                    assert(target_ids(tv).take(i as int) =~= target_ids(tv));
                    let rid = response.request_id.clone();
                    let agent = response.agent_user_id.clone();
                    let body = response.add_command_status(groups).build();
                    report_step(node, rid, agent, ids, body)
                }
            },
            _ => refuse_with(500),
        },
        EndpointStage::Revoking { refresh_token } => match ev {
            EndpointEvent::Invalidated(true) => match refresh_token {
                Some(rt) => (EndpointStage::RefreshRevoking, EndpointStep::Invalidate(refresh_session_id(rt.as_str()))),
                None => refuse_with(500),
            },
            EndpointEvent::Invalidated(false) => refuse_with(500),
            _ => refuse_with(500),
        },
        EndpointStage::RefreshRevoking => match ev {
            EndpointEvent::Invalidated(true) => (EndpointStage::Done, EndpointStep::Answer(empty_object())),
            EndpointEvent::Invalidated(false) => refuse_with(500),
            _ => refuse_with(500),
        },
        EndpointStage::Reporting { body } => match ev {
            EndpointEvent::Reported => (EndpointStage::Done, EndpointStep::Answer(body)),
            _ => refuse_with(500),
        },
        EndpointStage::Done => refuse_with(500),
    }
}


/// The stage a fulfillment request reaches after the first `k` events of
/// `evs`, starting from [`EndpointStageView::Begin`].
pub open spec fn endpoint_stage_after(
    node: Seq<char>,
    request_id: Seq<char>,
    inputs: Seq<Json>,
    evs: Seq<EndpointEventView>,
    k: nat,
) -> EndpointStageView
    decreases k,
{
    if k == 0 {
        EndpointStageView::Begin
    } else {
        endpoint_next(
            node,
            request_id,
            inputs,
            endpoint_stage_after(node, request_id, inputs, evs, (k - 1) as nat),
            evs[k - 1],
        ).0
    }
}

/// The step a fulfillment request takes on the event `evs[k]`.
pub open spec fn endpoint_step_at(
    node: Seq<char>,
    request_id: Seq<char>,
    inputs: Seq<Json>,
    evs: Seq<EndpointEventView>,
    k: nat,
) -> EndpointStepView {
    endpoint_next(node, request_id, inputs, endpoint_stage_after(node, request_id, inputs, evs, k), evs[k as int]).1
}

/// Whether the event brings a session whose ID token decodes.
pub open spec fn session_accepted(ev: EndpointEventView) -> bool {
    ev matches EndpointEventView::SessionFound(Some(s)) && jwt_unverified(s.id_token) is Some
}

/// Whether a step sends something to the node or to the cache on the
/// user's behalf.
pub open spec fn acts_for_user(step: EndpointStepView) -> bool {
    ||| step is GetDevices
    ||| step is PostExecution
    ||| step is Report
    ||| step is Invalidate
    ||| step is Answer
}

/// Stages reached only on behalf of an accepted session.
pub open spec fn authorized_stage(st: EndpointStageView) -> bool {
    ||| st is Listing
    ||| st is Executing
    ||| st is Revoking
    ||| st is RefreshRevoking
    ||| st is Reporting
}

proof fn lemma_endpoint_authorized_step(
    node: Seq<char>,
    request_id: Seq<char>,
    inputs: Seq<Json>,
    st: EndpointStageView,
    ev: EndpointEventView,
)
    ensures
        (authorized_stage(endpoint_next(node, request_id, inputs, st, ev).0) || acts_for_user(
            endpoint_next(node, request_id, inputs, st, ev).1,
        )) ==> authorized_stage(st) || (st == EndpointStageView::Lookup && session_accepted(ev)),
{
}

proof fn lemma_endpoint_authorized_run(
    node: Seq<char>,
    request_id: Seq<char>,
    inputs: Seq<Json>,
    evs: Seq<EndpointEventView>,
    k: nat,
)
    requires
        k <= evs.len(),
        authorized_stage(endpoint_stage_after(node, request_id, inputs, evs, k)),
    ensures
        exists|j: nat|
            j < k && endpoint_stage_after(node, request_id, inputs, evs, j) == EndpointStageView::Lookup
                && #[trigger] session_accepted(evs[j as int]),
    decreases k,
{
    let prev = endpoint_stage_after(node, request_id, inputs, evs, (k - 1) as nat);
    lemma_endpoint_authorized_step(node, request_id, inputs, prev, evs[k - 1]);
    if authorized_stage(prev) {
        lemma_endpoint_authorized_run(node, request_id, inputs, evs, (k - 1) as nat);
    } else {
        assert(session_accepted(evs[(k - 1) as int]));
    }
}

/// Nothing is done on a user's behalf unless the request's bearer session
/// was found and its ID token decodes: in any run of a fulfillment request,
/// a step that reads the node's devices, posts to a device, asks the node
/// to report state, ends a session or answers 200 comes at or after the
/// event that brought such a session, received while the session was being
/// looked up.
pub proof fn lemma_endpoint_acts_only_when_authorized(
    node: Seq<char>,
    request_id: Seq<char>,
    inputs: Seq<Json>,
    evs: Seq<EndpointEventView>,
    k: nat,
)
    requires
        k < evs.len(),
        acts_for_user(endpoint_step_at(node, request_id, inputs, evs, k)),
    ensures
        exists|j: nat|
            j <= k && endpoint_stage_after(node, request_id, inputs, evs, j) == EndpointStageView::Lookup
                && #[trigger] session_accepted(evs[j as int]),
{
    let st = endpoint_stage_after(node, request_id, inputs, evs, k);
    lemma_endpoint_authorized_step(node, request_id, inputs, st, evs[k as int]);
    if authorized_stage(st) {
        lemma_endpoint_authorized_run(node, request_id, inputs, evs, k);
    } else {
        assert(session_accepted(evs[k as int]));
    }
}

/// A request without a readable `Authorization` header, or whose bearer
/// session is not found or carries an ID token that does not decode, is
/// answered 401 at once.
pub proof fn lemma_endpoint_refuses_strangers(
    node: Seq<char>,
    request_id: Seq<char>,
    inputs: Seq<Json>,
    s: SessionView,
)
    ensures
        endpoint_next(node, request_id, inputs, EndpointStageView::Begin, EndpointEventView::Start(None))
            == refused_with(401),
        endpoint_next(node, request_id, inputs, EndpointStageView::Lookup, EndpointEventView::SessionFound(None))
            == refused_with(401),
        jwt_unverified(s.id_token) is None ==> endpoint_next(
            node,
            request_id,
            inputs,
            EndpointStageView::Lookup,
            EndpointEventView::SessionFound(Some(s)),
        ) == refused_with(401),
{
}

} // verus!
