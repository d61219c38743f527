use base64::engine::general_purpose::URL_SAFE_NO_PAD;
use base64::Engine;
use envtrackernode::endpoint::{endpoint_step, execute_plan, EndpointEvent, EndpointStage, EndpointStep, Session};
use envtrackernode::fulfillment::{Command, NodeReply, Request};
use envtrackernode::json::{JsonNumber, JsonValue};

const NODE: &str = "http://node:3000/google_home/device/";

fn object(members: Vec<(&str, JsonValue)>) -> JsonValue {
    JsonValue::Object(members.into_iter().map(|(k, v)| (k.to_string(), v)).collect())
}

fn text(s: &str) -> JsonValue {
    JsonValue::String(s.to_string())
}

fn token(sub: &str) -> String {
    let claims = format!(r#"{{"sub":"{sub}","iss":"x","aud":"a","exp":1,"iat":1}}"#);
    format!("{}.{}.c2ln", URL_SAFE_NO_PAD.encode(r#"{"alg":"RS256"}"#), URL_SAFE_NO_PAD.encode(claims))
}

fn session(id_token: String) -> Session {
    Session { id_token, access_token: "acc".to_string(), refresh_token: Some("ref".to_string()) }
}

fn request(intent: JsonValue) -> Request {
    Request { request_id: "r1".to_string(), inputs: vec![intent] }
}

fn step(req: &Request, st: EndpointStage, ev: EndpointEvent) -> (EndpointStage, EndpointStep) {
    endpoint_step(NODE, req, st, ev)
}

/// Runs the request up to the session lookup with a session for `sub`.
fn authorized(req: &Request, id_token: String) -> (EndpointStage, EndpointStep) {
    let (st, s) = step(req, EndpointStage::Begin, EndpointEvent::Start(Some("Bearer acc".to_string())));
    match s {
        EndpointStep::LookupSession(k) => assert_eq!(k, "google_home_auth_token|acc"),
        _ => panic!("expected a session lookup"),
    }
    step(req, st, EndpointEvent::SessionFound(Some(session(id_token))))
}

#[test]
fn request_without_authorization_is_refused() {
    let req = request(object(vec![("intent", text("action.devices.SYNC"))]));
    assert!(matches!(step(&req, EndpointStage::Begin, EndpointEvent::Start(None)).1, EndpointStep::Refuse(401)));
    assert!(matches!(step(&req, EndpointStage::Lookup, EndpointEvent::SessionFound(None)).1, EndpointStep::Refuse(401)));
    assert!(matches!(authorized(&req, "garbage".to_string()).1, EndpointStep::Refuse(401)));
}

#[test]
fn request_without_inputs_fails() {
    let req = Request { request_id: "r1".to_string(), inputs: vec![] };
    assert!(matches!(authorized(&req, token("u1")).1, EndpointStep::Refuse(500)));
}

#[test]
fn sync_reads_the_listing_then_reports() {
    let req = request(object(vec![("intent", text("action.devices.SYNC"))]));
    let (st, s) = authorized(&req, token("u1"));
    match s {
        EndpointStep::GetDevices(url, ids) => {
            assert_eq!(url.as_deref(), Some("http://node:3000/google_home/device"));
            assert!(ids.is_empty());
        }
        _ => panic!("expected a listing request"),
    }
    let reply = NodeReply::Answered {
        status: 200,
        body: Some(JsonValue::Array(vec![object(vec![("id", text("lamp"))])])),
    };
    let (st, s) = step(&req, st, EndpointEvent::NodeReplied(reply));
    match s {
        EndpointStep::Report(url, rid, agent, ids) => {
            assert_eq!(url.as_deref(), Some("http://node:3000/google_home/device/report_state"));
            assert_eq!((rid.as_str(), agent.as_str()), ("r1", "u1"));
            assert!(ids.is_empty());
        }
        _ => panic!("expected a report"),
    }
    match step(&req, st, EndpointEvent::Reported).1 {
        EndpointStep::Answer(JsonValue::Object(m)) => assert_eq!(m[0].0, "requestId"),
        _ => panic!("expected an answer"),
    }
}

#[test]
fn execute_posts_to_each_device_in_turn() {
    let execution = JsonValue::Array(vec![object(vec![("command", text("action.devices.commands.OnOff"))])]);
    let command = object(vec![
        ("devices", JsonValue::Array(vec![object(vec![("id", text("a"))]), object(vec![("id", text("b"))])])),
        ("execution", execution),
    ]);
    let intent = object(vec![
        ("intent", text("action.devices.EXECUTE")),
        ("payload", object(vec![("commands", JsonValue::Array(vec![command]))])),
    ]);
    let req = request(intent);
    let (st, s) = authorized(&req, token("u1"));
    match s {
        EndpointStep::PostExecution(url, e) => {
            assert_eq!(url, "http://node:3000/google_home/device/a");
            assert_eq!(e.len(), 1);
        }
        _ => panic!("expected a post"),
    }
    let ok = || NodeReply::Answered { status: 200, body: Some(object(vec![("on", JsonValue::Bool(true))])) };
    let (st, s) = step(&req, st, EndpointEvent::NodeReplied(ok()));
    match s {
        EndpointStep::PostExecution(url, _) => assert_eq!(url, "http://node:3000/google_home/device/b"),
        _ => panic!("expected a second post"),
    }
    let (_, s) = step(&req, st, EndpointEvent::NodeReplied(ok()));
    match s {
        EndpointStep::Report(_, _, _, ids) => assert_eq!(ids, vec!["a".to_string(), "b".to_string()]),
        _ => panic!("expected a report"),
    }
}

#[test]
fn disconnect_ends_both_sessions() {
    let req = request(object(vec![("intent", text("action.devices.DISCONNECT"))]));
    let (st, s) = authorized(&req, token("u1"));
    assert!(matches!(&s, EndpointStep::Invalidate(k) if k == "google_home_auth_token|acc"));
    let (st, s) = step(&req, st, EndpointEvent::Invalidated(true));
    assert!(matches!(&s, EndpointStep::Invalidate(k) if k == "google_home_refresh_token|ref"));
    assert!(matches!(step(&req, st, EndpointEvent::Invalidated(true)).1, EndpointStep::Answer(JsonValue::Object(m)) if m.is_empty()));
    let (st, _) = authorized(&req, token("u1"));
    assert!(matches!(step(&req, st, EndpointEvent::Invalidated(false)).1, EndpointStep::Refuse(500)));
}

#[test]
fn unreadable_intent_reports_an_empty_error() {
    let req = request(object(vec![("intent", text("action.devices.UNKNOWN"))]));
    assert!(matches!(authorized(&req, token("u1")).1, EndpointStep::Report(..)));
}

#[test]
fn execute_plan_skips_nothing_that_resolves() {
    let c = Command {
        devices: vec![object(vec![("id", text("x"))]), JsonValue::Number(JsonNumber::PosInt(1))],
        execution: vec![],
    };
    let ts = execute_plan(NODE, &vec![c]);
    let ids: Vec<&str> = ts.iter().map(|t| t.id.as_str()).collect();
    assert_eq!(ids, vec!["x", ""]);
    assert_eq!(ts[1].url, NODE);
}
