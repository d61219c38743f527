use envtrackernode::fulfillment::Intent;
use envtrackernode::json::{JsonNumber, JsonValue};
use envtrackernode::report_state::{empty_report_body, report_state_request};

fn s(x: &str) -> JsonValue {
    JsonValue::String(x.to_string())
}

fn obj(m: Vec<(&str, JsonValue)>) -> JsonValue {
    JsonValue::Object(m.into_iter().map(|(k, v)| (k.to_string(), v)).collect())
}

fn render(v: &JsonValue) -> String {
    match v {
        JsonValue::Null => "null".to_string(),
        JsonValue::Bool(b) => b.to_string(),
        JsonValue::Number(JsonNumber::PosInt(n)) => n.to_string(),
        JsonValue::Number(JsonNumber::NegInt(n)) => n.to_string(),
        JsonValue::Number(JsonNumber::Float(t)) => t.clone(),
        JsonValue::String(t) => format!("{t:?}"),
        JsonValue::Array(a) => format!("[{}]", a.iter().map(render).collect::<Vec<_>>().join(",")),
        JsonValue::Object(m) => {
            format!("{{{}}}", m.iter().map(|(k, v)| format!("{k:?}:{}", render(v))).collect::<Vec<_>>().join(","))
        }
    }
}

#[test]
fn sync_needs_no_report() {
    let r = report_state_request("r".to_string(), "a".to_string(), &Some(Intent::Sync), &JsonValue::Null);
    assert!(matches!(r, Ok(None)));
    let r = report_state_request("r".to_string(), "a".to_string(), &None, &JsonValue::Null);
    assert!(matches!(r, Ok(None)));
}

#[test]
fn query_report_drops_the_status() {
    let payload = obj(vec![(
        "devices",
        obj(vec![
            ("lamp", obj(vec![("status", s("SUCCESS")), ("on", JsonValue::Bool(true))])),
            ("junk", s("not an object")),
        ]),
    )]);
    match report_state_request("r1".to_string(), "agent".to_string(), &Some(Intent::Query(vec![])), &payload) {
        Ok(Some(body)) => assert_eq!(
            render(&body),
            r#"{"requestId":"r1","agentUserId":"agent","payload":{"devices":{"states":{"lamp":{"on":true}},"notifications":{}}}}"#
        ),
        _ => panic!("expected a report"),
    }
}

#[test]
fn query_report_of_a_malformed_payload_is_an_error() {
    match report_state_request("r".to_string(), "a".to_string(), &Some(Intent::Query(vec![])), &JsonValue::Null) {
        Err(e) => assert_eq!(e.message(), "Query - Mismatched payload type"),
        Ok(_) => panic!("expected an error"),
    }
}

#[test]
fn execute_report_gives_each_device_its_state() {
    let payload = obj(vec![(
        "commands",
        JsonValue::Array(vec![obj(vec![
            ("ids", JsonValue::Array(vec![s("p1"), s("p2")])),
            ("status", s("SUCCESS")),
            ("states", obj(vec![("on", JsonValue::Bool(false)), ("status", s("SUCCESS"))])),
        ])]),
    )]);
    match report_state_request("r2".to_string(), "agent".to_string(), &Some(Intent::Execute(vec![])), &payload) {
        Ok(Some(body)) => assert_eq!(
            render(&body),
            r#"{"requestId":"r2","agentUserId":"agent","payload":{"devices":{"states":{"p1":{"on":false},"p2":{"on":false}},"notifications":{}}}}"#
        ),
        _ => panic!("expected a report"),
    }
}

#[test]
fn execute_report_of_a_malformed_payload_is_an_error() {
    let payload = obj(vec![("commands", s("none"))]);
    match report_state_request("r".to_string(), "a".to_string(), &Some(Intent::Execute(vec![])), &payload) {
        Err(e) => assert_eq!(e.message(), "Execute - Mismatched payload type"),
        Ok(_) => panic!("expected an error"),
    }
}

#[test]
fn empty_report_has_no_states() {
    assert_eq!(
        render(&empty_report_body("r".to_string(), "a".to_string())),
        r#"{"requestId":"r","agentUserId":"a","payload":{"devices":{"states":{},"notifications":{}}}}"#
    );
}
