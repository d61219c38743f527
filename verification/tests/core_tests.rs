use envtrackernode::db::{create_kasa_table_statement, cv_key, push_kasa_data, session_key, Column, DeviceQuery, Order};
use envtrackernode::devices::{
    alternate_port_uri, basic_event_url, retry_port, device_info_url, device_request, plug_attempt, toggled_port, DLight,
    DeviceRequest, PlugAnswer, PlugStep, PortRetry,
};
use envtrackernode::error::NodeError;
use envtrackernode::frontend::{is_html, UpdateBaseUrilHtmlLayer};
use envtrackernode::fulfillment::{bearer_session_id, device_listing, listing_path, node_endpoint, Intent, Response};
use envtrackernode::json::{get_member, insert_member, remove_member, JsonNumber, JsonValue};
use envtrackernode::kasa::{batch_query, json_array_of, kasa_api_route, EMeter, KasaChildInfo, KasaDeviceChild};
use envtrackernode::report_state::request_sync_value;

/// Writes a JSON value as compact text, for comparisons.
fn render(v: &JsonValue) -> String {
    match v {
        JsonValue::Null => "null".to_string(),
        JsonValue::Bool(b) => b.to_string(),
        JsonValue::Number(JsonNumber::PosInt(n)) => n.to_string(),
        JsonValue::Number(JsonNumber::NegInt(n)) => n.to_string(),
        JsonValue::Number(JsonNumber::Float(s)) => s.clone(),
        JsonValue::String(s) => format!("{s:?}"),
        JsonValue::Array(a) => format!("[{}]", a.iter().map(render).collect::<Vec<_>>().join(",")),
        JsonValue::Object(m) => format!(
            "{{{}}}",
            m.iter().map(|(k, v)| format!("{k:?}:{}", render(v))).collect::<Vec<_>>().join(",")
        ),
    }
}

#[test]
fn node_error_keeps_its_message() {
    assert_eq!(NodeError::new("boom").message(), "boom");
}

#[test]
fn json_member_read_after_write() {
    let mut m: Vec<(String, JsonValue)> = vec![("a".to_string(), JsonValue::Bool(true))];
    insert_member(&mut m, "b".to_string(), JsonValue::Null);
    insert_member(&mut m, "a".to_string(), JsonValue::Bool(false));
    assert!(matches!(get_member(&m, "a"), Some(JsonValue::Bool(false))));
    assert!(matches!(get_member(&m, "b"), Some(JsonValue::Null)));
    assert_eq!(m.len(), 2);
}

#[test]
fn json_member_gone_after_remove() {
    let mut m: Vec<(String, JsonValue)> = vec![
        ("a".to_string(), JsonValue::Bool(true)),
        ("b".to_string(), JsonValue::Bool(false)),
    ];
    remove_member(&mut m, "a");
    assert!(get_member(&m, "a").is_none());
    assert!(matches!(get_member(&m, "b"), Some(JsonValue::Bool(false))));
}

#[test]
fn response_keeps_the_first_intent() {
    let r = Response::new("r1".to_string(), "agent".to_string())
        .set_intent(Intent::Sync)
        .set_intent(Intent::Disconnect);
    assert!(matches!(r.handling_intent, Some(Intent::Sync)));
}

#[test]
fn response_without_payload_reports_transient_error() {
    let body = Response::new("r1".to_string(), "agent".to_string()).build();
    assert_eq!(
        render(&body),
        r#"{"requestId":"r1","payload":{"errorCode":"transientError","status":"ERROR"}}"#
    );
}

#[test]
fn response_error_payload_defaults_to_not_supported() {
    let body = Response::new("r1".to_string(), "agent".to_string()).error_payload(String::new()).build();
    assert_eq!(render(&body), r#"{"requestId":"r1","payload":{"errorCode":"notSupported","status":"ERROR"}}"#);
}

#[test]
fn request_sync_body_names_the_agent() {
    assert_eq!(render(&request_sync_value("agent-7".to_string())), r#"{"agentUserId":"agent-7"}"#);
}

#[test]
fn cache_keys_have_distinct_prefixes() {
    assert_eq!(cv_key("s1"), "cv:s1");
    assert_eq!(session_key("s1"), "session:s1");
    assert_ne!(cv_key("x"), session_key("x"));
}

fn query() -> DeviceQuery {
    DeviceQuery {
        start_time_ns: None,
        end_time_ns: None,
        alias: None,
        id: None,
        distinct: None,
        order_by: None,
        column: None,
        limit: None,
    }
}

#[test]
fn generate_query_defaults_to_the_default_limit() {
    let (q, args) = query().generate_query(&"kasa_device_strip".to_string());
    assert_eq!(q, "SELECT * FROM kasa_device_strip LIMIT 100");
    assert_eq!((args.0.as_str(), args.1.as_str(), args.2, args.3), ("", "", 0, 0));
}

#[test]
fn generate_query_joins_conditions_with_and() {
    let mut dq = query();
    dq.alias = Some("Desk".to_string());
    dq.start_time_ns = Some(5);
    dq.order_by = Some(Order::desc);
    dq.column = Some(Column::utc_ns);
    dq.limit = Some(0);
    let (q, args) = dq.generate_query(&"t".to_string());
    assert_eq!(q, "SELECT * FROM t WHERE  alias = ?1 and utc_ns >= ?3 ORDER BY utc_ns DESC");
    assert_eq!((args.0.as_str(), args.1.as_str(), args.2, args.3), ("Desk", "", 5, 0));
}

#[test]
fn generate_query_for_distinct_ids() {
    let mut dq = query();
    dq.distinct = Some(String::new());
    dq.column = Some(Column::id);
    let (q, _) = dq.generate_query(&"t".to_string());
    assert_eq!(q, "SELECT DISTINCT(id), alias FROM t");
}

fn reading(t: i64, alias: &str) -> KasaChildInfo {
    KasaChildInfo {
        utc_ns: t,
        info: KasaDeviceChild { alias: alias.to_string(), id: "id1".to_string(), state: true },
        emeter: EMeter { current_ma: 1, power_mw: 2, voltage_mv: 3, total_wh: 4 },
    }
}

#[test]
fn push_without_lock_is_an_error() {
    let data = vec![vec![reading(1, "a")]];
    match push_kasa_data(false, &"strip".to_string(), &data) {
        Err(e) => assert_eq!(e.message(), "db write guard not secured."),
        Ok(_) => panic!("expected error"),
    }
}

#[test]
fn push_builds_one_insert_for_all_batches() {
    let data = vec![vec![reading(1, "a")], vec![], vec![reading(-2, "b")]];
    match push_kasa_data(true, &"strip".to_string(), &data) {
        Ok(Some(st)) => assert_eq!(
            st,
            "INSERT INTO kasa_device_strip (utc_ns, alias, id, current_ma, power_mw, voltage_mv, total_wh) VALUES (1, \"a\", \"id1\", 1, 2, 3, 4),(-2, \"b\", \"id1\", 1, 2, 3, 4);"
        ),
        _ => panic!("expected a statement"),
    }
    assert!(matches!(push_kasa_data(true, &"strip".to_string(), &vec![vec![]]), Ok(None)));
}

#[test]
fn kasa_table_statement_names_the_topic() {
    assert!(create_kasa_table_statement("strip").starts_with("CREATE TABLE IF NOT EXISTS kasa_device_strip ("));
}

#[test]
fn kasa_routes_and_arrays() {
    assert_eq!(kasa_api_route("strip"), "/api/kasa/strip");
    assert_eq!(json_array_of(&vec!["1".to_string(), "{}".to_string()]), "[1,{}]");
    assert_eq!(json_array_of(&vec![]), "[]");
}

#[test]
fn port_toggle_returns_to_the_first_port() {
    assert_eq!(toggled_port(49153), 49154);
    assert_eq!(toggled_port(49154), 49153);
    assert_eq!(toggled_port(toggled_port(8080)), 8080);
}

#[test]
fn plug_retry_moves_to_the_other_port() {
    assert!(matches!(alternate_port_uri("http://10.0.0.5:49153/"), PortRetry::Use(u) if u == "http://10.0.0.5:49154/"));
    assert!(matches!(alternate_port_uri("http://10.0.0.5:49154/setup.xml"), PortRetry::Use(u) if u == "http://10.0.0.5:49153/setup.xml"));
    assert!(matches!(alternate_port_uri("http://10.0.0.5/"), PortRetry::NoPort));
    assert!(matches!(alternate_port_uri("http://10.0.0.5:65535/"), PortRetry::Keep));
}

#[test]
fn plug_service_urls_replace_the_path() {
    assert_eq!(basic_event_url("http://10.0.0.5:49153/setup.xml").as_deref(), Some("http://10.0.0.5:49153/upnp/control/basicevent1"));
    assert_eq!(device_info_url("http://10.0.0.5:49153/").as_deref(), Some("http://10.0.0.5:49153/upnp/control/deviceinfo1"));
    assert_eq!(basic_event_url("not a url"), None);
}

#[test]
fn plug_attempts_run_out() {
    let mut count = 1;
    assert!(matches!(plug_attempt(&mut count, PlugAnswer::SendFailed), PlugStep::Retry));
    assert!(matches!(plug_attempt(&mut count, PlugAnswer::Malformed), PlugStep::GiveUp(PlugAnswer::Malformed)));
    let mut count = 0;
    assert!(matches!(plug_attempt(&mut count, PlugAnswer::State(true)), PlugStep::Done(true)));
}

#[test]
fn device_request_reads_query_then_path() {
    let q = vec![
        ("device_ids".to_string(), "a".to_string()),
        ("other".to_string(), "x".to_string()),
        ("device_ids".to_string(), "b".to_string()),
    ];
    match device_request(Some(&q), None) {
        DeviceRequest::QueryMany(ids) => assert_eq!(ids, vec!["a".to_string(), "b".to_string()]),
        _ => panic!("expected QueryMany"),
    }
    let empty: Vec<(String, String)> = vec![];
    let d = "lamp".to_string();
    assert!(matches!(device_request(Some(&empty), Some(&d)), DeviceRequest::QueryOne(x) if x == "lamp"));
    assert!(matches!(device_request(None, None), DeviceRequest::SyncAll));
}

#[test]
fn lamp_query_value_reports_its_settings() {
    let lamp = DLight::base("uuid-1");
    assert_eq!(lamp.get_id(), "GLAMP_BASE_uuid-1");
    let v = lamp.get_query_value();
    assert!(render(&v).starts_with(r#"{"status":"SUCCESS","online":true,"on":"#));
}

#[test]
fn html_links_are_rewritten_under_the_base() {
    let svc = UpdateBaseUrilHtmlLayer::new("/base".to_string(), "http://api:1".to_string(), "/k".to_string()).layer(());
    let out = svc.rewrite_html("<link id=\"api\" href=\"/x\"><a href=\"/y\">");
    assert_eq!(out, "<link id=\"api\" href=\"http://api:1/x\"><a href=\"/base/y\">");
    let out = svc.rewrite_html("<link id=\"kasa_api\" href=\"/z\">");
    assert_eq!(out, "<link id=\"kasa_api\" href=\"/base/k/z\">");
    let out = svc.rewrite_html("<script data-event-stream=\"/_tower-livereload\"></script><p>'/w'</p>");
    assert_eq!(out, "<script data-event-stream=\"/base/_tower-livereload\"></script><p>'/base/w'</p>");
}

#[test]
fn html_links_without_a_base_only_get_their_servers() {
    let svc = UpdateBaseUrilHtmlLayer::new(String::new(), "http://api:1".to_string(), "http://kasa:2".to_string()).layer(());
    let page = "<link id=\"api\" href=\"/x\"><link id=\"kasa_api\" href=\"/y\"><a href=\"/z\">";
    assert_eq!(
        svc.rewrite_html(page),
        "<link id=\"api\" href=\"http://api:1/x\"><link id=\"kasa_api\" href=\"http://kasa:2/y\"><a href=\"/z\">"
    );
}

#[test]
fn html_body_needs_utf8() {
    let svc = UpdateBaseUrilHtmlLayer::new(String::new(), "A".to_string(), "K".to_string()).layer(());
    assert_eq!(svc.html_body(Some(vec![0xff, 0xfe])), None);
    assert_eq!(svc.html_body(None), None);
    assert_eq!(svc.html_body(Some(b"<p>".to_vec())).as_deref(), Some("<p>"));
    assert!(is_html(Some("text/html; charset=utf-8")));
    assert!(!is_html(Some("application/json")));
    assert!(!is_html(None));
}

#[test]
fn device_listing_drops_the_trailing_slash() {
    assert_eq!(
        device_listing("http://10.0.0.9:3000/google_home/device/").as_deref(),
        Some("http://10.0.0.9:3000/google_home/device")
    );
    assert_eq!(device_listing("http://10.0.0.9:3000/google_home/device"), None);
}

#[test]
fn node_endpoints_resolve_under_the_node() {
    let node = "http://10.0.0.9:3000/google_home/device/";
    assert_eq!(node_endpoint(node, "lamp1").as_deref(), Some("http://10.0.0.9:3000/google_home/device/lamp1"));
    assert_eq!(node_endpoint(node, "report_state").as_deref(), Some("http://10.0.0.9:3000/google_home/device/report_state"));
}

#[test]
fn bearer_token_names_its_session() {
    assert_eq!(bearer_session_id("Bearer abc"), "google_home_auth_token|abc");
    assert_eq!(bearer_session_id("abc"), "google_home_auth_token|abc");
    assert_eq!(bearer_session_id("Bearer "), "google_home_auth_token|");
}

#[test]
fn listing_path_takes_off_the_trailing_slash() {
    assert_eq!(listing_path("/google_home/device/").as_deref(), Some("/google_home/device"));
    assert_eq!(listing_path("/"), Some(String::new()));
    assert_eq!(listing_path("/x"), None);
    assert_eq!(listing_path(""), None);
}

#[test]
fn retry_port_stays_inside_the_range() {
    assert_eq!(retry_port(49153), Some(49154));
    assert_eq!(retry_port(80), Some(79));
    assert_eq!(retry_port(0), None);
    assert_eq!(retry_port(65535), None);
}

#[test]
fn batch_query_asks_for_a_size() {
    assert_eq!(batch_query(100), "size=100");
    assert_eq!(batch_query(0), "size=0");
}

#[test]
fn page_without_api_link_is_served_as_is() {
    let svc = UpdateBaseUrilHtmlLayer::new(String::new(), "http://api:1".to_string(), "/k".to_string()).layer(());
    let page = "<html><a href=\"/y\">'/z'</a></html>";
    assert_eq!(svc.rewrite_html(page), page);
}
