use envtrackernode::config::{
    cookie_key_from, ApiServerConfig, ConfigChoice, FrontendServerConfig, KasaDeviceConfig, Node, NodeClass,
    OAuth2Config, PollingConfig, ServerConfig,
};

fn oauth(key: Option<&str>) -> OAuth2Config {
    OAuth2Config::new(
        "/etc/client.json".to_string(),
        Some("/etc/home.json".to_string()),
        "https://example.com/".to_string(),
        key.map(|k| k.to_string()),
    )
}

fn frontend(base: Option<&str>) -> FrontendServerConfig {
    FrontendServerConfig::new("http://10.0.0.2:8080/".to_string(), "/api/kasa/strip".to_string(), base.map(|b| b.to_string()))
}

#[test]
fn polling_default_runs_every_minute() {
    let p = PollingConfig::default();
    assert_eq!(p.get_schedule(), "0 * * * * *");
    assert_eq!(p.to_string(), "0 * * * * *");
    assert_eq!(p.get_api(), None);
}

#[test]
fn polling_getters_return_the_settings() {
    let p = PollingConfig::new("*/5 * * * * *".to_string(), Some("/kasa".to_string()));
    assert_eq!(p.get_schedule(), "*/5 * * * * *");
    assert_eq!(p.get_api().as_deref(), Some("/kasa"));
    let q = p.clone();
    assert_eq!(q.get_api().as_deref(), Some("/kasa"));
}

#[test]
fn cookie_key_is_decoded_from_base64() {
    assert_eq!(oauth(Some("aGVsbG8=")).get_cookie_secret_key(), b"hello".to_vec());
}

#[test]
fn cookie_key_that_does_not_decode_is_empty() {
    assert_eq!(oauth(Some("not base64!")).get_cookie_secret_key(), Vec::<u8>::new());
    assert_eq!(oauth(None).get_cookie_secret_key(), Vec::<u8>::new());
    assert_eq!(cookie_key_from(None), Vec::<u8>::new());
    assert_eq!(cookie_key_from(Some(vec![1, 2])), vec![1, 2]);
}

#[test]
fn oauth_getters_return_the_settings() {
    let o = oauth(None);
    assert_eq!(o.get_client_json(), "/etc/client.json");
    assert_eq!(o.get_google_home_client_json().as_deref(), Some("/etc/home.json"));
    assert_eq!(o.get_redirect_uri_base(), "https://example.com/");
}

#[test]
fn kasa_default_points_at_the_router() {
    let d = KasaDeviceConfig::default();
    assert_eq!(d.get_uri(), "http://192.168.0.1/");
    assert_eq!(d.get_username(), "username@email.com");
    assert_eq!(d.get_password(), "somepassword");
    assert_eq!(d.get_batch_size(), None);
}

#[test]
fn poll_target_resolves_the_route_and_asks_for_a_batch() {
    let d = KasaDeviceConfig::new("http://192.168.0.10/".to_string(), "u".to_string(), "p".to_string(), Some(10));
    assert_eq!(d.poll_target("/kasa").as_deref(), Some("http://192.168.0.10/kasa?size=10"));
    let d = KasaDeviceConfig::new("http://192.168.0.10/base/".to_string(), "u".to_string(), "p".to_string(), None);
    assert_eq!(d.poll_target("kasa").as_deref(), Some("http://192.168.0.10/base/kasa"));
    assert_eq!(d.poll_target("").as_deref(), Some("http://192.168.0.10/base/"));
}

#[test]
fn poll_target_of_an_unusable_url_is_none() {
    let d = KasaDeviceConfig::new("mailto:someone@example.com".to_string(), "u".to_string(), "p".to_string(), None);
    assert_eq!(d.poll_target("kasa"), None);
}

#[test]
fn kasa_jobs_skip_unknown_nodes() {
    let device = KasaDeviceConfig::new("http://192.168.0.10/".to_string(), "u".to_string(), "p".to_string(), Some(5));
    let nodes = vec![
        NodeClass::Unknown,
        NodeClass::KasaDevice(
            "strip".to_string(),
            Box::new(device),
            PollingConfig::new("0 * * * * *".to_string(), Some("/kasa".to_string())),
        ),
    ];
    let api = ApiServerConfig::new(nodes, "/var/db.sqlite".to_string(), None, Some("http://10.0.0.9:3000/google_home/device/".to_string()));
    let jobs = api.kasa_jobs();
    assert_eq!(jobs.len(), 1);
    assert_eq!(jobs[0].topic, "strip");
    assert_eq!(jobs[0].url.as_deref(), Some("http://192.168.0.10/kasa?size=5"));
    assert_eq!(jobs[0].schedule, "0 * * * * *");
    assert_eq!(api.get_db(), "/var/db.sqlite");
    assert_eq!(api.get_nodes().len(), 2);
    assert!(api.get_oauth2_config().is_none());
    assert_eq!(api.get_google_home_node_api().as_deref(), Some("http://10.0.0.9:3000/google_home/device/"));
}

#[test]
fn override_frontend_base_then_get_base() {
    let mut c = ServerConfig::new(None, Some(frontend(Some("/old"))), None);
    c.override_frontend_base("");
    let f = c.get_frontend_config().unwrap();
    assert_eq!(f.get_base().as_deref(), Some(""));
    assert_eq!(f.get_kasa_api(), "/api/kasa/strip");
    assert_eq!(f.get_api_server_uri(), "http://10.0.0.2:8080/");
}

#[test]
fn override_frontend_base_without_frontend_changes_nothing() {
    let mut c = ServerConfig::new(None, None, Some(Node::new(vec![NodeClass::Unknown], None, None, None, Some("agent".to_string()))));
    c.override_frontend_base("/x");
    assert!(c.get_frontend_config().is_none());
    let n = c.get_node_config().unwrap();
    assert_eq!(n.get_nodes().len(), 1);
    assert_eq!(n.get_agent_user_id().as_deref(), Some("agent"));
    assert_eq!(n.get_dlight_uri(), None);
}

#[test]
fn unreadable_config_is_edited_from_scratch() {
    match ServerConfig::resolve(None, false) {
        ConfigChoice::Edit(c) => {
            assert!(c.get_api_config().is_none());
            assert!(c.get_frontend_config().is_none());
            assert!(c.get_node_config().is_none());
        }
        ConfigChoice::Use(_) => panic!("expected Edit"),
    }
}

#[test]
fn readable_config_is_used_unless_editing() {
    let c = ServerConfig::new(None, Some(frontend(None)), None);
    assert!(matches!(ServerConfig::resolve(Some(c), false), ConfigChoice::Use(_)));
    let c = ServerConfig::new(None, Some(frontend(None)), None);
    match ServerConfig::resolve(Some(c), true) {
        ConfigChoice::Edit(c) => assert!(c.get_frontend_config().is_some()),
        ConfigChoice::Use(_) => panic!("expected Edit"),
    }
}
