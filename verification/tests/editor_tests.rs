use envtrackernode::config::{FrontendServerConfig, KasaDeviceConfig, Node, NodeClass, PollingConfig};
use envtrackernode::editor::{
    editor_open, editor_step, frontend_from_fields, kasa_node_from_fields, EditorAction, EditorEvent, EditorState,
    ListedNode, NodeFields, NodeKind,
};
use envtrackernode::strings::trim_text;

fn fields(name: &str, uri: &str, endpoint: &str) -> NodeFields {
    NodeFields {
        name: name.to_string(),
        uri: uri.to_string(),
        username: "user".to_string(),
        password: "pass".to_string(),
        schedule: "0 * * * * *".to_string(),
        endpoint: endpoint.to_string(),
    }
}

fn state(editor: NodeFields, listed: Vec<(NodeFields, bool)>) -> EditorState {
    EditorState {
        enabled: true,
        kind: NodeKind::KasaDevice,
        editor,
        listed: listed.into_iter().map(|(fields, checked)| ListedNode { fields, checked }).collect(),
    }
}

fn names(s: &EditorState) -> Vec<String> {
    s.listed.iter().map(|l| l.fields.name.clone()).collect()
}

/// The topic, URL, schedule and endpoint of a Kasa node.
fn kasa_parts(n: &NodeClass) -> (String, String, String, Option<String>) {
    match n {
        NodeClass::KasaDevice(t, d, p) => (t.clone(), d.get_uri(), p.get_schedule(), p.get_api()),
        NodeClass::Unknown => panic!("not a Kasa device"),
    }
}

#[test]
fn trim_takes_off_unicode_white_space() {
    assert_eq!(trim_text("  a b \t\n"), "a b");
    assert_eq!(trim_text("\u{a0}\u{3000}x\u{2029}"), "x");
    assert_eq!(trim_text("   "), "");
    assert_eq!(trim_text(""), "");
    for s in [" x ", "\u{85}y\u{1680}", "\u{200b}z", "w\u{202f}"] {
        assert_eq!(trim_text(s), s.trim());
    }
}

#[test]
fn kasa_node_reads_its_fields() {
    let n = kasa_node_from_fields("hs300", "http://10.0.0.2:9999", "u", "p", "*/5 * * * * *", "  /kasa ").unwrap();
    assert_eq!(
        kasa_parts(&n),
        ("hs300".to_string(), "http://10.0.0.2:9999/".to_string(), "*/5 * * * * *".to_string(), Some("/kasa".to_string()))
    );
    let n = kasa_node_from_fields("hs300", "http://10.0.0.2", "u", "p", "s", "   ").unwrap();
    assert_eq!(kasa_parts(&n).3, None);
    assert!(kasa_node_from_fields("hs300", "not a url", "u", "p", "s", "").is_none());
}

#[test]
fn add_lists_the_edited_node() {
    let s = state(fields("", "http://10.0.0.2", " /e "), vec![]);
    let (s2, a) = editor_step(&s, EditorEvent::Add);
    assert!(matches!(a, EditorAction::Redraw));
    assert_eq!(s2.listed.len(), 1);
    let l = &s2.listed[0];
    assert_eq!(l.fields.name, "node_name");
    assert_eq!(l.fields.uri, "http://10.0.0.2/");
    assert_eq!(l.fields.endpoint, "/e");
    assert!(!l.checked);
}

#[test]
fn add_with_a_bad_url_changes_nothing() {
    let s = state(fields("a", "nope", ""), vec![]);
    let (s2, a) = editor_step(&s, EditorEvent::Add);
    assert!(matches!(a, EditorAction::InvalidUri));
    assert!(s2.listed.is_empty());
}

#[test]
fn add_of_unknown_kind_adds_nothing() {
    let mut s = state(fields("a", "http://h", ""), vec![]);
    s.kind = NodeKind::Unknown;
    let (s2, a) = editor_step(&s, EditorEvent::Add);
    assert!(matches!(a, EditorAction::Redraw));
    assert!(s2.listed.is_empty());
}

#[test]
fn update_rewrites_the_ticked_nodes() {
    let s = state(
        fields("", " http://new ", ""),
        vec![(fields("a", "http://a/", ""), true), (fields("b", "http://b/", ""), false)],
    );
    let (s2, _) = editor_step(&s, EditorEvent::Update);
    assert_eq!(names(&s2), vec!["".to_string(), "b".to_string()]);
    assert_eq!(s2.listed[0].fields.uri, "http://new/");
    assert!(s2.listed[0].checked);
    assert_eq!(s2.listed[1].fields.uri, "http://b/");
}

#[test]
fn remove_drops_the_ticked_nodes() {
    let s = state(
        fields("e", "http://e", ""),
        vec![(fields("a", "http://a/", ""), true), (fields("b", "http://b/", ""), false), (fields("c", "http://c/", ""), true)],
    );
    let (s2, a) = editor_step(&s, EditorEvent::RemoveNodes);
    assert!(matches!(a, EditorAction::Redraw));
    assert_eq!(names(&s2), vec!["b".to_string()]);
}

#[test]
fn load_copies_the_last_ticked_node_trimmed() {
    let s = state(
        fields("e", "http://e", ""),
        vec![(fields("a", "http://a/", ""), true), (fields(" c ", " http://c/ ", " /x "), true), (fields("d", "http://d/", ""), false)],
    );
    let (s2, _) = editor_step(&s, EditorEvent::LoadNode);
    assert_eq!(s2.editor.name, "c");
    assert_eq!(s2.editor.uri, "http://c/");
    assert_eq!(s2.editor.endpoint, "/x");
    assert_eq!(names(&s2), names(&s));
    let none = state(fields("e", "http://e", ""), vec![(fields("a", "http://a/", ""), false)]);
    let (s3, _) = editor_step(&none, EditorEvent::LoadNode);
    assert_eq!(s3.editor.name, "e");
}

#[test]
fn save_stores_one_device_per_listed_node() {
    let s = state(
        fields("e", "http://e", ""),
        vec![(fields("a", " http://a:1 ", ""), false), (fields("b", "http://b/", "/k"), true)],
    );
    let (s2, a) = editor_step(&s, EditorEvent::Save);
    assert_eq!(names(&s2), names(&s));
    let node = match a {
        EditorAction::Store(Some(n)) => n,
        _ => panic!("expected stored settings"),
    };
    let nodes = node.get_nodes();
    assert_eq!(nodes.len(), 2);
    assert_eq!(kasa_parts(&nodes[0]), ("a".to_string(), "http://a:1/".to_string(), "0 * * * * *".to_string(), None));
    assert_eq!(kasa_parts(&nodes[1]).3, Some("/k".to_string()));
    assert_eq!(node.get_dlight_uri(), None);
}

#[test]
fn save_of_a_disabled_service_stores_nothing() {
    let mut s = state(fields("e", "http://e", ""), vec![(fields("a", "http://a/", ""), false)]);
    s.enabled = false;
    assert!(matches!(editor_step(&s, EditorEvent::Save).1, EditorAction::Store(None)));
}

#[test]
fn save_with_a_bad_url_stores_nothing() {
    let s = state(fields("e", "http://e", ""), vec![(fields("a", "bad url", ""), false)]);
    assert!(matches!(editor_step(&s, EditorEvent::Save).1, EditorAction::InvalidUri));
}

#[test]
fn other_buttons_are_handed_on() {
    let s = state(fields("e", "http://e", ""), vec![(fields("a", "http://a/", ""), true)]);
    let (s2, a) = editor_step(&s, EditorEvent::Other);
    assert!(matches!(a, EditorAction::Ignored));
    assert_eq!(names(&s2), names(&s));
    assert_eq!(s2.editor.name, "e");
}

#[test]
fn opening_lists_the_configured_nodes() {
    let blank = editor_open(None);
    assert!(!blank.enabled);
    assert!(blank.listed.is_empty());
    assert_eq!(blank.editor.name, "node_name");
    assert_eq!(blank.editor.uri, "http://192.168.0.1/");
    let kasa = NodeClass::KasaDevice(
        "hs".to_string(),
        Box::new(KasaDeviceConfig::new("http://h/".to_string(), "u".to_string(), "p".to_string(), None)),
        PollingConfig::new("0 * * * * *".to_string(), Some("/k".to_string())),
    );
    let node = Node::new(vec![kasa, NodeClass::Unknown], None, None, None, None);
    let opened = editor_open(Some(&node));
    assert!(opened.enabled);
    assert_eq!(names(&opened), vec!["hs".to_string(), "node_name".to_string()]);
    assert_eq!(opened.listed[0].fields.endpoint, "/k");
    assert_eq!(opened.listed[1].fields.username, "username@email.com");
    let (_, a) = editor_step(&opened, EditorEvent::Save);
    let saved = match a {
        EditorAction::Store(Some(n)) => n.get_nodes(),
        _ => panic!("expected stored settings"),
    };
    assert_eq!(kasa_parts(&saved[0]), ("hs".to_string(), "http://h/".to_string(), "0 * * * * *".to_string(), Some("/k".to_string())));
}

#[test]
fn frontend_tab_saves_its_fields() {
    assert!(matches!(frontend_from_fields(false, "bad", "/kasa", ""), Some(None)));
    assert!(frontend_from_fields(true, "bad", "/kasa", "").is_none());
    let c: FrontendServerConfig = frontend_from_fields(true, " http://api:3000 ", " /kasa", "  ").unwrap().unwrap();
    assert_eq!(c.get_api_server_uri(), "http://api:3000/");
    assert_eq!(c.get_kasa_api(), " /kasa");
    assert_eq!(c.get_base(), None);
    let c = frontend_from_fields(true, "http://api", "/k", " /base ").unwrap().unwrap();
    assert_eq!(c.get_base().as_deref(), Some("/base"));
}
