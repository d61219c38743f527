//! The configuration editor (`--edit-config`): what its buttons do to the
//! node and frontend settings being edited. Drawing the form and reading
//! its widgets is left to the caller; the editor's state holds the text of
//! each field and whether each check box is ticked.

use vstd::prelude::*;
use vstd::string::*;

use crate::config::{
    node_view, FrontendServerConfig, FrontendView, KasaDeviceConfig, KasaDeviceView, Node, NodeClass,
    NodeConfigView, NodeView, PollingConfig, PollingView,
};
use crate::strings::{self, opt_text, trim_text, trimmed};
use crate::uri::{self, byte_len, fits_url, parse_url, MAX_URL_INPUT};

verus! {

broadcast use vstd::string::group_string_axioms;

/// The URL text `u` as the `url` crate serializes it once parsed; `None`
/// where it does not parse (or is too long to hand to the crate).
pub open spec fn parsed_uri(u: Seq<char>) -> Option<Seq<char>> {
    if byte_len(u) < MAX_URL_INPUT {
        uri::url_parse(u)
    } else {
        None
    }
}

/// Parses the URL text `u`.
fn parse_field_uri(u: &str) -> (r: Option<String>)
    ensures
        opt_text(r) == parsed_uri(u@),
{
    if fits_url(u) {
        parse_url(u)
    } else {
        None
    }
}

/// A polling endpoint field: its text trimmed, or `None` where nothing is
/// left.
pub open spec fn endpoint_of(e: Seq<char>) -> Option<Seq<char>> {
    if trimmed(e).len() == 0 {
        None
    } else {
        Some(trimmed(e))
    }
}

/// The Kasa device the fields describe: its name, the URL parsed from
/// `uri`, the user name and password, and the polling schedule and
/// endpoint; no batch size. `None` where `uri` does not parse.
pub open spec fn kasa_node(
    name: Seq<char>,
    uri: Seq<char>,
    username: Seq<char>,
    password: Seq<char>,
    schedule: Seq<char>,
    endpoint: Seq<char>,
) -> Option<NodeView> {
    match parsed_uri(uri) {
        Some(u) => Some(
            NodeView::KasaDevice(
                name,
                KasaDeviceView { uri: u, username, password, batch_size: None },
                PollingView { schedule, api: endpoint_of(endpoint) },
            ),
        ),
        None => None,
    }
}

/// An optional node taken by its view.
pub open spec fn opt_node(r: Option<NodeClass>) -> Option<NodeView> {
    match r {
        Some(n) => Some(n@),
        None => None,
    }
}

/// The Kasa device described by the editor's fields, with `uri` parsed as
/// given; `None` where it does not parse.
pub fn kasa_node_from_fields(
    name: &str,
    uri: &str,
    username: &str,
    password: &str,
    schedule: &str,
    endpoint: &str,
) -> (r: Option<NodeClass>)
    ensures
        opt_node(r) == kasa_node(name@, uri@, username@, password@, schedule@, endpoint@),
{
    let u = match parse_field_uri(uri) {
        Some(u) => u,
        None => return None,
    };
    let e = trim_text(endpoint);
    let api = if e.as_str().is_empty() {
        None
    } else {
        Some(e)
    };
    let device = KasaDeviceConfig::new(u, String::from_str(username), String::from_str(password), None);
    Some(NodeClass::KasaDevice(String::from_str(name), Box::new(device), PollingConfig::new(String::from_str(schedule), api)))
}


/// The text fields describing one node in the editor.
pub struct NodeFields {
    pub name: String,
    pub uri: String,
    pub username: String,
    pub password: String,
    pub schedule: String,
    pub endpoint: String,
}

/// [`NodeFields`] over texts.
pub struct FieldsView {
    pub name: Seq<char>,
    pub uri: Seq<char>,
    pub username: Seq<char>,
    pub password: Seq<char>,
    pub schedule: Seq<char>,
    pub endpoint: Seq<char>,
}

impl View for NodeFields {
    type V = FieldsView;

    open spec fn view(&self) -> FieldsView {
        FieldsView {
            name: self.name@,
            uri: self.uri@,
            username: self.username@,
            password: self.password@,
            schedule: self.schedule@,
            endpoint: self.endpoint@,
        }
    }
}

impl Clone for NodeFields {
    fn clone(&self) -> (r: Self)
        ensures
            r@ == self@,
    {
        NodeFields {
            name: self.name.clone(),
            uri: self.uri.clone(),
            username: self.username.clone(),
            password: self.password.clone(),
            schedule: self.schedule.clone(),
            endpoint: self.endpoint.clone(),
        }
    }
}

/// The kind of node chosen in the editor's drop-down list.
#[derive(Clone, Copy, PartialEq, Eq, Structural)]
pub enum NodeKind {
    KasaDevice,
    Unknown,
}

/// A node listed beside the editor: its fields, shown read-only, and
/// whether its check box is ticked.
pub struct ListedNode {
    pub fields: NodeFields,
    pub checked: bool,
}

/// The node tab of the editor: whether the node service is enabled, the
/// kind chosen, the fields being edited and the nodes listed.
pub struct EditorState {
    pub enabled: bool,
    pub kind: NodeKind,
    pub editor: NodeFields,
    pub listed: Vec<ListedNode>,
}

/// [`EditorState`] over texts.
pub struct EditorView {
    pub enabled: bool,
    pub kind: NodeKind,
    pub editor: FieldsView,
    pub listed: Seq<(FieldsView, bool)>,
}

/// Listed nodes taken by their views.
pub open spec fn listed_view(l: Seq<ListedNode>) -> Seq<(FieldsView, bool)> {
    Seq::new(l.len(), |i: int| (l[i].fields@, l[i].checked))
}

impl View for EditorState {
    type V = EditorView;

    open spec fn view(&self) -> EditorView {
        EditorView {
            enabled: self.enabled,
            kind: self.kind,
            editor: self.editor@,
            listed: listed_view(self.listed@),
        }
    }
}

/// A button of the node tab.
#[derive(Clone, Copy, PartialEq, Eq, Structural)]
pub enum EditorEvent {
    /// Save the node settings into the configuration.
    Save,
    /// List the node described by the editor's fields.
    Add,
    /// Give the ticked listed nodes the editor's fields.
    Update,
    /// Drop the ticked listed nodes.
    RemoveNodes,
    /// Copy a ticked listed node into the editor's fields.
    LoadNode,
    /// A button of another tab.
    Other,
}

/// What the caller does after a button.
pub enum EditorAction {
    /// Set the configuration's node settings to this.
    Store(Option<Node>),
    /// Redraw the form.
    Redraw,
    /// The button is not the node tab's: hand it on.
    Ignored,
    /// A URL field does not hold a URL: nothing was changed.
    InvalidUri,
}

/// [`EditorAction`] over texts.
pub enum ActionView {
    Store(Option<NodeConfigView>),
    Redraw,
    Ignored,
    InvalidUri,
}

impl EditorAction {
    pub open spec fn view(self) -> ActionView {
        match self {
            EditorAction::Store(n) => ActionView::Store(node_view(n)),
            EditorAction::Redraw => ActionView::Redraw,
            EditorAction::Ignored => ActionView::Ignored,
            EditorAction::InvalidUri => ActionView::InvalidUri,
        }
    }
}

/// The fields of a placeholder Kasa device: the name `node_name` and the
/// default device and polling settings.
pub open spec fn default_fields() -> FieldsView {
    FieldsView {
        name: "node_name"@,
        uri: "http://192.168.0.1/"@,
        username: "username@email.com"@,
        password: "somepassword"@,
        schedule: "0 * * * * *"@,
        endpoint: Seq::empty(),
    }
}

/// The polling endpoint as a field shows it: empty where there is none.
pub open spec fn endpoint_text(api: Option<Seq<char>>) -> Seq<char> {
    match api {
        Some(a) => a,
        None => Seq::empty(),
    }
}

/// How a node is listed: its fields, a nameless device shown as
/// `node_name`; a node of unknown kind is listed as the placeholder device.
pub open spec fn listed_fields(n: NodeView) -> FieldsView {
    match n {
        NodeView::KasaDevice(id, d, p) => FieldsView {
            name: if id.len() == 0 { "node_name"@ } else { id },
            uri: d.uri,
            username: d.username,
            password: d.password,
            schedule: p.schedule,
            endpoint: endpoint_text(p.api),
        },
        NodeView::Unknown => default_fields(),
    }
}

/// The fields an update writes into a ticked listed node.
pub open spec fn updated_fields(n: NodeView) -> FieldsView {
    match n {
        NodeView::KasaDevice(id, d, p) => FieldsView {
            name: id,
            uri: d.uri,
            username: d.username,
            password: d.password,
            schedule: p.schedule,
            endpoint: endpoint_text(p.api),
        },
        NodeView::Unknown => default_fields(),
    }
}

/// The fields with each text trimmed.
pub open spec fn trimmed_fields(f: FieldsView) -> FieldsView {
    FieldsView {
        name: trimmed(f.name),
        uri: trimmed(f.uri),
        username: trimmed(f.username),
        password: trimmed(f.password),
        schedule: trimmed(f.schedule),
        endpoint: trimmed(f.endpoint),
    }
}

/// The node a listed entry is saved as: its URL field trimmed and parsed.
pub open spec fn saved_node(f: FieldsView) -> Option<NodeView> {
    kasa_node(f.name, trimmed(f.uri), f.username, f.password, f.schedule, f.endpoint)
}

/// The nodes the listed entries are saved as, in order; `None` where a URL
/// does not parse.
pub open spec fn saved_nodes(l: Seq<(FieldsView, bool)>) -> Option<Seq<NodeView>>
    decreases l.len(),
{
    if l.len() == 0 {
        Some(Seq::empty())
    } else {
        match (saved_nodes(l.drop_last()), saved_node(l.last().0)) {
            (Some(p), Some(n)) => Some(p.push(n)),
            _ => None,
        }
    }
}

/// A node configuration holding just these devices.
pub open spec fn node_config_of(nodes: Seq<NodeView>) -> NodeConfigView {
    NodeConfigView {
        nodes,
        dlight_uri: None,
        wemo0_uri: None,
        google_home_service_account_json: None,
        agent_user_id: None,
    }
}

/// The listed entries that are not ticked, in order.
pub open spec fn unchecked(l: Seq<(FieldsView, bool)>) -> Seq<(FieldsView, bool)>
    decreases l.len(),
{
    if l.len() == 0 {
        l
    } else if l.last().1 {
        unchecked(l.drop_last())
    } else {
        unchecked(l.drop_last()).push(l.last())
    }
}

/// The position of the last ticked entry.
pub open spec fn last_checked(l: Seq<(FieldsView, bool)>) -> Option<int>
    decreases l.len(),
{
    if l.len() == 0 {
        None
    } else if l.last().1 {
        Some(l.len() - 1)
    } else {
        last_checked(l.drop_last())
    }
}

/// The listed entries with each ticked one given the fields `f`.
pub open spec fn updated(l: Seq<(FieldsView, bool)>, f: FieldsView) -> Seq<(FieldsView, bool)> {
    Seq::new(l.len(), |i: int| if l[i].1 { (f, true) } else { l[i] })
}

/// What a button does to the node tab, and what the caller does next.
/// - Save stores no node settings while the service is disabled, and
///   otherwise one Kasa device per listed entry, its URL field trimmed and
///   parsed.
/// - Add lists the device described by the fields, its URL parsed as typed
///   (a placeholder kind adds nothing).
/// - Update gives every ticked entry the fields' device, its URL trimmed
///   and parsed (a placeholder kind changes nothing).
/// - Remove drops the ticked entries; Load copies the last ticked entry,
///   trimmed, into the fields.
/// - A URL that does not parse changes nothing; a button of another tab is
///   handed on.
pub open spec fn editor_next(s: EditorView, e: EditorEvent) -> (EditorView, ActionView) {
    match e {
        EditorEvent::Save => if !s.enabled {
            (s, ActionView::Store(None))
        } else {
            match saved_nodes(s.listed) {
                Some(ns) => (s, ActionView::Store(Some(node_config_of(ns)))),
                None => (s, ActionView::InvalidUri),
            }
        },
        EditorEvent::Add => if s.kind == NodeKind::Unknown {
            (s, ActionView::Redraw)
        } else {
            let f = s.editor;
            match kasa_node(f.name, f.uri, f.username, f.password, f.schedule, f.endpoint) {
                Some(n) => (EditorView { listed: s.listed.push((listed_fields(n), false)), ..s }, ActionView::Redraw),
                None => (s, ActionView::InvalidUri),
            }
        },
        EditorEvent::Update => if s.kind == NodeKind::Unknown {
            (s, ActionView::Redraw)
        } else {
            let f = s.editor;
            match kasa_node(f.name, trimmed(f.uri), f.username, f.password, f.schedule, f.endpoint) {
                Some(n) => (EditorView { listed: updated(s.listed, updated_fields(n)), ..s }, ActionView::Redraw),
                None => (s, ActionView::InvalidUri),
            }
        },
        EditorEvent::RemoveNodes => (EditorView { listed: unchecked(s.listed), ..s }, ActionView::Redraw),
        EditorEvent::LoadNode => match last_checked(s.listed) {
            Some(k) => (EditorView { editor: trimmed_fields(s.listed[k].0), ..s }, ActionView::Redraw),
            None => (s, ActionView::Redraw),
        },
        EditorEvent::Other => (s, ActionView::Ignored),
    }
}


/// A copy of the listed entries.
fn copy_listed(l: &Vec<ListedNode>) -> (r: Vec<ListedNode>)
    ensures
        listed_view(r@) == listed_view(l@),
{
    let mut r: Vec<ListedNode> = Vec::new();
    let mut i: usize = 0;
    while i < l.len()
        invariant
            i <= l.len(),
            listed_view(r@) == listed_view(l@).take(i as int),
        decreases l.len() - i,
    {
        let ghost before = listed_view(r@);
        let fields = l[i].fields.clone();
        assert(fields@ == l@[i as int].fields@);
        r.push(ListedNode { fields, checked: l[i].checked });
        assert(listed_view(r@) =~= before.push(listed_view(l@)[i as int]));
        assert(listed_view(l@).take(i + 1) =~= listed_view(l@).take(i as int).push(listed_view(l@)[i as int]));
        i = i + 1;
    }
    assert(listed_view(l@).take(i as int) =~= listed_view(l@));
    r
}

/// A copy of the editor's state.
fn copy_state(s: &EditorState) -> (r: EditorState)
    ensures
        r@ == s@,
{
    EditorState { enabled: s.enabled, kind: s.kind, editor: s.editor.clone(), listed: copy_listed(&s.listed) }
}

/// The endpoint of a polling configuration as a field shows it.
fn endpoint_field(p: &PollingConfig) -> (s: String)
    ensures
        s@ == endpoint_text(p@.api),
{
    match p.get_api() {
        Some(a) => a,
        None => String::new(),
    }
}

/// The placeholder device's fields.
fn default_node_fields() -> (f: NodeFields)
    ensures
        f@ == default_fields(),
{
    NodeFields {
        name: String::from_str("node_name"),
        uri: String::from_str("http://192.168.0.1/"),
        username: String::from_str("username@email.com"),
        password: String::from_str("somepassword"),
        schedule: String::from_str("0 * * * * *"),
        endpoint: String::new(),
    }
}

/// How the node `n` is listed.
fn listed_fields_of(n: &NodeClass) -> (f: NodeFields)
    ensures
        f@ == listed_fields(n@),
{
    match n {
        NodeClass::KasaDevice(id, d, p) => {
            let name = if id.as_str().is_empty() {
                String::from_str("node_name")
            } else {
                id.clone()
            };
            NodeFields {
                name,
                uri: d.get_uri(),
                username: d.get_username(),
                password: d.get_password(),
                schedule: p.get_schedule(),
                endpoint: endpoint_field(p),
            }
        },
        NodeClass::Unknown => default_node_fields(),
    }
}

/// The fields an update writes for the node `n`.
fn updated_fields_of(n: &NodeClass) -> (f: NodeFields)
    ensures
        f@ == updated_fields(n@),
{
    match n {
        NodeClass::KasaDevice(id, d, p) => NodeFields {
            name: id.clone(),
            uri: d.get_uri(),
            username: d.get_username(),
            password: d.get_password(),
            schedule: p.get_schedule(),
            endpoint: endpoint_field(p),
        },
        NodeClass::Unknown => default_node_fields(),
    }
}

/// Once a prefix of the entries cannot be saved, none of them can.
proof fn lemma_saved_nodes_prefix(l: Seq<(FieldsView, bool)>, k: int)
    requires
        0 <= k <= l.len(),
        saved_nodes(l.take(k)) is None,
    ensures
        saved_nodes(l) is None,
    decreases l.len(),
{
    if k == l.len() {
        assert(l.take(k) =~= l);
    } else {
        assert(l.drop_last().take(k) =~= l.take(k));
        lemma_saved_nodes_prefix(l.drop_last(), k);
    }
}

/// The nodes the listed entries are saved as.
fn save_nodes(l: &Vec<ListedNode>) -> (r: Option<Vec<NodeClass>>)
    ensures
        match r {
            Some(v) => saved_nodes(listed_view(l@)) == Some(crate::config::nodes_view(v@)),
            None => saved_nodes(listed_view(l@)) is None,
        },
{
    let ghost lv = listed_view(l@);
    let mut nodes: Vec<NodeClass> = Vec::new();
    let mut i: usize = 0;
    assert(lv.take(0) =~= Seq::<(FieldsView, bool)>::empty());
    assert(crate::config::nodes_view(nodes@) =~= Seq::<NodeView>::empty());
    while i < l.len()
        invariant
            i <= l.len(),
            lv == listed_view(l@),
            saved_nodes(lv.take(i as int)) == Some(crate::config::nodes_view(nodes@)),
        decreases l.len() - i,
    {
        let f = &l[i].fields;
        let uri = trim_text(f.uri.as_str());
        let n = kasa_node_from_fields(
            f.name.as_str(),
            uri.as_str(),
            f.username.as_str(),
            f.password.as_str(),
            f.schedule.as_str(),
            f.endpoint.as_str(),
        );
        assert(lv.take(i + 1).drop_last() =~= lv.take(i as int));
        assert(lv.take(i + 1).last() == lv[i as int]);
        match n {
            Some(n) => {
                let ghost before = crate::config::nodes_view(nodes@);
                nodes.push(n);
                assert(crate::config::nodes_view(nodes@) =~= before.push(n@));
            },
            None => {
                proof {
                    lemma_saved_nodes_prefix(lv, i + 1);
                }
                return None;
            },
        }
        i = i + 1;
    }
    assert(lv.take(i as int) =~= lv);
    Some(nodes)
}

/// What a button does to the node tab, as [`editor_next`] says.
pub fn editor_step(state: &EditorState, event: EditorEvent) -> (r: (EditorState, EditorAction))
    ensures
        (r.0@, r.1.view()) == editor_next(state@, event),
{
    let ghost sv = state@;
    match event {
        EditorEvent::Save => {
            if !state.enabled {
                return (copy_state(state), EditorAction::Store(None));
            }
            match save_nodes(&state.listed) {
                Some(nodes) => {
                    let node = Node::new(nodes, None, None, None, None);
                    (copy_state(state), EditorAction::Store(Some(node)))
                },
                None => (copy_state(state), EditorAction::InvalidUri),
            }
        },
        EditorEvent::Add => {
            if state.kind == NodeKind::Unknown {
                return (copy_state(state), EditorAction::Redraw);
            }
            let f = &state.editor;
            match kasa_node_from_fields(
                f.name.as_str(),
                f.uri.as_str(),
                f.username.as_str(),
                f.password.as_str(),
                f.schedule.as_str(),
                f.endpoint.as_str(),
            ) {
                Some(n) => {
                    let mut r = copy_state(state);
                    let ghost before = listed_view(r.listed@);
                    r.listed.push(ListedNode { fields: listed_fields_of(&n), checked: false });
                    assert(listed_view(r.listed@) =~= before.push((listed_fields(n@), false)));
                    (r, EditorAction::Redraw)
                },
                None => (copy_state(state), EditorAction::InvalidUri),
            }
        },
        EditorEvent::Update => {
            if state.kind == NodeKind::Unknown {
                return (copy_state(state), EditorAction::Redraw);
            }
            let f = &state.editor;
            let uri = trim_text(f.uri.as_str());
            match kasa_node_from_fields(
                f.name.as_str(),
                uri.as_str(),
                f.username.as_str(),
                f.password.as_str(),
                f.schedule.as_str(),
                f.endpoint.as_str(),
            ) {
                Some(n) => {
                    let fields = updated_fields_of(&n);
                    let ghost lv = sv.listed;
                    let mut listed: Vec<ListedNode> = Vec::new();
                    let mut i: usize = 0;
                    while i < state.listed.len()
                        invariant
                            i <= state.listed.len(),
                            lv == listed_view(state.listed@),
                            listed_view(listed@) == updated(lv, fields@).take(i as int),
                        decreases state.listed.len() - i,
                    {
                        let ghost before = listed_view(listed@);
                        if state.listed[i].checked {
                            listed.push(ListedNode { fields: fields.clone(), checked: true });
                        } else {
                            listed.push(ListedNode { fields: state.listed[i].fields.clone(), checked: false });
                        }
                        assert(listed_view(listed@) =~= before.push(updated(lv, fields@)[i as int]));
                        assert(updated(lv, fields@).take(i + 1) =~= updated(lv, fields@).take(i as int).push(
                            updated(lv, fields@)[i as int],
                        ));
                        i = i + 1;
                    }
                    assert(updated(lv, fields@).take(i as int) =~= updated(lv, fields@));
                    let r = EditorState { enabled: state.enabled, kind: state.kind, editor: state.editor.clone(), listed };
                    (r, EditorAction::Redraw)
                },
                None => (copy_state(state), EditorAction::InvalidUri),
            }
        },
        EditorEvent::RemoveNodes => {
            let ghost lv = sv.listed;
            let mut listed: Vec<ListedNode> = Vec::new();
            let mut i: usize = 0;
            assert(lv.take(0) =~= Seq::<(FieldsView, bool)>::empty());
            assert(listed_view(listed@) =~= Seq::<(FieldsView, bool)>::empty());
            while i < state.listed.len()
                invariant
                    i <= state.listed.len(),
                    lv == listed_view(state.listed@),
                    listed_view(listed@) == unchecked(lv.take(i as int)),
                decreases state.listed.len() - i,
            {
                assert(lv.take(i + 1).drop_last() =~= lv.take(i as int));
                assert(lv.take(i + 1).last() == lv[i as int]);
                if !state.listed[i].checked {
                    let ghost before = listed_view(listed@);
                    listed.push(ListedNode { fields: state.listed[i].fields.clone(), checked: false });
                    assert(listed_view(listed@) =~= before.push(lv[i as int]));
                }
                i = i + 1;
            }
            assert(lv.take(i as int) =~= lv);
            let r = EditorState { enabled: state.enabled, kind: state.kind, editor: state.editor.clone(), listed };
            (r, EditorAction::Redraw)
        },
        EditorEvent::LoadNode => {
            let ghost lv = sv.listed;
            let mut found: Option<usize> = None;
            let mut i: usize = 0;
            assert(lv.take(0) =~= Seq::<(FieldsView, bool)>::empty());
            while i < state.listed.len()
                invariant
                    i <= state.listed.len(),
                    lv == listed_view(state.listed@),
                    match found {
                        Some(k) => last_checked(lv.take(i as int)) == Some(k as int) && k < i,
                        None => last_checked(lv.take(i as int)) is None,
                    },
                decreases state.listed.len() - i,
            {
                assert(lv.take(i + 1).drop_last() =~= lv.take(i as int));
                assert(lv.take(i + 1).last() == lv[i as int]);
                if state.listed[i].checked {
                    found = Some(i);
                }
                i = i + 1;
            }
            assert(lv.take(i as int) =~= lv);
            match found {
                Some(k) => {
                    let g = &state.listed[k].fields;
                    let editor = NodeFields {
                        name: trim_text(g.name.as_str()),
                        uri: trim_text(g.uri.as_str()),
                        username: trim_text(g.username.as_str()),
                        password: trim_text(g.password.as_str()),
                        schedule: trim_text(g.schedule.as_str()),
                        endpoint: trim_text(g.endpoint.as_str()),
                    };
                    let r = EditorState {
                        enabled: state.enabled,
                        kind: state.kind,
                        editor,
                        listed: copy_listed(&state.listed),
                    };
                    (r, EditorAction::Redraw)
                },
                None => (copy_state(state), EditorAction::Redraw),
            }
        },
        EditorEvent::Other => (copy_state(state), EditorAction::Ignored),
    }
}


/// The node tab opened on the node settings `c`: enabled where there are
/// settings, the device kind chosen, the placeholder device in the fields,
/// and each configured node listed, unticked.
pub open spec fn editor_opened(c: Option<NodeConfigView>) -> EditorView {
    EditorView {
        enabled: c is Some,
        kind: NodeKind::KasaDevice,
        editor: default_fields(),
        listed: match c {
            Some(n) => Seq::new(n.nodes.len(), |i: int| (listed_fields(n.nodes[i]), false)),
            None => Seq::empty(),
        },
    }
}

/// Opens the node tab on the node settings `config`.
pub fn editor_open(config: Option<&Node>) -> (r: EditorState)
    ensures
        r@ == editor_opened(
            match config {
                Some(n) => Some(n@),
                None => None,
            },
        ),
{
    let mut listed: Vec<ListedNode> = Vec::new();
    let enabled = match config {
        Some(n) => {
            let nodes = n.get_nodes();
            let ghost nv = n@.nodes;
            let mut i: usize = 0;
            while i < nodes.len()
                invariant
                    i <= nodes.len(),
                    crate::config::nodes_view(nodes@) == nv,
                    listed_view(listed@) == Seq::new(i as nat, |j: int| (listed_fields(nv[j]), false)),
                decreases nodes.len() - i,
            {
                let ghost before = listed_view(listed@);
                assert(crate::config::nodes_view(nodes@)[i as int] == nodes@[i as int]@);
                let fields = listed_fields_of(&nodes[i]);
                listed.push(ListedNode { fields, checked: false });
                assert(listed_view(listed@) =~= before.push((listed_fields(nv[i as int]), false)));
                assert(listed_view(listed@) =~= Seq::new((i + 1) as nat, |j: int| (listed_fields(nv[j]), false)));
                i = i + 1;
            }
            true
        },
        None => {
            assert(listed_view(listed@) =~= Seq::<(FieldsView, bool)>::empty());
            false
        },
    };
    EditorState { enabled, kind: NodeKind::KasaDevice, editor: default_node_fields(), listed }
}

/// What the frontend tab saves: nothing while the service is disabled;
/// otherwise the API server's URL trimmed and parsed, the Kasa API path as
/// typed and the base path trimmed, `None` where nothing is left of it.
/// `None` where the URL does not parse.
pub open spec fn frontend_saved(enabled: bool, uri: Seq<char>, kasa_api: Seq<char>, base: Seq<char>) -> Option<
    Option<FrontendView>,
> {
    if !enabled {
        Some(None)
    } else {
        match parsed_uri(trimmed(uri)) {
            Some(u) => Some(Some(FrontendView { api_server_uri: u, kasa_api, base: endpoint_of(base) })),
            None => None,
        }
    }
}

/// The frontend settings the frontend tab's fields describe, as
/// [`frontend_saved`] says.
pub fn frontend_from_fields(enabled: bool, uri: &str, kasa_api: &str, base: &str) -> (r: Option<Option<FrontendServerConfig>>)
    ensures
        match r {
            Some(c) => frontend_saved(enabled, uri@, kasa_api@, base@) == Some(crate::config::frontend_view(c)),
            None => frontend_saved(enabled, uri@, kasa_api@, base@) is None,
        },
{
    if !enabled {
        return Some(None);
    }
    let trimmed_uri = trim_text(uri);
    let u = match parse_field_uri(trimmed_uri.as_str()) {
        Some(u) => u,
        None => return None,
    };
    let b = trim_text(base);
    let base = if b.as_str().is_empty() {
        None
    } else {
        Some(b)
    };
    Some(Some(FrontendServerConfig::new(u, String::from_str(kasa_api), base)))
}


/// Dropping the ticked entries leaves none ticked.
proof fn lemma_unchecked_unticked(l: Seq<(FieldsView, bool)>)
    ensures
        forall|i: int| 0 <= i < unchecked(l).len() ==> !(#[trigger] unchecked(l)[i]).1,
        unchecked(l).len() <= l.len(),
    decreases l.len(),
{
    if l.len() > 0 {
        lemma_unchecked_unticked(l.drop_last());
    }
}

/// What each button leaves alone: Save and the buttons of other tabs change
/// nothing in the node tab; no button changes whether the service is
/// enabled or the kind chosen; only Load changes the fields being edited;
/// after Remove no listed entry is ticked and none was added; a URL that
/// does not parse changes nothing.
pub proof fn lemma_editor_frame(s: EditorView, e: EditorEvent)
    ensures
        (e == EditorEvent::Save || e == EditorEvent::Other) ==> editor_next(s, e).0 == s,
        editor_next(s, e).0.enabled == s.enabled,
        editor_next(s, e).0.kind == s.kind,
        e != EditorEvent::LoadNode ==> editor_next(s, e).0.editor == s.editor,
        e == EditorEvent::RemoveNodes ==> {
            let l = editor_next(s, e).0.listed;
            &&& l.len() <= s.listed.len()
            &&& forall|i: int| 0 <= i < l.len() ==> !(#[trigger] l[i]).1
        },
        editor_next(s, e).1 == ActionView::InvalidUri ==> editor_next(s, e).0 == s,
{
    lemma_unchecked_unticked(s.listed);
}

/// Whether the node `n` comes back as it is when the editor lists it and
/// saves it: a named Kasa device without a batch size, whose URL reads back
/// as itself and whose polling endpoint is trimmed and not empty.
pub open spec fn round_trips(n: NodeView) -> bool {
    match n {
        NodeView::KasaDevice(id, d, p) => {
            &&& id.len() > 0
            &&& d.batch_size is None
            &&& parsed_uri(trimmed(d.uri)) == Some(d.uri)
            &&& endpoint_of(endpoint_text(p.api)) == p.api
        },
        NodeView::Unknown => false,
    }
}

proof fn lemma_saved_listing(ns: Seq<NodeView>, k: int)
    requires
        0 <= k <= ns.len(),
        forall|i: int| 0 <= i < ns.len() ==> round_trips(#[trigger] ns[i]),
    ensures
        saved_nodes(Seq::new(ns.len(), |i: int| (listed_fields(ns[i]), false)).take(k)) == Some(ns.take(k)),
    decreases k,
{
    let l = Seq::new(ns.len(), |i: int| (listed_fields(ns[i]), false));
    if k == 0 {
        assert(l.take(0) =~= Seq::<(FieldsView, bool)>::empty());
        assert(ns.take(0) =~= Seq::<NodeView>::empty());
    } else {
        lemma_saved_listing(ns, k - 1);
        assert(l.take(k).drop_last() =~= l.take(k - 1));
        assert(l.take(k).last() == l[k - 1]);
        assert(round_trips(ns[k - 1]));
        assert(saved_node(listed_fields(ns[k - 1])) == Some(ns[k - 1]));
        assert(ns.take(k) =~= ns.take(k - 1).push(ns[k - 1]));
    }
}

/// Opening the editor on node settings and saving at once gives back their
/// devices, for devices that the listing shows as they are.
pub proof fn lemma_open_then_save(c: NodeConfigView)
    requires
        forall|i: int| 0 <= i < c.nodes.len() ==> round_trips(#[trigger] c.nodes[i]),
    ensures
        editor_next(editor_opened(Some(c)), EditorEvent::Save).1 == ActionView::Store(Some(node_config_of(c.nodes))),
{
    let l = Seq::new(c.nodes.len(), |i: int| (listed_fields(c.nodes[i]), false));
    lemma_saved_listing(c.nodes, c.nodes.len() as int);
    assert(l.take(c.nodes.len() as int) =~= l);
    assert(c.nodes.take(c.nodes.len() as int) =~= c.nodes);
}

} // verus!
