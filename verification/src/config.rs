//! System configuration, as read from `config.toml`: which services run,
//! which devices are polled and how often, and the OAuth2 setup.

use vstd::prelude::*;
use vstd::string::*;

use crate::strings::{self, opt_text};
use crate::uri::{self, byte_len, fits_url, join_url, with_query, MAX_URL_INPUT};

verus! {

broadcast use vstd::string::group_string_axioms;

/// A copy of an optional string.
fn copy_opt(o: &Option<String>) -> (r: Option<String>)
    ensures
        opt_text(r) == opt_text(*o),
{
    match o {
        Some(s) => Some(s.clone()),
        None => None,
    }
}

// ---------------------------------------------------------------------------
// Polling.

/// How often a node is polled, and on which endpoint.
pub struct PollingConfig {
    /// Cron-like schedule, seconds first: `sec min hour day month weekday`.
    schedule: String,
    /// API endpoint polled, relative to the device.
    api: Option<String>,
}

/// [`PollingConfig`] over texts.
pub struct PollingView {
    pub schedule: Seq<char>,
    pub api: Option<Seq<char>>,
}

impl View for PollingConfig {
    type V = PollingView;

    closed spec fn view(&self) -> PollingView {
        PollingView { schedule: self.schedule@, api: opt_text(self.api) }
    }
}

/// The default schedule: at the start of every minute.
pub open spec fn default_schedule() -> Seq<char> {
    "0 * * * * *"@
}

impl Clone for PollingConfig {
    fn clone(&self) -> (r: Self)
        ensures
            r@ == self@,
    {
        PollingConfig { schedule: self.schedule.clone(), api: copy_opt(&self.api) }
    }
}

impl Default for PollingConfig {
    fn default() -> (r: Self)
        ensures
            r@ == (PollingView { schedule: default_schedule(), api: None }),
    {
        PollingConfig { schedule: String::from_str("0 * * * * *"), api: None }
    }
}

impl PollingConfig {
    /// A polling configuration with this schedule and endpoint.
    pub fn new(schedule: String, api: Option<String>) -> (r: Self)
        ensures
            r@ == (PollingView { schedule: schedule@, api: opt_text(api) }),
    {
        PollingConfig { schedule, api }
    }

    /// The schedule, as text.
    pub fn to_string(&self) -> (s: String)
        ensures
            s@ == self@.schedule,
    {
        self.schedule.clone()
    }

    /// The polled endpoint.
    pub fn get_api(&self) -> (r: Option<String>)
        ensures
            opt_text(r) == self@.api,
    {
        copy_opt(&self.api)
    }

    /// The schedule.
    pub fn get_schedule(&self) -> (s: String)
        ensures
            s@ == self@.schedule,
    {
        self.schedule.clone()
    }
}

// ---------------------------------------------------------------------------
// OAuth2.

/// OAuth2 setup of the API server.
pub struct OAuth2Config {
    /// Path of the client secret JSON exported from GCP.
    client_secret_json: String,
    /// Path of the Google Home client secret JSON exported from GCP.
    google_home_client_secret_json: Option<String>,
    /// OAuth2 callback base URI.
    redirect_uri_base: String,
    /// Base64 cookie encryption key.
    cookie_secret_key: Option<String>,
}

/// [`OAuth2Config`] over texts.
pub struct OAuth2View {
    pub client_secret_json: Seq<char>,
    pub google_home_client_secret_json: Option<Seq<char>>,
    pub redirect_uri_base: Seq<char>,
    pub cookie_secret_key: Option<Seq<char>>,
}

impl View for OAuth2Config {
    type V = OAuth2View;

    closed spec fn view(&self) -> OAuth2View {
        OAuth2View {
            client_secret_json: self.client_secret_json@,
            google_home_client_secret_json: opt_text(self.google_home_client_secret_json),
            redirect_uri_base: self.redirect_uri_base@,
            cookie_secret_key: opt_text(self.cookie_secret_key),
        }
    }
}

impl Clone for OAuth2Config {
    fn clone(&self) -> (r: Self)
        ensures
            r@ == self@,
    {
        OAuth2Config {
            client_secret_json: self.client_secret_json.clone(),
            google_home_client_secret_json: copy_opt(&self.google_home_client_secret_json),
            redirect_uri_base: self.redirect_uri_base.clone(),
            cookie_secret_key: copy_opt(&self.cookie_secret_key),
        }
    }
}

/// Bytes that the standard base64 alphabet, with padding, decodes `input`
/// to (`base64::Engine::decode` on `BASE64_STANDARD`), or `None` where it
/// refuses `input`.
pub uninterp spec fn base64_standard_decode(input: Seq<char>) -> Option<Seq<u8>>;

/// Decodes `input` with `base64::prelude::BASE64_STANDARD`.
#[verifier::external_body]
fn decode_base64(input: &str) -> (r: Option<Vec<u8>>)
    ensures
        match r {
            Some(b) => base64_standard_decode(input@) == Some(b@),
            None => base64_standard_decode(input@) is None,
        },
{
    match base64::Engine::decode(&base64::prelude::BASE64_STANDARD, input) {
        Ok(b) => Some(b),
        Err(_) => None,
    }
}

/// The cookie key: the decoded bytes, or no bytes where there was nothing
/// to decode or decoding failed.
pub fn cookie_key_from(decoded: Option<Vec<u8>>) -> (k: Vec<u8>)
    ensures
        k@ == match decoded {
            Some(b) => b@,
            None => Seq::<u8>::empty(),
        },
{
    match decoded {
        Some(b) => b,
        None => Vec::new(),
    }
}

/// The cookie key configured as base64 text `key`, decoded.
pub open spec fn cookie_key_of(key: Option<Seq<char>>) -> Seq<u8> {
    match key {
        Some(k) => match base64_standard_decode(k) {
            Some(b) => b,
            None => Seq::empty(),
        },
        None => Seq::empty(),
    }
}

impl OAuth2Config {
    /// An OAuth2 configuration with these settings.
    pub fn new(
        client_secret_json: String,
        google_home_client_secret_json: Option<String>,
        redirect_uri_base: String,
        cookie_secret_key: Option<String>,
    ) -> (r: Self)
        ensures
            r@ == (OAuth2View {
                client_secret_json: client_secret_json@,
                google_home_client_secret_json: opt_text(google_home_client_secret_json),
                redirect_uri_base: redirect_uri_base@,
                cookie_secret_key: opt_text(cookie_secret_key),
            }),
    {
        OAuth2Config { client_secret_json, google_home_client_secret_json, redirect_uri_base, cookie_secret_key }
    }

    /// Path of the client secret JSON.
    pub fn get_client_json(&self) -> (s: String)
        ensures
            s@ == self@.client_secret_json,
    {
        self.client_secret_json.clone()
    }

    /// Path of the Google Home client secret JSON.
    pub fn get_google_home_client_json(&self) -> (s: Option<String>)
        ensures
            opt_text(s) == self@.google_home_client_secret_json,
    {
        copy_opt(&self.google_home_client_secret_json)
    }

    /// OAuth2 callback base URI.
    pub fn get_redirect_uri_base(&self) -> (s: String)
        ensures
            s@ == self@.redirect_uri_base,
    {
        self.redirect_uri_base.clone()
    }

    /// The cookie key as configured, in base64.
    pub fn cookie_secret_key_text(&self) -> (s: Option<String>)
        ensures
            opt_text(s) == self@.cookie_secret_key,
    {
        copy_opt(&self.cookie_secret_key)
    }

    /// The cookie key: the configured base64 key decoded, or no bytes where
    /// none is configured or it does not decode.
    pub fn get_cookie_secret_key(&self) -> (k: Vec<u8>)
        ensures
            k@ == cookie_key_of(self@.cookie_secret_key),
    {
        match &self.cookie_secret_key {
            Some(key) => cookie_key_from(decode_base64(key.as_str())),
            None => Vec::new(),
        }
    }
}

// ---------------------------------------------------------------------------
// Devices.

/// How to reach a Kasa device.
pub struct KasaDeviceConfig {
    uri: String,
    username: String,
    password: String,
    batch_size: Option<usize>,
}

/// [`KasaDeviceConfig`] over texts.
pub struct KasaDeviceView {
    pub uri: Seq<char>,
    pub username: Seq<char>,
    pub password: Seq<char>,
    pub batch_size: Option<usize>,
}

impl View for KasaDeviceConfig {
    type V = KasaDeviceView;

    closed spec fn view(&self) -> KasaDeviceView {
        KasaDeviceView {
            uri: self.uri@,
            username: self.username@,
            password: self.password@,
            batch_size: self.batch_size,
        }
    }
}

impl Clone for KasaDeviceConfig {
    fn clone(&self) -> (r: Self)
        ensures
            r@ == self@,
    {
        KasaDeviceConfig {
            uri: self.uri.clone(),
            username: self.username.clone(),
            password: self.password.clone(),
            batch_size: self.batch_size,
        }
    }
}

impl Default for KasaDeviceConfig {
    /// A placeholder device at `http://192.168.0.1/` (the URL
    /// `http://192.168.0.1` as parsed).
    fn default() -> (r: Self)
        ensures
            r@ == (KasaDeviceView {
                uri: "http://192.168.0.1/"@,
                username: "username@email.com"@,
                password: "somepassword"@,
                batch_size: None,
            }),
    {
        KasaDeviceConfig {
            uri: String::from_str("http://192.168.0.1/"),
            username: String::from_str("username@email.com"),
            password: String::from_str("somepassword"),
            batch_size: None,
        }
    }
}

/// The URL a device at `uri` is polled on: the endpoint `route` resolved
/// against it, asking for `size` readings at a time where a batch size is
/// set.
pub open spec fn poll_url(uri: Seq<char>, route: Seq<char>, batch_size: Option<usize>) -> Option<Seq<char>> {
    if byte_len(uri) + byte_len(route) < MAX_URL_INPUT {
        match uri::url_join(uri, route) {
            Some(u) => match batch_size {
                Some(n) => {
                    let q = "size="@ + strings::decimal(n as nat);
                    if byte_len(u) + byte_len(q) < MAX_URL_INPUT {
                        uri::url_set_query(u, q)
                    } else {
                        None
                    }
                },
                None => Some(u),
            },
            None => None,
        }
    } else {
        None
    }
}

impl KasaDeviceConfig {
    /// A device configuration with these settings; `uri` is a parsed URL.
    pub fn new(uri: String, username: String, password: String, batch_size: Option<usize>) -> (r: Self)
        ensures
            r@ == (KasaDeviceView {
                uri: uri@,
                username: username@,
                password: password@,
                batch_size: batch_size,
            }),
    {
        KasaDeviceConfig { uri, username, password, batch_size }
    }

    /// The device's URL.
    pub fn get_uri(&self) -> (s: String)
        ensures
            s@ == self@.uri,
    {
        self.uri.clone()
    }

    /// The user name.
    pub fn get_username(&self) -> (s: String)
        ensures
            s@ == self@.username,
    {
        self.username.clone()
    }

    /// The password.
    pub fn get_password(&self) -> (s: String)
        ensures
            s@ == self@.password,
    {
        self.password.clone()
    }

    /// How many readings to ask for at a time.
    pub fn get_batch_size(&self) -> (n: Option<usize>)
        ensures
            n == self@.batch_size,
    {
        self.batch_size
    }

    /// The URL the device is polled on, as [`poll_url`] says; `None` where
    /// the endpoint does not resolve against the device's URL.
    pub fn poll_target(&self, route: &str) -> (r: Option<String>)
        ensures
            opt_text(r) == poll_url(self@.uri, route@, self@.batch_size),
    {
        let a = self.uri.as_str().as_bytes().len();
        let b = route.as_bytes().len();
        if !(a < MAX_URL_INPUT && b < MAX_URL_INPUT && a + b < MAX_URL_INPUT) {
            return None;
        }
        let joined = match join_url(self.uri.as_str(), route) {
            Some(u) => u,
            None => return None,
        };
        match self.batch_size {
            Some(n) => {
                let q = crate::kasa::batch_query(n as u64);
                let c = joined.as_str().as_bytes().len();
                let d = q.as_str().as_bytes().len();
                if c < MAX_URL_INPUT && d < MAX_URL_INPUT && c + d < MAX_URL_INPUT {
                    with_query(joined.as_str(), q.as_str())
                } else {
                    None
                }
            },
            None => Some(joined),
        }
    }
}

/// A node the server knows how to talk to.
pub enum NodeClass {
    /// A Kasa device (the HS300 for now): its topic, how to reach it and
    /// how to poll it.
    KasaDevice(String, Box<KasaDeviceConfig>, PollingConfig),
    /// A device of unknown type.
    Unknown,
}

/// [`NodeClass`] over texts.
pub enum NodeView {
    KasaDevice(Seq<char>, KasaDeviceView, PollingView),
    Unknown,
}

impl View for NodeClass {
    type V = NodeView;

    open spec fn view(&self) -> NodeView {
        match self {
            NodeClass::KasaDevice(t, d, p) => NodeView::KasaDevice(t@, d@, p@),
            NodeClass::Unknown => NodeView::Unknown,
        }
    }
}

impl Clone for NodeClass {
    fn clone(&self) -> (r: Self)
        ensures
            r@ == self@,
    {
        match self {
            NodeClass::KasaDevice(t, d, p) => NodeClass::KasaDevice(
                t.clone(),
                Box::new(KasaDeviceConfig::clone(d)),
                p.clone(),
            ),
            NodeClass::Unknown => NodeClass::Unknown,
        }
    }
}

impl Default for NodeClass {
    fn default() -> (r: Self)
        ensures
            r@ == NodeView::Unknown,
    {
        NodeClass::Unknown
    }
}

/// Nodes taken by their views.
pub open spec fn nodes_view(v: Seq<NodeClass>) -> Seq<NodeView> {
    Seq::new(v.len(), |i: int| v[i]@)
}

/// A copy of a list of nodes.
fn copy_nodes(v: &Vec<NodeClass>) -> (r: Vec<NodeClass>)
    ensures
        nodes_view(r@) == nodes_view(v@),
{
    let mut r: Vec<NodeClass> = Vec::new();
    let mut i: usize = 0;
    while i < v.len()
        invariant
            i <= v.len(),
            r@.len() == i,
            forall|j: int| 0 <= j < i ==> r@[j]@ == v@[j]@,
        decreases v.len() - i,
    {
        r.push(v[i].clone());
        i = i + 1;
    }
    assert(nodes_view(r@) =~= nodes_view(v@));
    r
}

/// What this server runs as a device node: the IoT devices it polls, and
/// the Google Home devices it serves.
pub struct Node {
    /// IoT devices and their polling schedules.
    nodes: Vec<NodeClass>,
    /// URL of a dLight lamp.
    dlight_uri: Option<String>,
    /// URL of the Wemo plug `wemo0`.
    wemo0_uri: Option<String>,
    /// Path of the service account JSON used to report state to Google Home.
    google_home_service_account_json: Option<String>,
    /// Google Home user the devices belong to.
    agent_user_id: Option<String>,
}

/// [`Node`] over texts.
pub struct NodeConfigView {
    pub nodes: Seq<NodeView>,
    pub dlight_uri: Option<Seq<char>>,
    pub wemo0_uri: Option<Seq<char>>,
    pub google_home_service_account_json: Option<Seq<char>>,
    pub agent_user_id: Option<Seq<char>>,
}

impl View for Node {
    type V = NodeConfigView;

    closed spec fn view(&self) -> NodeConfigView {
        NodeConfigView {
            nodes: nodes_view(self.nodes@),
            dlight_uri: opt_text(self.dlight_uri),
            wemo0_uri: opt_text(self.wemo0_uri),
            google_home_service_account_json: opt_text(self.google_home_service_account_json),
            agent_user_id: opt_text(self.agent_user_id),
        }
    }
}

impl Clone for Node {
    fn clone(&self) -> (r: Self)
        ensures
            r@ == self@,
    {
        Node {
            nodes: copy_nodes(&self.nodes),
            dlight_uri: copy_opt(&self.dlight_uri),
            wemo0_uri: copy_opt(&self.wemo0_uri),
            google_home_service_account_json: copy_opt(&self.google_home_service_account_json),
            agent_user_id: copy_opt(&self.agent_user_id),
        }
    }
}

impl Default for Node {
    fn default() -> (r: Self)
        ensures
            r@ == (NodeConfigView {
                nodes: Seq::empty(),
                dlight_uri: None,
                wemo0_uri: None,
                google_home_service_account_json: None,
                agent_user_id: None,
            }),
    {
        let r = Node {
            nodes: Vec::new(),
            dlight_uri: None,
            wemo0_uri: None,
            google_home_service_account_json: None,
            agent_user_id: None,
        };
        assert(nodes_view(r.nodes@) =~= Seq::<NodeView>::empty());
        r
    }
}

impl Node {
    /// A node configuration; the URIs are parsed URLs.
    pub fn new(
        nodes: Vec<NodeClass>,
        dlight_uri: Option<String>,
        wemo0_uri: Option<String>,
        google_home_service_account_json: Option<String>,
        agent_user_id: Option<String>,
    ) -> (r: Self)
        ensures
            r@ == (NodeConfigView {
                nodes: nodes_view(nodes@),
                dlight_uri: opt_text(dlight_uri),
                wemo0_uri: opt_text(wemo0_uri),
                google_home_service_account_json: opt_text(google_home_service_account_json),
                agent_user_id: opt_text(agent_user_id),
            }),
    {
        Node { nodes, dlight_uri, wemo0_uri, google_home_service_account_json, agent_user_id }
    }

    /// The IoT devices.
    pub fn get_nodes(&self) -> (r: Vec<NodeClass>)
        ensures
            nodes_view(r@) == self@.nodes,
    {
        copy_nodes(&self.nodes)
    }

    /// URL of the dLight lamp.
    pub fn get_dlight_uri(&self) -> (r: Option<String>)
        ensures
            opt_text(r) == self@.dlight_uri,
    {
        copy_opt(&self.dlight_uri)
    }

    /// URL of the Wemo plug.
    pub fn get_wemo0_uri(&self) -> (r: Option<String>)
        ensures
            opt_text(r) == self@.wemo0_uri,
    {
        copy_opt(&self.wemo0_uri)
    }

    /// Path of the Google Home service account JSON.
    pub fn get_google_home_service_account_json(&self) -> (r: Option<String>)
        ensures
            opt_text(r) == self@.google_home_service_account_json,
    {
        copy_opt(&self.google_home_service_account_json)
    }

    /// The Google Home user the devices belong to.
    pub fn get_agent_user_id(&self) -> (r: Option<String>)
        ensures
            opt_text(r) == self@.agent_user_id,
    {
        copy_opt(&self.agent_user_id)
    }
}

// ---------------------------------------------------------------------------
// Servers.

/// API and database server configuration.
pub struct ApiServerConfig {
    /// Nodes to poll and how.
    nodes: Vec<NodeClass>,
    /// Path of the database file.
    db: String,
    /// OAuth2 setup.
    oauth2: Option<OAuth2Config>,
    /// URL of the device node that serves Google Home requests.
    google_home_node_api: Option<String>,
}

/// [`ApiServerConfig`] over texts.
pub struct ApiServerView {
    pub nodes: Seq<NodeView>,
    pub db: Seq<char>,
    pub oauth2: Option<OAuth2View>,
    pub google_home_node_api: Option<Seq<char>>,
}

/// An optional OAuth2 setup taken by its view.
pub open spec fn oauth2_view(o: Option<OAuth2Config>) -> Option<OAuth2View> {
    match o {
        Some(c) => Some(c@),
        None => None,
    }
}

impl View for ApiServerConfig {
    type V = ApiServerView;

    closed spec fn view(&self) -> ApiServerView {
        ApiServerView {
            nodes: nodes_view(self.nodes@),
            db: self.db@,
            oauth2: oauth2_view(self.oauth2),
            google_home_node_api: opt_text(self.google_home_node_api),
        }
    }
}

impl Clone for ApiServerConfig {
    fn clone(&self) -> (r: Self)
        ensures
            r@ == self@,
    {
        ApiServerConfig {
            nodes: copy_nodes(&self.nodes),
            db: self.db.clone(),
            oauth2: match &self.oauth2 {
                Some(c) => Some(c.clone()),
                None => None,
            },
            google_home_node_api: copy_opt(&self.google_home_node_api),
        }
    }
}

/// What polling one Kasa device takes: its topic, the URL it is polled on
/// (`None` where the endpoint does not resolve against the device's URL)
/// and the schedule.
pub struct KasaJob {
    pub topic: String,
    pub url: Option<String>,
    pub schedule: String,
}

/// The polling job of node `n`, where it is a Kasa device: polled on its
/// configured endpoint, or on the device's URL itself where none is set.
pub open spec fn kasa_job_of(n: NodeView) -> Option<(Seq<char>, Option<Seq<char>>, Seq<char>)> {
    match n {
        NodeView::KasaDevice(topic, d, p) => Some(
            (
                topic,
                poll_url(
                    d.uri,
                    match p.api {
                        Some(a) => a,
                        None => Seq::empty(),
                    },
                    d.batch_size,
                ),
                p.schedule,
            ),
        ),
        NodeView::Unknown => None,
    }
}

/// The polling jobs of the Kasa devices among `ns`, in order.
pub open spec fn kasa_jobs_of(ns: Seq<NodeView>) -> Seq<(Seq<char>, Option<Seq<char>>, Seq<char>)>
    decreases ns.len(),
{
    if ns.len() == 0 {
        Seq::empty()
    } else {
        let rest = kasa_jobs_of(ns.drop_last());
        match kasa_job_of(ns.last()) {
            Some(j) => rest.push(j),
            None => rest,
        }
    }
}

/// Jobs taken by their views.
pub open spec fn jobs_view(v: Seq<KasaJob>) -> Seq<(Seq<char>, Option<Seq<char>>, Seq<char>)> {
    Seq::new(v.len(), |i: int| (v[i].topic@, opt_text(v[i].url), v[i].schedule@))
}

impl ApiServerConfig {
    /// An API server configuration; `google_home_node_api` is a parsed URL.
    pub fn new(nodes: Vec<NodeClass>, db: String, oauth2: Option<OAuth2Config>, google_home_node_api: Option<String>) -> (r: Self)
        ensures
            r@ == (ApiServerView {
                nodes: nodes_view(nodes@),
                db: db@,
                oauth2: oauth2_view(oauth2),
                google_home_node_api: opt_text(google_home_node_api),
            }),
    {
        ApiServerConfig { nodes, db, oauth2, google_home_node_api }
    }

    /// URL of the device node serving Google Home requests.
    pub fn get_google_home_node_api(&self) -> (r: Option<String>)
        ensures
            opt_text(r) == self@.google_home_node_api,
    {
        copy_opt(&self.google_home_node_api)
    }

    /// Path of the database file.
    pub fn get_db(&self) -> (s: String)
        ensures
            s@ == self@.db,
    {
        self.db.clone()
    }

    /// The polled nodes.
    pub fn get_nodes(&self) -> (r: &Vec<NodeClass>)
        ensures
            nodes_view(r@) == self@.nodes,
    {
        &self.nodes
    }

    /// The OAuth2 setup.
    pub fn get_oauth2_config(&self) -> (r: Option<OAuth2Config>)
        ensures
            oauth2_view(r) == self@.oauth2,
    {
        match &self.oauth2 {
            Some(c) => Some(c.clone()),
            None => None,
        }
    }

    /// The polling jobs of the configured Kasa devices, as [`kasa_jobs_of`]
    /// says.
    pub fn kasa_jobs(&self) -> (r: Vec<KasaJob>)
        ensures
            jobs_view(r@) == kasa_jobs_of(self@.nodes),
    {
        let ghost ns = nodes_view(self.nodes@);
        let mut r: Vec<KasaJob> = Vec::new();
        let mut i: usize = 0;
        while i < self.nodes.len()
            invariant
                i <= self.nodes.len(),
                ns == nodes_view(self.nodes@),
                jobs_view(r@) == kasa_jobs_of(ns.take(i as int)),
            decreases self.nodes.len() - i,
        {
            assert(ns.take(i + 1).drop_last() =~= ns.take(i as int));
            assert(ns.take(i + 1).last() == self.nodes@[i as int]@);
            match &self.nodes[i] {
                NodeClass::KasaDevice(topic, d, p) => {
                    let route = match p.get_api() {
                        Some(a) => a,
                        None => String::new(),
                    };
                    let job = KasaJob {
                        topic: topic.clone(),
                        url: d.poll_target(route.as_str()),
                        schedule: p.get_schedule(),
                    };
                    let ghost before = r@;
                    r.push(job);
                    assert(jobs_view(r@) =~= jobs_view(before).push(
                        (job.topic@, opt_text(job.url), job.schedule@),
                    ));
                },
                NodeClass::Unknown => {},
            }
            i = i + 1;
        }
        assert(ns.take(self.nodes.len() as int) =~= ns);
        r
    }
}

/// Frontend server configuration.
pub struct FrontendServerConfig {
    /// API server the pages take their data from.
    api_server_uri: String,
    /// Kasa API endpoint.
    kasa_api: String,
    /// Base path the pages are served under.
    base: Option<String>,
}

/// [`FrontendServerConfig`] over texts.
pub struct FrontendView {
    pub api_server_uri: Seq<char>,
    pub kasa_api: Seq<char>,
    pub base: Option<Seq<char>>,
}

impl View for FrontendServerConfig {
    type V = FrontendView;

    closed spec fn view(&self) -> FrontendView {
        FrontendView { api_server_uri: self.api_server_uri@, kasa_api: self.kasa_api@, base: opt_text(self.base) }
    }
}

impl Clone for FrontendServerConfig {
    fn clone(&self) -> (r: Self)
        ensures
            r@ == self@,
    {
        FrontendServerConfig {
            api_server_uri: self.api_server_uri.clone(),
            kasa_api: self.kasa_api.clone(),
            base: copy_opt(&self.base),
        }
    }
}

impl FrontendServerConfig {
    /// A frontend configuration; `api_server_uri` is a parsed URL.
    pub fn new(api_server_uri: String, kasa_api: String, base: Option<String>) -> (r: Self)
        ensures
            r@ == (FrontendView { api_server_uri: api_server_uri@, kasa_api: kasa_api@, base: opt_text(base) }),
    {
        FrontendServerConfig { api_server_uri, kasa_api, base }
    }

    /// The API server's URL.
    pub fn get_api_server_uri(&self) -> (s: String)
        ensures
            s@ == self@.api_server_uri,
    {
        self.api_server_uri.clone()
    }

    /// The Kasa API endpoint.
    pub fn get_kasa_api(&self) -> (s: String)
        ensures
            s@ == self@.kasa_api,
    {
        self.kasa_api.clone()
    }

    /// The base path.
    pub fn get_base(&self) -> (s: Option<String>)
        ensures
            opt_text(s) == self@.base,
    {
        copy_opt(&self.base)
    }
}

/// The whole configuration: each service is present where it runs here.
pub struct ServerConfig {
    api_server: Option<ApiServerConfig>,
    frontend_server: Option<FrontendServerConfig>,
    node: Option<Node>,
}

/// [`ServerConfig`] over texts.
pub struct ServerView {
    pub api_server: Option<ApiServerView>,
    pub frontend_server: Option<FrontendView>,
    pub node: Option<NodeConfigView>,
}

/// An optional API server configuration taken by its view.
pub open spec fn api_view(o: Option<ApiServerConfig>) -> Option<ApiServerView> {
    match o {
        Some(c) => Some(c@),
        None => None,
    }
}

/// An optional frontend configuration taken by its view.
pub open spec fn frontend_view(o: Option<FrontendServerConfig>) -> Option<FrontendView> {
    match o {
        Some(c) => Some(c@),
        None => None,
    }
}

/// An optional node configuration taken by its view.
pub open spec fn node_view(o: Option<Node>) -> Option<NodeConfigView> {
    match o {
        Some(c) => Some(c@),
        None => None,
    }
}

impl View for ServerConfig {
    type V = ServerView;

    closed spec fn view(&self) -> ServerView {
        ServerView {
            api_server: api_view(self.api_server),
            frontend_server: frontend_view(self.frontend_server),
            node: node_view(self.node),
        }
    }
}

impl Default for ServerConfig {
    fn default() -> (r: Self)
        ensures
            r@ == (ServerView { api_server: None, frontend_server: None, node: None }),
    {
        ServerConfig { api_server: None, frontend_server: None, node: None }
    }
}

/// What to do with the configuration read at start-up.
pub enum ConfigChoice {
    /// Run with it.
    Use(ServerConfig),
    /// Open the configuration editor on it, write the result and exit.
    Edit(ServerConfig),
}

impl ServerConfig {
    /// A configuration of these services.
    pub fn new(api_server: Option<ApiServerConfig>, frontend_server: Option<FrontendServerConfig>, node: Option<Node>) -> (r: Self)
        ensures
            r@ == (ServerView {
                api_server: api_view(api_server),
                frontend_server: frontend_view(frontend_server),
                node: node_view(node),
            }),
    {
        ServerConfig { api_server, frontend_server, node }
    }

    /// What start-up does with the configuration file's contents: `loaded`
    /// is the parsed configuration, `None` where the file could not be read
    /// or parsed. An unreadable configuration is replaced by an empty one to
    /// edit; a readable one is edited when `edit_config` asks for it and run
    /// with otherwise.
    pub fn resolve(loaded: Option<ServerConfig>, edit_config: bool) -> (r: ConfigChoice)
        ensures
            match (loaded, r) {
                (None, ConfigChoice::Edit(c)) => c@ == (ServerView { api_server: None, frontend_server: None, node: None }),
                (Some(l), ConfigChoice::Edit(c)) => edit_config && c@ == l@,
                (Some(l), ConfigChoice::Use(c)) => !edit_config && c@ == l@,
                (None, ConfigChoice::Use(_)) => false,
            },
    {
        match loaded {
            None => ConfigChoice::Edit(ServerConfig::default()),
            Some(c) => {
                if edit_config {
                    ConfigChoice::Edit(c)
                } else {
                    ConfigChoice::Use(c)
                }
            },
        }
    }

    /// The node configuration.
    pub fn get_node_config(&self) -> (r: Option<Node>)
        ensures
            node_view(r) == self@.node,
    {
        match &self.node {
            Some(n) => Some(n.clone()),
            None => None,
        }
    }

    /// The frontend configuration.
    pub fn get_frontend_config(&self) -> (r: Option<FrontendServerConfig>)
        ensures
            frontend_view(r) == self@.frontend_server,
    {
        match &self.frontend_server {
            Some(f) => Some(f.clone()),
            None => None,
        }
    }

    /// The API server configuration.
    pub fn get_api_config(&self) -> (r: Option<ApiServerConfig>)
        ensures
            api_view(r) == self@.api_server,
    {
        match &self.api_server {
            Some(a) => Some(a.clone()),
            None => None,
        }
    }

    /// Replaces the node settings.
    pub fn set_node(&mut self, node: Option<Node>)
        ensures
            final(self)@ == (ServerView { node: node_view(node), ..old(self)@ }),
    {
        self.node = node;
    }

    /// Replaces the frontend settings.
    pub fn set_frontend_server(&mut self, frontend_server: Option<FrontendServerConfig>)
        ensures
            final(self)@ == (ServerView { frontend_server: frontend_view(frontend_server), ..old(self)@ }),
    {
        self.frontend_server = frontend_server;
    }

    /// Serves the frontend under `base` instead of the configured base; a
    /// configuration without a frontend is left as it is.
    pub fn override_frontend_base(&mut self, base: &str)
        ensures
            final(self)@.api_server == old(self)@.api_server,
            final(self)@.node == old(self)@.node,
            final(self)@.frontend_server == match old(self)@.frontend_server {
                Some(f) => Some(FrontendView { base: Some(base@), ..f }),
                None => None,
            },
    {
        if let Some(frontend_config) = &mut self.frontend_server {
            frontend_config.base = Some(String::from_str(base));
        }
    }
}

} // verus!
