//! Readings of Kasa power strips and the node endpoints that serve them.

use vstd::prelude::*;
use vstd::string::*;

use crate::strings::{self, join_strings};

verus! {

broadcast use vstd::string::group_string_axioms;

/// One outlet of a power strip.
pub struct KasaDeviceChild {
    /// Human-readable name of the device.
    pub alias: String,
    /// Unique identifier.
    pub id: String,
    /// On/Off state.
    pub state: bool,
}

/// Energy meter reading of an outlet.
#[derive(Clone, Copy)]
pub struct EMeter {
    pub current_ma: u64,
    pub power_mw: u64,
    pub voltage_mv: u64,
    pub total_wh: u64,
}

/// A reading of one outlet at time `utc_ns`.
pub struct KasaChildInfo {
    pub utc_ns: i64,
    pub info: KasaDeviceChild,
    pub emeter: EMeter,
}

/// Mathematical model of a reading.
pub struct KasaChildInfoView {
    pub utc_ns: i64,
    pub alias: Seq<char>,
    pub id: Seq<char>,
    pub state: bool,
    pub emeter: EMeter,
}

impl View for KasaChildInfo {
    type V = KasaChildInfoView;

    open spec fn view(&self) -> KasaChildInfoView {
        KasaChildInfoView {
            utc_ns: self.utc_ns,
            alias: self.info.alias@,
            id: self.info.id@,
            state: self.info.state,
            emeter: self.emeter,
        }
    }
}

/// How many readings a node hands out per request when none is asked for.
pub const DEFAULT_KASA_BATCH_SIZE: usize = 100;

/// Milliseconds a node waits per reading asked for.
pub const PER_BATCH_MILLISECONDS: usize = 2;

/// Seconds before a request to a node's Kasa endpoint times out.
pub const DEFAULT_KASA_NODE_TIMEOUT_SECONDS: u64 = 10;

/// How many readings a topic keeps: three months of one reading a second.
pub const KASA_MAX_MESSAGES: usize = 7776000;

/// The number of readings a request for `size` readings receives.
pub fn batch_size(size: Option<usize>) -> (n: usize)
    ensures
        n == match size {
            Some(s) => s,
            None => DEFAULT_KASA_BATCH_SIZE,
        },
{
    match size {
        Some(s) => s,
        None => DEFAULT_KASA_BATCH_SIZE,
    }
}

/// How long, in milliseconds, a request for `size` readings waits for them:
/// two milliseconds per reading, one more reading's worth when no size is named.
pub fn batch_timeout_ms(size: Option<usize>) -> (ms: u64)
    requires
        size matches Some(s) ==> s as int * PER_BATCH_MILLISECONDS <= u64::MAX,
    ensures
        ms == match size {
            Some(s) => s as int * PER_BATCH_MILLISECONDS,
            None => (DEFAULT_KASA_BATCH_SIZE + 1) * PER_BATCH_MILLISECONDS,
        },
{
    match size {
        Some(s) => s as u64 * PER_BATCH_MILLISECONDS as u64,
        None => (DEFAULT_KASA_BATCH_SIZE as u64 + 1) * PER_BATCH_MILLISECONDS as u64,
    }
}

/// The JSON array whose elements are the JSON texts `items`.
pub open spec fn json_array_text(items: Seq<Seq<char>>) -> Seq<char> {
    "["@ + strings::joined(items, ","@) + "]"@
}

/// The JSON array whose elements are the JSON texts `items`.
pub fn json_array_of(items: &Vec<String>) -> (s: String)
    ensures
        s@ == json_array_text(strings::strings_view(items@)),
{
    let mut s = String::from_str("[");
    let inner = join_strings(items, ",");
    s.append(inner.as_str());
    s.append("]");
    s
}

/// The route a node serves a strip's readings on: the configured endpoint,
/// or `/` when none is configured.
pub fn kasa_endpoint(api: Option<String>) -> (e: String)
    ensures
        e@ == match api {
            Some(a) => a@,
            None => "/"@,
        },
{
    match api {
        Some(a) => a,
        None => String::from_str("/"),
    }
}

/// The route the API serves a topic's stored readings on.
pub fn kasa_api_route(topic: &str) -> (r: String)
    ensures
        r@ == "/api/kasa/"@ + topic@,
{
    let mut r = String::from_str("/api/kasa/");
    r.append(topic);
    r
}

/// The query string that asks a node for `size` readings.
pub fn batch_query(size: u64) -> (q: String)
    ensures
        q@ == "size="@ + strings::decimal(size as nat),
{
    let mut q = String::from_str("size=");
    strings::push_decimal(&mut q, size);
    q
}

} // verus!
