//! URLs, held as their text. Parsing, joining and editing them is the work
//! of the `url` crate; the names below stand for what its functions return,
//! each as a function of the text the URL was parsed from.

use vstd::prelude::*;
use vstd::string::*;

verus! {

/// Serialization of the URL that `url::Url::parse` reads from `input`, or
/// `None` where it refuses the input.
pub uninterp spec fn url_parse(input: Seq<char>) -> Option<Seq<char>>;

/// Serialization of `input` resolved against the URL parsed from `base`
/// (`url::Url::join`), or `None` where either step fails.
pub uninterp spec fn url_join(base: Seq<char>, input: Seq<char>) -> Option<Seq<char>>;

/// Path of the URL parsed from `input` (`url::Url::path`), or `None` where
/// `input` does not parse.
pub uninterp spec fn url_path(input: Seq<char>) -> Option<Seq<char>>;

/// Host of the URL parsed from `input` (`url::Url::host_str`), or `None`
/// where `input` does not parse.
pub uninterp spec fn url_host(input: Seq<char>) -> Option<Option<Seq<char>>>;

/// Explicit port of the URL parsed from `input` (`url::Url::port`), or
/// `None` where `input` does not parse.
pub uninterp spec fn url_port(input: Seq<char>) -> Option<Option<u16>>;

/// Serialization of the URL parsed from `input` after one more query pair
/// (`url::form_urlencoded::Serializer::append_pair` on `query_pairs_mut`),
/// or `None` where `input` does not parse.
pub uninterp spec fn url_append_pair(input: Seq<char>, name: Seq<char>, value: Seq<char>) -> Option<Seq<char>>;

/// Serialization of the URL parsed from `input` with its query replaced by
/// `query` (`url::Url::set_query`), or `None` where `input` does not parse.
pub uninterp spec fn url_set_query(input: Seq<char>, query: Seq<char>) -> Option<Seq<char>>;

/// Serialization of the URL parsed from `input` with its port set to `port`
/// (`url::Url::set_port`), or `None` where `input` does not parse or the
/// URL cannot carry a port.
pub uninterp spec fn url_set_port(input: Seq<char>, port: u16) -> Option<Seq<char>>;

/// Serialization of the URL parsed from `input` with its path replaced by
/// `path` (`url::Url::set_path`), or `None` where `input` does not parse.
pub uninterp spec fn url_set_path(input: Seq<char>, path: Seq<char>) -> Option<Seq<char>>;

/// Bound on the UTF-8 length of what is handed to the `url` crate: the
/// crate indexes a serialization with `u32` and panics beyond that range,
/// and percent-encoding at most triples the input.
pub const MAX_URL_INPUT: usize = 0x1000_0000;

/// Length of `s` in UTF-8 bytes.
pub open spec fn byte_len(s: Seq<char>) -> nat {
    vstd::utf8::encode_utf8(s).len()
}

/// Whether `s` is short enough to hand to the `url` crate.
pub fn fits_url(s: &str) -> (b: bool)
    ensures
        b == (byte_len(s@) < MAX_URL_INPUT),
{
    s.as_bytes().len() < MAX_URL_INPUT
}

/// Parses `input` with `url::Url::parse` and gives back its serialization.
/// The contract claims no more than that the result is [`url_parse`] of the arguments.
#[verifier::external_body]
pub(crate) fn parse_url(input: &str) -> (r: Option<String>)
    requires
        byte_len(input@) < MAX_URL_INPUT,
    ensures
        r matches Some(s) ==> url_parse(input@) == Some(s@),
        r is None ==> url_parse(input@) is None,
{
    match url::Url::parse(input) {
        Ok(u) => Some(String::from(u)),
        Err(_) => None,
    }
}

/// Resolves `input` against `base` with `url::Url::join`.
/// The contract claims no more than that the result is [`url_join`] of the arguments.
#[verifier::external_body]
pub(crate) fn join_url(base: &str, input: &str) -> (r: Option<String>)
    requires
        byte_len(base@) + byte_len(input@) < MAX_URL_INPUT,
    ensures
        r matches Some(s) ==> url_join(base@, input@) == Some(s@),
        r is None ==> url_join(base@, input@) is None,
{
    match url::Url::parse(base) {
        Ok(b) => match b.join(input) {
            Ok(u) => Some(String::from(u)),
            Err(_) => None,
        },
        Err(_) => None,
    }
}

/// Path of the URL parsed from `input`, by `url::Url::path`.
/// The contract claims no more than that the result is [`url_path`] of the arguments.
#[verifier::external_body]
pub(crate) fn path_of_url(input: &str) -> (r: Option<String>)
    requires
        byte_len(input@) < MAX_URL_INPUT,
    ensures
        r matches Some(s) ==> url_path(input@) == Some(s@),
        r is None ==> url_path(input@) is None,
{
    match url::Url::parse(input) {
        Ok(u) => Some(u.path().to_string()),
        Err(_) => None,
    }
}

/// Host of the URL parsed from `input`, by `url::Url::host_str`.
/// The contract claims no more than that the result is [`url_host`] of the arguments.
#[verifier::external_body]
pub(crate) fn host_of_url(input: &str) -> (r: Option<Option<String>>)
    requires
        byte_len(input@) < MAX_URL_INPUT,
    ensures
        r matches Some(Some(s)) ==> url_host(input@) == Some(Some(s@)),
        r matches Some(None) ==> url_host(input@) == Some(None::<Seq<char>>),
        r is None ==> url_host(input@) is None,
{
    match url::Url::parse(input) {
        Ok(u) => match u.host_str() {
            Some(h) => Some(Some(h.to_string())),
            None => Some(None),
        },
        Err(_) => None,
    }
}

/// Explicit port of the URL parsed from `input`, by `url::Url::port`.
/// The contract claims no more than that the result is [`url_port`] of the arguments.
#[verifier::external_body]
pub(crate) fn port_of_url(input: &str) -> (r: Option<Option<u16>>)
    requires
        byte_len(input@) < MAX_URL_INPUT,
    ensures
        url_port(input@) == r,
{
    match url::Url::parse(input) {
        Ok(u) => Some(u.port()),
        Err(_) => None,
    }
}

/// Appends the query pair `name=value` to the URL parsed from `input`, with
/// `append_pair` on `url::Url::query_pairs_mut`.
/// The contract claims no more than that the result is [`url_append_pair`] of the arguments.
#[verifier::external_body]
pub(crate) fn append_query_pair(input: &str, name: &str, value: &str) -> (r: Option<String>)
    requires
        byte_len(input@) + byte_len(name@) + byte_len(value@) < MAX_URL_INPUT,
    ensures
        r matches Some(s) ==> url_append_pair(input@, name@, value@) == Some(s@),
        r is None ==> url_append_pair(input@, name@, value@) is None,
{
    match url::Url::parse(input) {
        Ok(mut u) => {
            u.query_pairs_mut().append_pair(name, value);
            Some(String::from(u))
        },
        Err(_) => None,
    }
}

/// Replaces the query of the URL parsed from `input`, with `url::Url::set_query`.
/// The contract claims no more than that the result is [`url_set_query`] of the arguments.
#[verifier::external_body]
pub(crate) fn with_query(input: &str, query: &str) -> (r: Option<String>)
    requires
        byte_len(input@) + byte_len(query@) < MAX_URL_INPUT,
    ensures
        r matches Some(s) ==> url_set_query(input@, query@) == Some(s@),
        r is None ==> url_set_query(input@, query@) is None,
{
    match url::Url::parse(input) {
        Ok(mut u) => {
            u.set_query(Some(query));
            Some(String::from(u))
        },
        Err(_) => None,
    }
}

/// Sets the port of the URL parsed from `input`, with `url::Url::set_port`.
/// The contract claims no more than that the result is [`url_set_port`] of the arguments.
#[verifier::external_body]
pub(crate) fn with_port(input: &str, port: u16) -> (r: Option<String>)
    requires
        byte_len(input@) < MAX_URL_INPUT,
    ensures
        r matches Some(s) ==> url_set_port(input@, port) == Some(s@),
        r is None ==> url_set_port(input@, port) is None,
{
    match url::Url::parse(input) {
        Ok(mut u) => match u.set_port(Some(port)) {
            Ok(()) => Some(String::from(u)),
            Err(()) => None,
        },
        Err(_) => None,
    }
}

/// Replaces the path of the URL parsed from `input`, with `url::Url::set_path`.
/// The contract claims no more than that the result is [`url_set_path`] of the arguments.
#[verifier::external_body]
pub(crate) fn with_path(input: &str, path: &str) -> (r: Option<String>)
    requires
        byte_len(input@) + byte_len(path@) < MAX_URL_INPUT,
    ensures
        r matches Some(s) ==> url_set_path(input@, path@) == Some(s@),
        r is None ==> url_set_path(input@, path@) is None,
{
    match url::Url::parse(input) {
        Ok(mut u) => {
            u.set_path(path);
            Some(String::from(u))
        },
        Err(_) => None,
    }
}

} // verus!
