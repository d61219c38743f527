//! Serving the frontend: rewriting the links of its HTML pages so that they
//! point at the configured API server and base path.

use vstd::prelude::*;
use vstd::string::*;

use crate::strings::{self, contains_str, replace_all};

verus! {

broadcast use vstd::string::group_string_axioms;

/// Wraps a service so that the HTML pages it returns get their links
/// rewritten.
pub struct UpdateBaseUriHtmlService<S> {
    inner: S,
    base: String,
    api_server_ip: String,
    kasa_api: String,
}

/// Produces an [`UpdateBaseUriHtmlService`] around a service.
pub struct UpdateBaseUrilHtmlLayer {
    base: String,
    api_server_ip: String,
    kasa_api: String,
}

/// The opening of the link element that names the API server.
pub open spec fn api_link() -> Seq<char> {
    "<link id=\"api\" href=\""@
}

/// The opening of the link element that names the Kasa API.
pub open spec fn kasa_api_link() -> Seq<char> {
    "<link id=\"kasa_api\" href=\""@
}

/// `content` with its links rewritten: the API link is prefixed with the
/// API server address and the Kasa API link with the Kasa API path; when a
/// base path is set, absolute links, the live-reload event stream and
/// quoted absolute paths are moved under it.
pub open spec fn rewritten(content: Seq<char>, base: Seq<char>, api_server_ip: Seq<char>, kasa_api: Seq<char>) -> Seq<char> {
    let c1 = strings::replaced(content, api_link(), api_link() + api_server_ip);
    let c2 = strings::replaced(c1, kasa_api_link(), kasa_api_link() + kasa_api);
    if base.len() == 0 {
        c2
    } else {
        let c3 = strings::replaced(c2, "href=\"/"@, "href=\""@ + base + "/"@);
        let c4 = strings::replaced(
            c3,
            "<script data-event-stream=\"/_tower-livereload"@,
            "<script data-event-stream=\""@ + base + "/_tower-livereload"@,
        );
        strings::replaced(c4, "'/"@, "'"@ + base + "/"@)
    }
}

/// Without a base path, a page that holds neither the API link nor the Kasa
/// API link is served as it is.
pub proof fn lemma_plain_page_unchanged(content: Seq<char>, api_server_ip: Seq<char>, kasa_api: Seq<char>)
    requires
        !strings::contains_seq(content, api_link()),
        !strings::contains_seq(content, kasa_api_link()),
    ensures
        rewritten(content, Seq::empty(), api_server_ip, kasa_api) == content,
{
    strings::lemma_replaced_absent(content, api_link(), api_link() + api_server_ip);
    strings::lemma_replaced_absent(content, kasa_api_link(), kasa_api_link() + kasa_api);
}

/// `a + b + c`
fn concat3(a: &str, b: &str, c: &str) -> (s: String)
    ensures
        s@ == a@ + b@ + c@,
{
    let mut s = String::from_str(a);
    s.append(b);
    s.append(c);
    s
}

impl Clone for UpdateBaseUrilHtmlLayer {
    fn clone(&self) -> (r: Self)
        ensures
            r.base() == self.base(),
            r.api_server_ip() == self.api_server_ip(),
            r.kasa_api() == self.kasa_api(),
    {
        UpdateBaseUrilHtmlLayer {
            base: self.base.clone(),
            api_server_ip: self.api_server_ip.clone(),
            kasa_api: self.kasa_api.clone(),
        }
    }
}

impl UpdateBaseUrilHtmlLayer {
    /// A layer rewriting links for base path `base`, API server
    /// `api_server_ip` and Kasa API path `kasa_api`.
    pub fn new(base: String, api_server_ip: String, kasa_api: String) -> (l: UpdateBaseUrilHtmlLayer)
        ensures
            l.base() == base@,
            l.api_server_ip() == api_server_ip@,
            l.kasa_api() == kasa_api@,
    {
        UpdateBaseUrilHtmlLayer { base, api_server_ip, kasa_api }
    }

    pub closed spec fn base(&self) -> Seq<char> {
        self.base@
    }

    pub closed spec fn api_server_ip(&self) -> Seq<char> {
        self.api_server_ip@
    }

    pub closed spec fn kasa_api(&self) -> Seq<char> {
        self.kasa_api@
    }

    /// Wraps `inner`.
    pub fn layer<S>(&self, inner: S) -> (s: UpdateBaseUriHtmlService<S>)
        ensures
            s.inner() == inner,
            s.base() == self.base(),
            s.api_server_ip() == self.api_server_ip(),
            s.kasa_api() == self.kasa_api(),
    {
        UpdateBaseUriHtmlService {
            inner,
            base: self.base.clone(),
            api_server_ip: self.api_server_ip.clone(),
            kasa_api: self.kasa_api.clone(),
        }
    }
}

impl<S> UpdateBaseUriHtmlService<S> {
    pub closed spec fn inner(&self) -> S {
        self.inner
    }

    /// The wrapped service and the base path, API server and Kasa API path.
    pub fn into_parts(self) -> (r: (S, String, String, String))
        ensures
            r.0 == self.inner(),
            r.1@ == self.base(),
            r.2@ == self.api_server_ip(),
            r.3@ == self.kasa_api(),
    {
        (self.inner, self.base, self.api_server_ip, self.kasa_api)
    }

    /// A service around `inner` rewriting links for base path `base`, API
    /// server `api_server_ip` and Kasa API path `kasa_api`.
    pub fn from_parts(inner: S, base: String, api_server_ip: String, kasa_api: String) -> (s: Self)
        ensures
            s.inner() == inner,
            s.base() == base@,
            s.api_server_ip() == api_server_ip@,
            s.kasa_api() == kasa_api@,
    {
        UpdateBaseUriHtmlService { inner, base, api_server_ip, kasa_api }
    }

    pub closed spec fn base(&self) -> Seq<char> {
        self.base@
    }

    pub closed spec fn api_server_ip(&self) -> Seq<char> {
        self.api_server_ip@
    }

    pub closed spec fn kasa_api(&self) -> Seq<char> {
        self.kasa_api@
    }

    /// The HTML page `content` with its links rewritten.
    pub fn rewrite_html(&self, content: &str) -> (out: String)
        ensures
            out@ == rewritten(content@, self.base(), self.api_server_ip(), self.kasa_api()),
    {
        let link = "<link id=\"api\" href=\"";
        let kasa_link = "<link id=\"kasa_api\" href=\"";
        proof {
            reveal_strlit("<link id=\"api\" href=\"");
            reveal_strlit("<link id=\"kasa_api\" href=\"");
            reveal_strlit("href=\"/");
            reveal_strlit("<script data-event-stream=\"/_tower-livereload");
            reveal_strlit("'/");
            reveal_strlit("");
        }
        let with_api = concat3(link, self.api_server_ip.as_str(), "");
        assert(with_api@ =~= api_link() + self.api_server_ip@);
        let c1 = replace_all(content, link, with_api.as_str());
        let with_kasa = concat3(kasa_link, self.kasa_api.as_str(), "");
        assert(with_kasa@ =~= kasa_api_link() + self.kasa_api@);
        let c2 = replace_all(c1.as_str(), kasa_link, with_kasa.as_str());
        if self.base.as_str().is_empty() {
            return c2;
        }
        let to3 = concat3("href=\"", self.base.as_str(), "/");
        let c3 = replace_all(c2.as_str(), "href=\"/", to3.as_str());
        let to4 = concat3("<script data-event-stream=\"", self.base.as_str(), "/_tower-livereload");
        let c4 = replace_all(c3.as_str(), "<script data-event-stream=\"/_tower-livereload", to4.as_str());
        let to5 = concat3("'", self.base.as_str(), "/");
        replace_all(c4.as_str(), "'/", to5.as_str())
    }

    /// The body to send for an HTML page whose collected bytes are `body`
    /// (`None` when collecting failed): the rewritten page, or `None` when
    /// the page cannot be read, which is answered with an internal error.
    pub fn html_body(&self, body: Option<Vec<u8>>) -> (out: Option<String>)
        ensures
            match body {
                None => out is None,
                Some(b) => if vstd::utf8::valid_utf8(b@) {
                    out matches Some(s) && s@ == rewritten(
                        vstd::utf8::decode_utf8(b@),
                        self.base(),
                        self.api_server_ip(),
                        self.kasa_api(),
                    )
                } else {
                    out is None
                },
            },
    {
        let bytes = match body {
            Some(b) => b,
            None => return None,
        };
        match strings::utf8_string(bytes) {
            Some(content) => Some(self.rewrite_html(content.as_str())),
            None => None,
        }
    }
}

/// Whether a response with content type `content_type` is an HTML page.
pub fn is_html(content_type: Option<&str>) -> (r: bool)
    ensures
        r == match content_type {
            Some(ct) => strings::contains_seq(ct@, "text/html"@),
            None => false,
        },
{
    match content_type {
        Some(ct) => contains_str(ct, "text/html"),
        None => false,
    }
}

} // verus!
