//! The console's file server: which file of the built console a request
//! path is answered with. Paths follow `std::path`, whose operations are
//! named below as functions of the paths' texts.

use vstd::prelude::*;
use vstd::string::*;

use crate::strings::{concat, opt_text};

verus! {

broadcast use vstd::string::group_string_axioms;

/// Whether the paths `a` and `b` are equal, component by component
/// (`PartialEq` on `std::path::Path`).
pub uninterp spec fn path_eq(a: Seq<char>, b: Seq<char>) -> bool;

/// Whether `base` is a prefix of the path `a`, whole components only
/// (`std::path::Path::starts_with`).
pub uninterp spec fn path_starts_with(a: Seq<char>, base: Seq<char>) -> bool;

/// The path `a` without its prefix `base` (`std::path::Path::strip_prefix`),
/// `None` where `base` is not a prefix of it.
pub uninterp spec fn path_strip_prefix(a: Seq<char>, base: Seq<char>) -> Option<Seq<char>>;

/// The path `a` without its last component (`std::path::Path::parent`),
/// `None` where it has none.
pub uninterp spec fn path_parent(a: Seq<char>) -> Option<Seq<char>>;

/// The path `a` with `b` pushed onto it (`std::path::PathBuf::push`): `b`
/// appended as further components, or `b` itself where it is absolute.
pub uninterp spec fn path_push(a: Seq<char>, b: Seq<char>) -> Seq<char>;

/// Compares two paths with `==` on `std::path::Path`.
/// The contract claims no more than that the result is [`path_eq`] of the arguments.
#[verifier::external_body]
fn paths_equal(a: &str, b: &str) -> (r: bool)
    ensures
        r == path_eq(a@, b@),
{
    std::path::Path::new(a) == std::path::Path::new(b)
}

/// Tests a prefix with `std::path::Path::starts_with`.
/// The contract claims no more than that the result is [`path_starts_with`] of the arguments.
#[verifier::external_body]
fn path_has_prefix(a: &str, base: &str) -> (r: bool)
    ensures
        r == path_starts_with(a@, base@),
{
    std::path::Path::new(a).starts_with(base)
}

/// Strips a prefix with `std::path::Path::strip_prefix`, which std documents
/// as failing exactly where `base` is not a prefix (`starts_with` is false).
/// The paths here are built from text, so the rest is text too.
/// The contract claims that the result is [`path_strip_prefix`] of the
/// arguments, present exactly where [`path_starts_with`] holds of them.
#[verifier::external_body]
fn path_without_prefix(a: &str, base: &str) -> (r: Option<String>)
    ensures
        opt_text(r) == path_strip_prefix(a@, base@),
        r is Some <==> path_starts_with(a@, base@),
{
    match std::path::Path::new(a).strip_prefix(base) {
        Ok(p) => Some(p.to_string_lossy().into_owned()),
        Err(_) => None,
    }
}

/// Takes the parent with `std::path::Path::parent`.
/// The contract claims no more than that the result is [`path_parent`] of the arguments.
#[verifier::external_body]
fn path_parent_of(a: &str) -> (r: Option<String>)
    ensures
        opt_text(r) == path_parent(a@),
{
    match std::path::Path::new(a).parent() {
        Some(p) => Some(p.to_string_lossy().into_owned()),
        None => None,
    }
}

/// Pushes `b` onto `a` with `std::path::PathBuf::push`.
/// The contract claims no more than that the result is [`path_push`] of the arguments.
#[verifier::external_body]
fn path_pushed(a: &str, b: &str) -> (r: String)
    ensures
        r@ == path_push(a@, b@),
{
    let mut p = std::path::PathBuf::from(a);
    p.push(b);
    p.to_string_lossy().into_owned()
}

/// The file a request for `request` is answered with, the console being
/// built under `root`: the index page for the empty path; a static asset
/// from the build for `_next/static/..`; a public file for a path of one
/// component; the build directory otherwise. `None` where the request path
/// has no parent to look at.
pub open spec fn console_file(root: Seq<char>, request: Seq<char>) -> Option<Seq<char>> {
    let base = root + "/.next"@;
    if path_eq(request, ""@) {
        Some(path_push(base, "server/app/index.html"@))
    } else if path_starts_with(request, "_next/static"@) {
        match path_strip_prefix(request, "_next"@) {
            Some(rest) => Some(path_push(base, rest)),
            None => None,
        }
    } else {
        match path_parent(request) {
            None => None,
            Some(p) => if path_eq(p, ""@) {
                Some(path_push(path_push(base, root + "/public"@), request))
            } else {
                Some(base)
            },
        }
    }
}

/// Resolves a request path, as [`console_file`] says.
pub fn console_file_path(root: &str, request: &str) -> (r: Option<String>)
    ensures
        opt_text(r) == console_file(root@, request@),
{
    let base = concat(root, "/.next");
    if paths_equal(request, "") {
        return Some(path_pushed(base.as_str(), "server/app/index.html"));
    }
    if path_has_prefix(request, "_next/static") {
        return match path_without_prefix(request, "_next") {
            Some(rest) => Some(path_pushed(base.as_str(), rest.as_str())),
            None => None,
        };
    }
    match path_parent_of(request) {
        None => None,
        Some(p) => {
            if paths_equal(p.as_str(), "") {
                let public = concat(root, "/public");
                let with_public = path_pushed(base.as_str(), public.as_str());
                Some(path_pushed(with_public.as_str(), request))
            } else {
                Some(base)
            }
        },
    }
}

} // verus!
