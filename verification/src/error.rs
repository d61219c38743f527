//! Generic error.

use vstd::prelude::*;
use vstd::string::*;

verus! {

/// A generic error that carries a message.
#[derive(Debug)]
pub struct NodeError {
    pub _msg: String,
}

/// The text `s` as std's `Debug` writes a string: quoted, with quotes,
/// backslashes and control characters escaped.
pub uninterp spec fn debug_text(s: Seq<char>) -> Seq<char>;

/// Writes `s` with std's `Debug` for `str` (`format!("{:?}", s)`), which
/// depends on the text alone; its result is named `debug_text`.
#[verifier::external_body]
fn debug_quoted(s: &str) -> (r: String)
    ensures
        r@ == debug_text(s@),
{
    format!("{:?}", s)
}

/// How an error with message `msg` is displayed: the pretty `Debug` form of
/// the error.
pub open spec fn displayed(msg: Seq<char>) -> Seq<char> {
    "NodeError {\n    _msg: "@ + debug_text(msg) + ",\n}"@
}

impl NodeError {
    /// Creates a boxed error whose message is `msg`.
    pub fn new(msg: &str) -> (e: Box<NodeError>)
        ensures
            e._msg@ == msg@,
    {
        Box::new(NodeError { _msg: String::from_str(msg) })
    }

    /// The message held by the error.
    pub fn message(&self) -> (s: String)
        ensures
            s@ == self._msg@,
    {
        self._msg.clone()
    }

    /// The error as it is displayed: its pretty `Debug` form.
    pub fn to_string(&self) -> (s: String)
        ensures
            s@ == displayed(self._msg@),
    {
        let mut s = String::from_str("NodeError {\n    _msg: ");
        let quoted = debug_quoted(self._msg.as_str());
        s.append(quoted.as_str());
        s.append(",\n}");
        s
    }
}

} // verus!
