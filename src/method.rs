//! HTTP methods of action affordances. Only the standard verbs exist, and
//! each is written as its canonical upper-case name.

use vstd::prelude::*;

verus! {

/// The standard HTTP verbs.
#[derive(Clone, Copy, Debug, PartialEq, Eq, Structural)]
pub enum Method {
    Options,
    Get,
    Post,
    Put,
    Delete,
    Head,
    Trace,
    Connect,
    Patch,
}

/// The canonical upper-case name of a verb.
pub open spec fn method_name(m: Method) -> Seq<char> {
    match m {
        Method::Options => "OPTIONS"@,
        Method::Get => "GET"@,
        Method::Post => "POST"@,
        Method::Put => "PUT"@,
        Method::Delete => "DELETE"@,
        Method::Head => "HEAD"@,
        Method::Trace => "TRACE"@,
        Method::Connect => "CONNECT"@,
        Method::Patch => "PATCH"@,
    }
}

impl Method {
    /// The canonical upper-case name of the verb.
    pub fn as_str(&self) -> (r: &'static str)
        ensures
            r@ == method_name(*self),
    {
        match self {
            Method::Options => "OPTIONS",
            Method::Get => "GET",
            Method::Post => "POST",
            Method::Put => "PUT",
            Method::Delete => "DELETE",
            Method::Head => "HEAD",
            Method::Trace => "TRACE",
            Method::Connect => "CONNECT",
            Method::Patch => "PATCH",
        }
    }
}

/// The method of an action, serialised as its upper-case name.
#[derive(Clone, Copy, Debug, PartialEq, Eq, Structural)]
pub struct HTTPMethod(pub Method);

impl HTTPMethod {
    /// Wraps a verb.
    pub fn new(method: Method) -> (r: Self)
        ensures
            r.0 == method,
    {
        HTTPMethod(method)
    }

    /// The wrapped verb.
    pub fn method(&self) -> (r: Method)
        ensures
            r == self.0,
    {
        self.0
    }

    /// The serialised form: the verb's canonical upper-case name.
    pub fn as_str(&self) -> (r: &'static str)
        ensures
            r@ == method_name(self.0),
    {
        self.0.as_str()
    }
}

impl Default for HTTPMethod {
    /// `GET`.
    fn default() -> (r: Self)
        ensures
            r.0 == Method::Get,
    {
        HTTPMethod(Method::Get)
    }
}

} // verus!
