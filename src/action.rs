//! Action affordances: descriptions of follow-up requests that a client may
//! make, attached to responses.

use crate::method::{HTTPMethod, Method};
use crate::uuid::{is_identifier, Prefixed, Uuid, UuidView};
use vstd::prelude::*;

verus! {

/// A suggested follow-up request.
#[derive(Debug)]
pub struct RequestAction {
    pub uuid: Uuid<Prefixed>,
    pub title: String,
    pub description: String,
    pub url: String,
    pub method: HTTPMethod,
}

/// An identifier freshly generated in the `action` namespace.
pub open spec fn is_fresh_action_id(v: UuidView) -> bool {
    v.prefix == Some("action"@) && is_identifier(v.identifier)
}

impl RequestAction {
    /// A builder with nothing set and method `GET`.
    pub fn builder() -> (r: ResponseActionBuilder)
        ensures
            r@ == empty_builder(),
    {
        ResponseActionBuilder::new()
    }

    /// An action with a fresh id in the `action` namespace.
    pub fn new(title: &str, description: &str, url: &str, method: Method) -> (r: Self)
        ensures
            is_fresh_action_id(r.uuid@),
            r.title@ == title@,
            r.description@ == description@,
            r.url@ == url@,
            r.method.0 == method,
    {
        RequestAction {
            uuid: Uuid::prefixed("action"),
            title: String::from_str(title),
            description: String::from_str(description),
            url: String::from_str(url),
            method: HTTPMethod::new(method),
        }
    }
}

impl Clone for RequestAction {
    fn clone(&self) -> (r: Self)
        ensures
            r.uuid@ == self.uuid@,
            r.title@ == self.title@,
            r.description@ == self.description@,
            r.url@ == self.url@,
            r.method == self.method,
    {
        RequestAction {
            uuid: self.uuid.clone(),
            title: self.title.clone(),
            description: self.description.clone(),
            url: self.url.clone(),
            method: self.method,
        }
    }
}

/// What a builder holds so far.
pub struct BuilderView {
    pub uuid: Option<UuidView>,
    pub title: Option<Seq<char>>,
    pub description: Option<Seq<char>>,
    pub url: Option<Seq<char>>,
    pub method: HTTPMethod,
}

/// A builder with nothing set and method `GET`.
pub open spec fn empty_builder() -> BuilderView {
    BuilderView {
        uuid: None,
        title: None,
        description: None,
        url: None,
        method: HTTPMethod(Method::Get),
    }
}

/// Step-by-step construction of a `RequestAction`; title, description and
/// url must be set before `build`.
#[derive(Debug)]
pub struct ResponseActionBuilder {
    uuid: Option<Uuid<Prefixed>>,
    title: Option<String>,
    description: Option<String>,
    url: Option<String>,
    method: HTTPMethod,
}

impl View for ResponseActionBuilder {
    type V = BuilderView;

    closed spec fn view(&self) -> BuilderView {
        BuilderView {
            uuid: match self.uuid {
                Some(u) => Some(u@),
                None => None,
            },
            title: match self.title {
                Some(s) => Some(s@),
                None => None,
            },
            description: match self.description {
                Some(s) => Some(s@),
                None => None,
            },
            url: match self.url {
                Some(s) => Some(s@),
                None => None,
            },
            method: self.method,
        }
    }
}

impl ResponseActionBuilder {
    /// A builder with nothing set and method `GET`.
    pub fn new() -> (r: Self)
        ensures
            r@ == empty_builder(),
    {
        ResponseActionBuilder {
            uuid: None,
            title: None,
            description: None,
            url: None,
            method: HTTPMethod::new(Method::Get),
        }
    }

    /// Sets the id instead of a generated one.
    pub fn with_uuid(self, uuid: Uuid<Prefixed>) -> (r: Self)
        ensures
            r@ == (BuilderView { uuid: Some(uuid@), ..self@ }),
    {
        ResponseActionBuilder { uuid: Some(uuid), ..self }
    }

    /// Sets the title.
    pub fn with_title(self, title: &str) -> (r: Self)
        ensures
            r@ == (BuilderView { title: Some(title@), ..self@ }),
    {
        ResponseActionBuilder { title: Some(String::from_str(title)), ..self }
    }

    /// Sets the description.
    pub fn with_description(self, description: &str) -> (r: Self)
        ensures
            r@ == (BuilderView { description: Some(description@), ..self@ }),
    {
        ResponseActionBuilder { description: Some(String::from_str(description)), ..self }
    }

    /// Sets the target url.
    pub fn with_url(self, url: &str) -> (r: Self)
        ensures
            r@ == (BuilderView { url: Some(url@), ..self@ }),
    {
        ResponseActionBuilder { url: Some(String::from_str(url)), ..self }
    }

    /// Sets the method.
    pub fn with_method(self, method: Method) -> (r: Self)
        ensures
            r@ == (BuilderView { method: HTTPMethod(method), ..self@ }),
    {
        ResponseActionBuilder { method: HTTPMethod::new(method), ..self }
    }

    /// Whether title, description and url are all set, so that `build` may
    /// be called.
    pub fn is_complete(&self) -> (r: bool)
        ensures
            r == (self@.title is Some && self@.description is Some && self@.url is Some),
    {
        self.title.is_some() && self.description.is_some() && self.url.is_some()
    }

    /// The action: the fields set, and a fresh id in the `action` namespace
    /// where none was set.
    pub fn build(self) -> (r: RequestAction)
        requires
            self@.title is Some,
            self@.description is Some,
            self@.url is Some,
        ensures
            match self@.uuid {
                Some(u) => r.uuid@ == u,
                None => is_fresh_action_id(r.uuid@),
            },
            Some(r.title@) == self@.title,
            Some(r.description@) == self@.description,
            Some(r.url@) == self@.url,
            r.method == self@.method,
    {
        let uuid = match self.uuid {
            Some(u) => u,
            None => Uuid::prefixed("action"),
        };
        match (self.title, self.description, self.url) {
            (Some(title), Some(description), Some(url)) => RequestAction {
                uuid,
                title,
                description,
                url,
                method: self.method,
            },
            _ => {
                assert(false);
                RequestAction::new("", "", "", Method::Get)
            },
        }
    }
}

impl Default for ResponseActionBuilder {
    fn default() -> (r: Self)
        ensures
            r@ == empty_builder(),
    {
        Self::new()
    }
}

} // verus!
