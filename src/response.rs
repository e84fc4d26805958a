//! The success envelope built by handlers, and the response mapper that
//! replaces any failed response by a client-safe error envelope.

use crate::action::RequestAction;
use crate::error::{
    client_code, kind_name, lemma_code_hides_kind_names, occurs_in, status_and_error_of, APIError,
    ClientError,
};
use crate::uuid::{display_of, is_identifier, Prefixed, Uuid, UuidView};
use vstd::prelude::*;

verus! {

/// HTTP status of a successful response.
pub const STATUS_OK: u16 = 200;

/// Handler output: `{ "data": ..., "actions": [...] }`, sent with a status.
#[derive(Debug)]
pub struct APIResponse<T> {
    status_code: u16,
    data: T,
    actions: Vec<RequestAction>,
}

impl<T> APIResponse<T> {
    /// The status the response is sent with.
    pub closed spec fn spec_status(&self) -> u16 {
        self.status_code
    }

    /// The payload.
    pub closed spec fn spec_data(&self) -> T {
        self.data
    }

    /// The attached actions, in order.
    pub closed spec fn spec_actions(&self) -> Seq<RequestAction> {
        self.actions@
    }

    /// A response with status 200, the given payload and no actions.
    pub fn new(data: T) -> (r: Self)
        ensures
            r.spec_status() == STATUS_OK,
            r.spec_data() == data,
            r.spec_actions() == Seq::<RequestAction>::empty(),
    {
        APIResponse { status_code: STATUS_OK, data, actions: Vec::new() }
    }

    /// Replaces the actions.
    pub fn with_actions(self, actions: Vec<RequestAction>) -> (r: Self)
        ensures
            r.spec_status() == self.spec_status(),
            r.spec_data() == self.spec_data(),
            r.spec_actions() == actions@,
    {
        APIResponse { actions, ..self }
    }

    /// Appends one action.
    pub fn with_action(self, action: RequestAction) -> (r: Self)
        ensures
            r.spec_status() == self.spec_status(),
            r.spec_data() == self.spec_data(),
            r.spec_actions() == self.spec_actions().push(action),
    {
        let mut actions = self.actions;
        actions.push(action);
        APIResponse { actions, ..self }
    }

    /// Replaces the status.
    pub fn with_status(self, status_code: u16) -> (r: Self)
        ensures
            r.spec_status() == status_code,
            r.spec_data() == self.spec_data(),
            r.spec_actions() == self.spec_actions(),
    {
        APIResponse { status_code, ..self }
    }

    /// Status, payload and actions, for serialisation.
    pub fn into_parts(self) -> (r: (u16, T, Vec<RequestAction>))
        ensures
            r.0 == self.spec_status(),
            r.1 == self.spec_data(),
            r.2@ == self.spec_actions(),
    {
        (self.status_code, self.data, self.actions)
    }
}

/// The body sent in place of a failed response:
/// `{ "req_uuid": ..., "error": { "type": ... }, "actions": [...] }`.
#[derive(Debug)]
pub struct ClientErrorEnvelope {
    pub req_uuid: Uuid<Prefixed>,
    pub error: ClientError,
    pub actions: Vec<RequestAction>,
}

/// A client error envelope and the status it is sent with.
#[derive(Debug)]
pub struct ErrorResponse {
    pub status: u16,
    pub body: ClientErrorEnvelope,
}

/// The response mapper's decision for one request.
#[derive(Debug)]
pub struct MappedResponse {
    /// The fresh correlation id of the request.
    pub req_uuid: Uuid<Prefixed>,
    /// The response that replaces the handler's, if the handler failed.
    pub error_response: Option<ErrorResponse>,
    /// The public code sent, for the request log.
    pub client_error: Option<ClientError>,
}

/// `r` is the error response for `service_error` under correlation id `id`
/// with the actions `actions`: `None` where nothing failed; otherwise the
/// mapped status and public code, the id, and the actions (none if none were
/// attached). Nothing else of the internal error reaches it.
pub open spec fn is_error_response_for(
    r: Option<ErrorResponse>,
    id: UuidView,
    service_error: Option<APIError>,
    actions: Option<Seq<RequestAction>>,
) -> bool {
    match service_error {
        None => r is None,
        Some(e) => match r {
            None => false,
            Some(resp) => {
                &&& resp.status == status_and_error_of(e).0
                &&& resp.body.error == status_and_error_of(e).1
                &&& resp.body.req_uuid@ == id
                &&& resp.body.actions@ == match actions {
                    Some(a) => a,
                    None => Seq::<RequestAction>::empty(),
                }
            },
        },
    }
}

/// Builds the client-safe error response for a handler outcome. Takes the
/// correlation id, the internal error the handler failed with (if any) and
/// the actions it attached (if any).
pub fn client_error_response(
    req_uuid: &Uuid<Prefixed>,
    service_error: Option<APIError>,
    actions: Option<Vec<RequestAction>>,
) -> (r: Option<ErrorResponse>)
    ensures
        is_error_response_for(
            r,
            req_uuid@,
            service_error,
            match actions {
                Some(a) => Some(a@),
                None => None,
            },
        ),
{
    match service_error {
        None => None,
        Some(e) => {
            let (status, error) = e.client_status_and_error();
            let actions = match actions {
                Some(a) => a,
                None => Vec::new(),
            };
            Some(
                ErrorResponse {
                    status,
                    body: ClientErrorEnvelope { req_uuid: req_uuid.clone(), error, actions },
                },
            )
        },
    }
}

/// The terminal stage of the pipeline: draws a fresh correlation id in the
/// `req` namespace and, if the handler failed, builds the error response
/// that replaces its response.
pub fn main_response_mapper(
    service_error: Option<APIError>,
    actions: Option<Vec<RequestAction>>,
) -> (r: MappedResponse)
    ensures
        r.req_uuid@.prefix == Some("req"@),
        is_identifier(r.req_uuid@.identifier),
        is_error_response_for(
            r.error_response,
            r.req_uuid@,
            service_error,
            match actions {
                Some(a) => Some(a@),
                None => None,
            },
        ),
        r.client_error == match service_error {
            Some(e) => Some(status_and_error_of(e).1),
            None => None,
        },
{
    let req_uuid = Uuid::prefixed("req");
    let error_response = client_error_response(&req_uuid, service_error, actions);
    let client_error = match service_error {
        Some(e) => Some(e.client_status_and_error().1),
        None => None,
    };
    MappedResponse { req_uuid, error_response, client_error }
}

/// A correlation id in the `req` namespace never spells a kind name: every
/// run of nine or more characters in it holds the `:` or a `-`.
pub proof fn lemma_correlation_id_hides_kind_names(id: UuidView, k: APIError)
    requires
        id.prefix == Some("req"@),
        is_identifier(id.identifier),
    ensures
        !occurs_in(kind_name(k), display_of(id)),
{
    reveal_strlit("req");
    reveal_strlit(":");
    reveal_strlit("LoginFail");
    reveal_strlit("AuthFailNoAuthTokenCookie");
    reveal_strlit("AuthFailTokenWrongFormat");
    reveal_strlit("AuthFailCtxNotInRequestExt");
    let name = kind_name(k);
    let d = display_of(id);
    assert(d == "req"@ + ":"@ + id.identifier);
    assert(d.len() == 27);
    assert(name.len() >= 9);
    assert(forall|j: int| 0 <= j < name.len() ==> #[trigger] name[j] != '-' && name[j] != ':');
    if occurs_in(name, d) {
        let i = choose|i: int|
            0 <= i && i + name.len() <= d.len() && #[trigger] d.subrange(i, i + name.len())
                == name;
        let w = d.subrange(i, i + name.len());
        if i <= 3 {
            assert(d[3] == ':');
            assert(w[3 - i] == d[3]);
        } else {
            let j = i - 4;
            let s: int = if j <= 5 {
                5
            } else if j <= 11 {
                11
            } else {
                17
            };
            assert(id.identifier[s] == '-');
            assert(d[4 + s] == id.identifier[s]);
            assert(w[4 + s - i] == d[4 + s]);
        }
    }
}

/// The error envelope discloses nothing of the internal error but its public
/// code: its code text and its correlation id hold no kind name, and two
/// kinds with the same public code give the same response.
pub proof fn lemma_envelope_leak_free(
    r1: Option<ErrorResponse>,
    r2: Option<ErrorResponse>,
    id: UuidView,
    e1: APIError,
    e2: APIError,
    actions: Option<Seq<RequestAction>>,
    k: APIError,
)
    requires
        id.prefix == Some("req"@),
        is_identifier(id.identifier),
        is_error_response_for(r1, id, Some(e1), actions),
        is_error_response_for(r2, id, Some(e2), actions),
    ensures
        !occurs_in(kind_name(k), client_code(r1->Some_0.body.error)),
        !occurs_in(kind_name(k), display_of(r1->Some_0.body.req_uuid@)),
        status_and_error_of(e1) == status_and_error_of(e2) ==> {
            &&& r1->Some_0.status == r2->Some_0.status
            &&& r1->Some_0.body.error == r2->Some_0.body.error
            &&& r1->Some_0.body.req_uuid@ == r2->Some_0.body.req_uuid@
            &&& r1->Some_0.body.actions@ == r2->Some_0.body.actions@
        },
{
    lemma_code_hides_kind_names(e1, k);
    lemma_correlation_id_hides_kind_names(id, k);
}

} // verus!
