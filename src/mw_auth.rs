//! Context resolution (once per request), the per-request state that holds
//! its outcome, the guard of authenticated routes and the handler-facing
//! extractor.

use crate::ctx::Ctx;
use crate::error::{status_and_error_of, APIError, ClientError, Result, STATUS_FORBIDDEN};
use crate::token::{parse_token, token_accepted, token_parts};
use vstd::prelude::*;

verus! {

/// What the context resolver decided for one request.
#[derive(Clone, Copy, Debug)]
pub struct CtxResolution {
    /// The outcome stored for the rest of the request.
    pub ctx_result: Result<Ctx>,
    /// Whether the session cookie is to be removed as corrupt.
    pub remove_cookie: bool,
}

/// `res` is the outcome of resolving the session token `token` (`None`: no
/// cookie): no cookie is `AuthFailNoAuthTokenCookie`, a token that does not
/// parse is `AuthFailTokenWrongFormat`, and a token that parses gives the
/// context of its user id.
pub open spec fn resolves_to(token: Option<Seq<char>>, res: Result<Ctx>) -> bool {
    match token {
        None => res == Err::<Ctx, APIError>(APIError::AuthFailNoAuthTokenCookie),
        Some(t) => if res is Ok {
            exists|exp: Seq<char>, sign: Seq<char>| #[trigger] token_parts(t, res->Ok_0@, exp, sign)
        } else {
            res->Err_0 == APIError::AuthFailTokenWrongFormat && !token_accepted(t)
        },
    }
}

/// The cookie is removed exactly when resolution failed for another reason
/// than its absence.
pub open spec fn removes_cookie(res: Result<Ctx>) -> bool {
    match res {
        Ok(_) => false,
        Err(e) => e != APIError::AuthFailNoAuthTokenCookie,
    }
}

/// Resolves the request context from the session token, if the request
/// carried one. Expiry and signature are parsed but not checked.
pub fn mw_ctx_resolver(auth_token: Option<&str>) -> (r: CtxResolution)
    ensures
        resolves_to(
            match auth_token {
                Some(t) => Some(t@),
                None => None,
            },
            r.ctx_result,
        ),
        r.ctx_result is Ok <==> (auth_token is Some && token_accepted(auth_token.unwrap()@)),
        r.remove_cookie == removes_cookie(r.ctx_result),
{
    let ctx_result: Result<Ctx> = match auth_token {
        None => Err(APIError::AuthFailNoAuthTokenCookie),
        Some(token) => match parse_token(token) {
            Ok((user_id, exp, sign)) => {
                let ctx = Ctx::new(user_id);
                assert(token_parts(token@, ctx@, exp@, sign@));
                let ghost ts: Option<Seq<char>> = Some(token@);
                let ghost rr: Result<Ctx> = Ok(ctx);
                assert(token_parts(ts->Some_0, rr->Ok_0@, exp@, sign@));
                assert(resolves_to(ts, rr));
                Ok(ctx)
            },
            Err(e) => Err(e),
        },
    };
    let remove_cookie = match ctx_result {
        Ok(_) => false,
        Err(APIError::AuthFailNoAuthTokenCookie) => false,
        Err(_) => true,
    };
    CtxResolution { ctx_result, remove_cookie }
}

/// What the guard of an authenticated route lets through.
pub open spec fn guard_of(ctx: Result<Ctx>) -> Result<()> {
    match ctx {
        Ok(_) => Ok(()),
        Err(e) => Err(e),
    }
}

/// Guard of routes that require authentication: a failed resolution stops
/// the request with that same error, before the handler runs.
pub fn mw_require_auth(ctx: Result<Ctx>) -> (r: Result<()>)
    ensures
        r == guard_of(ctx),
{
    match ctx {
        Ok(_) => Ok(()),
        Err(e) => Err(e),
    }
}

/// Per-request storage of the resolution outcome.
#[derive(Clone, Copy, Debug)]
pub struct RequestState {
    ctx_result: Option<Result<Ctx>>,
}

impl View for RequestState {
    type V = Option<Result<Ctx>>;

    closed spec fn view(&self) -> Option<Result<Ctx>> {
        self.ctx_result
    }
}

/// What the extractor hands a handler, given what the request state holds.
pub open spec fn extracted(stored: Option<Result<Ctx>>) -> Result<Ctx> {
    match stored {
        None => Err(APIError::AuthFailCtxNotInRequestExt),
        Some(res) => res,
    }
}

/// What the request state holds after an outcome is offered to it: the
/// first outcome stays.
pub open spec fn after_insert(stored: Option<Result<Ctx>>, res: Result<Ctx>) -> Option<Result<Ctx>> {
    match stored {
        None => Some(res),
        Some(_) => stored,
    }
}

impl RequestState {
    /// State of a request that nothing has resolved yet.
    pub fn new() -> (r: RequestState)
        ensures
            r@ is None,
    {
        RequestState { ctx_result: None }
    }

    /// Stores the resolution outcome. Only the first outcome is kept: once
    /// stored, it is read-only for the rest of the request. Returns whether
    /// `res` was stored.
    pub fn insert_ctx_result(&mut self, res: Result<Ctx>) -> (stored: bool)
        ensures
            stored == (old(self)@ is None),
            final(self)@ == after_insert(old(self)@, res),
    {
        match self.ctx_result {
            Some(_) => false,
            None => {
                self.ctx_result = Some(res);
                true
            },
        }
    }

    /// The stored outcome, if any.
    pub fn ctx_result(&self) -> (r: Option<Result<Ctx>>)
        ensures
            r == self@,
    {
        self.ctx_result
    }
}

impl Ctx {
    /// Hands a handler the context of its request: the stored failure if
    /// resolution failed, and `AuthFailCtxNotInRequestExt` if the resolver
    /// never ran for this request.
    pub fn from_request_state(state: &RequestState) -> (r: Result<Ctx>)
        ensures
            r == extracted(state@),
    {
        match state.ctx_result {
            Some(res) => res,
            None => Err(APIError::AuthFailCtxNotInRequestExt),
        }
    }
}

/// The outcome is resolved once per request: after the first outcome is
/// stored, offering another leaves the state unchanged, and every later
/// reader (extractor, guard) sees that first outcome.
pub proof fn lemma_single_resolution(first: Result<Ctx>, second: Result<Ctx>)
    ensures
        after_insert(after_insert(None, first), second) == Some(first),
        extracted(after_insert(after_insert(None, first), second)) == first,
        guard_of(extracted(after_insert(None, first))) == guard_of(first),
{
}

/// A route that requires authentication, on a request without a session
/// cookie, stops at the guard with `AuthFailNoAuthTokenCookie`, which the
/// client sees as `NO_AUTH` with status 403.
pub proof fn lemma_guard_short_circuit(res: Result<Ctx>)
    requires
        resolves_to(None, res),
    ensures
        guard_of(extracted(after_insert(None, res))) == Err::<(), APIError>(
            APIError::AuthFailNoAuthTokenCookie,
        ),
        status_and_error_of(APIError::AuthFailNoAuthTokenCookie) == (
            STATUS_FORBIDDEN,
            ClientError::NO_AUTH,
        ),
{
}

} // verus!
