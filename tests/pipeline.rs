use rest_auth::action::RequestAction;
use rest_auth::api::{api_login, get_notes, AUTH_TOKEN};
use rest_auth::ctx::Ctx;
use rest_auth::error::{APIError, ClientError};
use rest_auth::log::log_request;
use rest_auth::method::{HTTPMethod, Method};
use rest_auth::mw_auth::{mw_ctx_resolver, mw_require_auth, RequestState};
use rest_auth::response::{client_error_response, main_response_mapper, APIResponse};
use rest_auth::uuid::Uuid;

#[test]
fn resolver_without_cookie() {
    let r = mw_ctx_resolver(None);
    assert_eq!(r.ctx_result, Err(APIError::AuthFailNoAuthTokenCookie));
    assert!(!r.remove_cookie);
}

#[test]
fn resolver_with_valid_token() {
    let r = mw_ctx_resolver(Some("user-1.exp.sign"));
    assert_eq!(r.ctx_result, Ok(Ctx::new(1)));
    assert_eq!(r.ctx_result.unwrap().user_id(), 1);
    assert!(!r.remove_cookie);
}

#[test]
fn resolver_with_malformed_token_clears_cookie() {
    let r = mw_ctx_resolver(Some("garbage"));
    assert_eq!(r.ctx_result, Err(APIError::AuthFailTokenWrongFormat));
    assert!(r.remove_cookie);
    let (status, code) = r.ctx_result.unwrap_err().client_status_and_error();
    assert_eq!((status, code), (403, ClientError::NO_AUTH));
}

#[test]
fn outcome_is_stored_once() {
    let mut state = RequestState::new();
    assert_eq!(state.ctx_result(), None);
    assert!(state.insert_ctx_result(Ok(Ctx::new(5))));
    assert!(!state.insert_ctx_result(Err(APIError::AuthFailTokenWrongFormat)));
    assert_eq!(state.ctx_result(), Some(Ok(Ctx::new(5))));
    // Every reader sees the same outcome.
    for _ in 0..3 {
        assert_eq!(Ctx::from_request_state(&state), Ok(Ctx::new(5)));
        assert_eq!(mw_require_auth(Ctx::from_request_state(&state)), Ok(()));
    }
}

#[test]
fn resolution_runs_once_per_request() {
    let mut resolutions = 0;
    let mut state = RequestState::new();
    let r = mw_ctx_resolver(Some("user-9.e.s"));
    resolutions += 1;
    state.insert_ctx_result(r.ctx_result);
    let guard = mw_require_auth(Ctx::from_request_state(&state));
    let handler_ctx = Ctx::from_request_state(&state);
    let logged = state.ctx_result();
    assert_eq!(resolutions, 1);
    assert_eq!(guard, Ok(()));
    assert_eq!(handler_ctx, Ok(Ctx::new(9)));
    assert_eq!(logged, Some(Ok(Ctx::new(9))));
}

#[test]
fn extractor_without_resolution() {
    let state = RequestState::new();
    assert_eq!(Ctx::from_request_state(&state), Err(APIError::AuthFailCtxNotInRequestExt));
    assert_eq!(
        mw_require_auth(Ctx::from_request_state(&state)),
        Err(APIError::AuthFailCtxNotInRequestExt)
    );
}

#[test]
fn guard_passes_failure_through() {
    assert_eq!(mw_require_auth(Err(APIError::AuthFailTokenWrongFormat)), Err(APIError::AuthFailTokenWrongFormat));
    assert_eq!(mw_require_auth(Ok(Ctx::new(3))), Ok(()));
}

#[test]
fn missing_cookie_on_protected_route() {
    let mut state = RequestState::new();
    state.insert_ctx_result(mw_ctx_resolver(None).ctx_result);
    let guard = mw_require_auth(Ctx::from_request_state(&state));
    let err = guard.unwrap_err();
    assert_eq!(err, APIError::AuthFailNoAuthTokenCookie);
    let mapped = main_response_mapper(Some(err), None);
    let resp = mapped.error_response.expect("error response");
    assert_eq!(resp.status, 403);
    assert_eq!(resp.body.error.as_str(), "NO_AUTH");
    assert!(resp.body.actions.is_empty());
    assert!(resp.body.req_uuid.to_string().starts_with("req:"));
    assert_eq!(mapped.client_error, Some(ClientError::NO_AUTH));
}

#[test]
fn malformed_token_scenario() {
    let r = mw_ctx_resolver(Some("garbage"));
    assert!(r.remove_cookie);
    let mut state = RequestState::new();
    state.insert_ctx_result(r.ctx_result);
    let err = mw_require_auth(Ctx::from_request_state(&state)).unwrap_err();
    assert_eq!(err, APIError::AuthFailTokenWrongFormat);
    let mapped = main_response_mapper(Some(err), None);
    assert_eq!(mapped.error_response.unwrap().body.error, ClientError::NO_AUTH);
}

#[test]
fn login_then_protected_fetch() {
    let token = api_login("demo1", "welcome").expect("login succeeds");
    assert_eq!(AUTH_TOKEN, "auth_token");
    assert_eq!(token, "user-1.exp.sign");
    let mut state = RequestState::new();
    let r = mw_ctx_resolver(Some(&token));
    assert!(!r.remove_cookie);
    state.insert_ctx_result(r.ctx_result);
    assert_eq!(mw_require_auth(Ctx::from_request_state(&state)), Ok(()));
    let (status, data, actions) = get_notes("/api/v1/notes").into_parts();
    assert_eq!(status, 200);
    assert!(data.is_empty());
    assert_eq!(actions.len(), 1);
    assert_eq!(actions[0].title, "Get notes");
    assert_eq!(actions[0].description, "Get all the users notes.");
    assert_eq!(actions[0].url, "/api/v1/notes/");
    assert_eq!(actions[0].method.as_str(), "GET");
    assert_eq!(actions[0].uuid.get_prefix(), "action");
    let mapped = main_response_mapper(None, None);
    assert!(mapped.error_response.is_none());
    assert_eq!(mapped.client_error, None);
}

#[test]
fn login_rejects_wrong_credentials() {
    assert_eq!(api_login("demo1", "nope"), Err(APIError::LoginFail));
    assert_eq!(api_login("demo2", "welcome"), Err(APIError::LoginFail));
    assert_eq!(api_login("", ""), Err(APIError::LoginFail));
    let mapped = main_response_mapper(Some(APIError::LoginFail), None);
    let resp = mapped.error_response.unwrap();
    assert_eq!(resp.status, 401);
    assert_eq!(resp.body.error.as_str(), "LOGIN_FAILED");
}

#[test]
fn affordance_propagation() {
    let action = RequestAction::new("Create a note", "Creates a new note.", "/api/v1/notes/", Method::Post);
    let resp = APIResponse::new(vec![1u16, 2]).with_action(action);
    let (status, data, actions) = resp.into_parts();
    assert_eq!(status, 200);
    assert_eq!(data, vec![1, 2]);
    assert_eq!(actions.len(), 1);
    assert_eq!(actions[0].title, "Create a note");
    assert_eq!(actions[0].url, "/api/v1/notes/");
    assert_eq!(actions[0].method.as_str(), "POST");
}

#[test]
fn response_builders() {
    let a = RequestAction::new("a", "b", "c", Method::Delete);
    let b = a.clone();
    let resp = APIResponse::new("x").with_actions(vec![a, b]).with_status(201);
    let (status, data, actions) = resp.into_parts();
    assert_eq!((status, data, actions.len()), (201, "x", 2));
    assert_eq!(actions[0].uuid, actions[1].uuid);
}

#[test]
fn error_response_keeps_attached_actions() {
    let id = Uuid::prefixed("req");
    let action = RequestAction::new("Log in", "Log in first.", "/api/v1/login/", Method::Post);
    let resp = client_error_response(&id, Some(APIError::AuthFailNoAuthTokenCookie), Some(vec![action]))
        .expect("error response");
    assert_eq!(resp.status, 403);
    assert_eq!(resp.body.error, ClientError::NO_AUTH);
    assert_eq!(resp.body.req_uuid, id);
    assert_eq!(resp.body.actions.len(), 1);
    assert_eq!(resp.body.actions[0].title, "Log in");
    assert!(client_error_response(&id, None, None).is_none());
}

#[test]
fn builder_fills_fields() {
    let id = Uuid::prefixed("custom");
    let builder = RequestAction::builder()
        .with_title("t")
        .with_description("d")
        .with_url("/u")
        .with_method(Method::Patch)
        .with_uuid(id.clone());
    assert!(builder.is_complete());
    let action = builder.build();
    assert_eq!(action.uuid, id);
    assert_eq!(action.title, "t");
    assert_eq!(action.description, "d");
    assert_eq!(action.url, "/u");
    assert_eq!(action.method, HTTPMethod::new(Method::Patch));
}

#[test]
fn builder_defaults() {
    let builder = RequestAction::builder();
    assert!(!builder.is_complete());
    let action = builder.with_title("t").with_description("d").with_url("/u").build();
    assert_eq!(action.method.as_str(), "GET");
    assert_eq!(action.uuid.get_prefix(), "action");
    assert_eq!(HTTPMethod::default().method(), Method::Get);
}

#[test]
fn method_names_are_upper_case() {
    let all = [
        (Method::Options, "OPTIONS"),
        (Method::Get, "GET"),
        (Method::Post, "POST"),
        (Method::Put, "PUT"),
        (Method::Delete, "DELETE"),
        (Method::Head, "HEAD"),
        (Method::Trace, "TRACE"),
        (Method::Connect, "CONNECT"),
        (Method::Patch, "PATCH"),
    ];
    for (m, name) in all {
        assert_eq!(HTTPMethod::new(m).as_str(), name);
        assert_eq!(m.as_str(), name);
    }
}

#[test]
fn log_line_fields() {
    let id = Uuid::prefixed("req");
    let line = log_request(
        &id,
        "1700000000000".to_string(),
        "GET",
        "/api/v1/notes/",
        Some(Ctx::new(1)),
        Some(APIError::AuthFailTokenWrongFormat),
        Some(ClientError::NO_AUTH),
    );
    assert_eq!(line.uuid, id.to_string());
    assert_eq!(line.timestamp, "1700000000000");
    assert_eq!(line.req_method, "GET");
    assert_eq!(line.req_path, "/api/v1/notes/");
    assert_eq!(line.user_id, Some(1));
    assert_eq!(line.client_error_type.as_deref(), Some("NO_AUTH"));
    assert_eq!(line.error_type.as_deref(), Some("AuthFailTokenWrongFormat"));
    assert_eq!(line.error_data, None);
    let quiet = log_request(&Uuid::raw(), "0".to_string(), "POST", "/", None, None, None);
    assert_eq!(quiet.user_id, None);
    assert_eq!(quiet.client_error_type, None);
    assert_eq!(quiet.error_type, None);
}

#[test]
fn envelope_hides_kind_names() {
    let kinds = [
        APIError::LoginFail,
        APIError::AuthFailNoAuthTokenCookie,
        APIError::AuthFailTokenWrongFormat,
        APIError::AuthFailCtxNotInRequestExt,
    ];
    for e in kinds {
        let mapped = main_response_mapper(Some(e), None);
        let resp = mapped.error_response.unwrap();
        let text = format!("{} {}", resp.body.req_uuid.to_string(), resp.body.error.as_str());
        for k in kinds {
            assert!(!text.contains(k.name()));
        }
    }
}
