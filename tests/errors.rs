use rest_auth::error::{APIError, ClientError};

const ALL_KINDS: [APIError; 4] = [
    APIError::LoginFail,
    APIError::AuthFailNoAuthTokenCookie,
    APIError::AuthFailTokenWrongFormat,
    APIError::AuthFailCtxNotInRequestExt,
];

#[test]
fn login_fail_maps_to_login_failed() {
    assert_eq!(APIError::LoginFail.client_status_and_error(), (401, ClientError::LOGIN_FAILED));
}

#[test]
fn auth_failures_map_to_no_auth() {
    for e in [
        APIError::AuthFailNoAuthTokenCookie,
        APIError::AuthFailTokenWrongFormat,
        APIError::AuthFailCtxNotInRequestExt,
    ] {
        assert_eq!(e.client_status_and_error(), (403, ClientError::NO_AUTH));
    }
}

#[test]
fn mapping_is_deterministic() {
    for e in ALL_KINDS {
        assert_eq!(e.client_status_and_error(), e.client_status_and_error());
        assert_eq!(e.client_status_and_error(), e.clone().client_status_and_error());
    }
}

#[test]
fn public_codes_text() {
    assert_eq!(ClientError::LOGIN_FAILED.as_str(), "LOGIN_FAILED");
    assert_eq!(ClientError::NO_AUTH.as_str(), "NO_AUTH");
    assert_eq!(ClientError::INVALID_PARAMS.as_str(), "INVALID_PARAMS");
    assert_eq!(ClientError::SERVICE_ERROR.as_str(), "SERVICE_ERROR");
}

#[test]
fn kind_names_text() {
    assert_eq!(APIError::LoginFail.name(), "LoginFail");
    assert_eq!(APIError::AuthFailNoAuthTokenCookie.name(), "AuthFailNoAuthTokenCookie");
    assert_eq!(APIError::AuthFailTokenWrongFormat.name(), "AuthFailTokenWrongFormat");
    assert_eq!(APIError::AuthFailCtxNotInRequestExt.name(), "AuthFailCtxNotInRequestExt");
}

#[test]
fn public_codes_hide_kind_names() {
    for e in ALL_KINDS {
        let code = e.client_status_and_error().1.as_str();
        for k in ALL_KINDS {
            assert!(!code.contains(k.name()));
        }
    }
}
