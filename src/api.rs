//! The business routes' own decisions: the demo login and the notes listing.

use crate::action::{is_fresh_action_id, RequestAction};
use crate::error::{APIError, Result};
use crate::method::Method;
use crate::response::{APIResponse, STATUS_OK};
use vstd::prelude::*;

verus! {

/// Name of the cookie that carries the session token.
pub const AUTH_TOKEN: &'static str = "auth_token";

/// The token issued on a successful login.
pub open spec fn issued_token() -> Seq<char> {
    "user-1.exp.sign"@
}

/// Checks the login credentials. Only `demo1` / `welcome` is accepted; it
/// gets the session token to store in the `AUTH_TOKEN` cookie, anything else
/// is `LoginFail`.
pub fn api_login(username: &str, pwd: &str) -> (r: Result<String>)
    ensures
        r is Ok <==> (username@ == "demo1"@ && pwd@ == "welcome"@),
        r is Ok ==> r->Ok_0@ == issued_token(),
        r is Err ==> r->Err_0 == APIError::LoginFail,
{
    let user = String::from_str(username);
    let pass = String::from_str(pwd);
    let expected_user = String::from_str("demo1");
    let expected_pass = String::from_str("welcome");
    if user != expected_user || pass != expected_pass {
        return Err(APIError::LoginFail);
    }
    Ok(String::from_str("user-1.exp.sign"))
}

/// Lists the notes of the user, offering the listing itself as an action.
/// `path` is the path the notes routes are mounted at.
pub fn get_notes(path: &str) -> (r: APIResponse<Vec<u16>>)
    ensures
        r.spec_status() == STATUS_OK,
        r.spec_data()@.len() == 0,
        r.spec_actions().len() == 1,
        is_fresh_action_id(r.spec_actions()[0].uuid@),
        r.spec_actions()[0].title@ == "Get notes"@,
        r.spec_actions()[0].description@ == "Get all the users notes."@,
        r.spec_actions()[0].url@ == path@ + "/"@,
        r.spec_actions()[0].method.0 == Method::Get,
{
    let mut url = String::from_str(path);
    url.append("/");
    let action = RequestAction::new(
        "Get notes",
        "Get all the users notes.",
        url.as_str(),
        Method::Get,
    );
    APIResponse::new(Vec::new()).with_action(action)
}

} // verus!
