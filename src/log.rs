//! The structured record written for each completed request.

use crate::ctx::Ctx;
use crate::error::{client_code, kind_name, APIError, ClientError};
use crate::uuid::{display_of, Uuid};
use vstd::prelude::*;

verus! {

/// One request log record. Absent fields are left out when written.
#[derive(Debug)]
pub struct RequestLogLine {
    pub uuid: String,
    pub timestamp: String,
    pub user_id: Option<u64>,
    pub req_path: String,
    pub req_method: String,
    pub client_error_type: Option<String>,
    pub error_type: Option<String>,
    pub error_data: Option<String>,
}

/// Assembles the log record of a request: its correlation id, the time
/// stamp (milliseconds since the epoch, as text), method and path, the
/// subject if resolution succeeded, the public code sent and the internal
/// kind's name. No kind carries data, so `error_data` stays empty.
pub fn log_request<UUIDType>(
    uuid: &Uuid<UUIDType>,
    timestamp: String,
    req_method: &str,
    req_path: &str,
    ctx: Option<Ctx>,
    service_error: Option<APIError>,
    client_error: Option<ClientError>,
) -> (r: RequestLogLine)
    ensures
        r.uuid@ == display_of(uuid@),
        r.timestamp@ == timestamp@,
        r.req_method@ == req_method@,
        r.req_path@ == req_path@,
        r.user_id == match ctx {
            Some(c) => Some(c@),
            None => None::<u64>,
        },
        match client_error {
            Some(c) => r.client_error_type is Some && r.client_error_type->Some_0@ == client_code(c),
            None => r.client_error_type is None,
        },
        match service_error {
            Some(e) => r.error_type is Some && r.error_type->Some_0@ == kind_name(e),
            None => r.error_type is None,
        },
        r.error_data is None,
{
    let user_id = match ctx {
        Some(c) => Some(c.user_id()),
        None => None,
    };
    let client_error_type = match client_error {
        Some(c) => Some(String::from_str(c.as_str())),
        None => None,
    };
    let error_type = match service_error {
        Some(e) => Some(String::from_str(e.name())),
        None => None,
    };
    RequestLogLine {
        uuid: uuid.to_string(),
        timestamp,
        user_id,
        req_path: String::from_str(req_path),
        req_method: String::from_str(req_method),
        client_error_type,
        error_type,
        error_data: None,
    }
}

} // verus!
