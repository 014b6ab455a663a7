//! The REST API's bodies and the replies that its handlers send.
//!
//! Routes (served by the daemon):
//!   POST   /services                    — register a service capability
//!   DELETE /services/{service_id}       — deregister all capabilities of a service
//!   GET    /services                    — list all registered entries
//!   GET    /capabilities/{cap}          — all entries for a capability
//!   GET    /capabilities/{cap}/endpoint — first Up endpoint for a capability
//!   PUT    /services/{id}/status        — update entry status
//!   GET    /health                      — health probe
use vstd::prelude::*;

use crate::clock::instant_text;
use crate::error::{error_message, RegistryError};
use crate::models::{status_from_wire, status_of_wire, status_wire, ServiceEntry, ServiceStatus};
use crate::registry::opt_text;

verus! {

/// HTTP 200 OK.
pub const STATUS_OK: u16 = 200;

/// HTTP 201 Created.
pub const STATUS_CREATED: u16 = 201;

/// HTTP 404 Not Found.
pub const STATUS_NOT_FOUND: u16 = 404;

/// HTTP 500 Internal Server Error.
pub const STATUS_INTERNAL_ERROR: u16 = 500;

/// Body of `POST /services`.
pub struct RegisterBody {
    pub service_id: String,
    pub capability: String,
    pub endpoint: String,
}

/// Reply of the routes that change the registry.
pub struct OkResponse {
    pub ok: bool,
    pub message: String,
}

/// One entry, as the REST API shows it.
pub struct ServiceEntryResponse {
    pub id: String,
    pub service_id: String,
    pub capability: String,
    pub endpoint: String,
    pub status: String,
    pub registered_at: String,
}

/// Reply of `GET /capabilities/{cap}/endpoint`.
pub struct EndpointResponse {
    pub found: bool,
    pub endpoint: Option<String>,
}

/// Reply of `GET /health`.
pub struct HealthResponse {
    pub ok: bool,
    pub entry_count: usize,
}

/// Body of `PUT /services/{id}/status`: `"up"`, `"down"` or `"unknown"`.
pub struct SetStatusBody {
    pub status: String,
}

/// The status named in a request: `"up"`, `"down"`, and `Unknown` for any
/// other text.
pub fn parse_status(s: &str) -> (st: ServiceStatus)
    ensures
        st == status_from_wire(s@),
{
    status_of_wire(s)
}

impl ServiceEntryResponse {
    /// The REST form of an entry: the status by its wire name, the
    /// registration time as RFC 3339 text.
    pub fn from_entry(e: ServiceEntry) -> (r: Self)
        ensures
            r.id@ == e.id@,
            r.service_id@ == e.service_id@,
            r.capability@ == e.capability@,
            r.endpoint@ == e.endpoint@,
            r.status@ == status_wire(e.status),
            r.registered_at@ == instant_text(e.registered_at@),
    {
        let status = e.status.wire_text();
        let registered_at = e.registered_at_text();
        ServiceEntryResponse {
            id: e.id,
            service_id: e.service_id,
            capability: e.capability,
            endpoint: e.endpoint,
            status,
            registered_at,
        }
    }
}

/// What an `OkResponse` holds for the outcome of a change: `ok` and no
/// message on success, the error's message on failure.
pub open spec fn ok_response_matches(r: OkResponse, result: Result<(), RegistryError>) -> bool {
    match result {
        Ok(()) => r.ok && r.message@ == Seq::<char>::empty(),
        Err(e) => !r.ok && r.message@ == error_message(e),
    }
}

/// The `OkResponse` for the outcome of a change.
fn ok_response(result: &Result<(), RegistryError>) -> (r: OkResponse)
    ensures
        ok_response_matches(r, *result),
{
    match result {
        Ok(()) => OkResponse { ok: true, message: String::new() },
        Err(e) => OkResponse { ok: false, message: e.message() },
    }
}

/// Reply of `POST /services`: 201 when registered, 500 with the error's
/// message otherwise.
pub fn register_reply(result: &Result<(), RegistryError>) -> (r: (u16, OkResponse))
    ensures
        r.0 == (if result is Ok {
            STATUS_CREATED
        } else {
            STATUS_INTERNAL_ERROR
        }),
        ok_response_matches(r.1, *result),
{
    let code = if result.is_ok() {
        STATUS_CREATED
    } else {
        STATUS_INTERNAL_ERROR
    };
    (code, ok_response(result))
}

/// Reply of `DELETE /services/{service_id}`: 200 when deregistered, 500
/// with the error's message otherwise.
pub fn deregister_reply(result: &Result<(), RegistryError>) -> (r: (u16, OkResponse))
    ensures
        r.0 == (if result is Ok {
            STATUS_OK
        } else {
            STATUS_INTERNAL_ERROR
        }),
        ok_response_matches(r.1, *result),
{
    let code = if result.is_ok() {
        STATUS_OK
    } else {
        STATUS_INTERNAL_ERROR
    };
    (code, ok_response(result))
}

/// The message of the reply for an id that names no entry.
pub open spec fn not_found_message(id: Seq<char>) -> Seq<char> {
    "entry '"@ + id + "' not found"@
}

/// Reply of `PUT /services/{id}/status`: 200 when updated; 404 with
/// `entry '{id}' not found` when no entry has the id; 500 with the error's
/// message on any other failure.
pub fn set_status_reply(id: &str, result: &Result<(), RegistryError>) -> (r: (u16, OkResponse))
    ensures
        match *result {
            Ok(()) => r.0 == STATUS_OK && r.1.ok && r.1.message@ == Seq::<char>::empty(),
            Err(RegistryError::NotFound { .. }) => r.0 == STATUS_NOT_FOUND && !r.1.ok
                && r.1.message@ == not_found_message(id@),
            Err(e) => r.0 == STATUS_INTERNAL_ERROR && !r.1.ok && r.1.message@ == error_message(e),
        },
{
    match result {
        Ok(()) => (STATUS_OK, OkResponse { ok: true, message: String::new() }),
        Err(RegistryError::NotFound { .. }) => {
            let mut message = String::from_str("entry '");
            message.append(id);
            message.append("' not found");
            (STATUS_NOT_FOUND, OkResponse { ok: false, message })
        },
        Err(e) => (STATUS_INTERNAL_ERROR, OkResponse { ok: false, message: e.message() }),
    }
}

/// The REST form of a list of entries, in order.
pub fn entries_response(entries: Vec<ServiceEntry>) -> (r: Vec<ServiceEntryResponse>)
    ensures
        r@.len() == entries@.len(),
        forall|i: int|
            0 <= i < r@.len() ==> {
                let (out, e) = (#[trigger] r@[i], entries@[i]);
                &&& out.id@ == e.id@
                &&& out.service_id@ == e.service_id@
                &&& out.capability@ == e.capability@
                &&& out.endpoint@ == e.endpoint@
                &&& out.status@ == status_wire(e.status)
                &&& out.registered_at@ == instant_text(e.registered_at@)
            },
{
    let mut r: Vec<ServiceEntryResponse> = Vec::new();
    let mut i: usize = 0;
    while i < entries.len()
        invariant
            i <= entries@.len(),
            r@.len() == i,
            forall|k: int|
                0 <= k < i ==> {
                    let (out, e) = (#[trigger] r@[k], entries@[k]);
                    &&& out.id@ == e.id@
                    &&& out.service_id@ == e.service_id@
                    &&& out.capability@ == e.capability@
                    &&& out.endpoint@ == e.endpoint@
                    &&& out.status@ == status_wire(e.status)
                    &&& out.registered_at@ == instant_text(e.registered_at@)
                },
        decreases entries@.len() - i,
    {
        r.push(ServiceEntryResponse::from_entry(entries[i].clone()));
        i = i + 1;
    }
    r
}

/// Reply of `GET /services` and `GET /capabilities/{cap}`: the entries, or
/// 500 when the registry failed.
pub fn list_reply(result: Result<Vec<ServiceEntry>, RegistryError>) -> (r: Result<
    Vec<ServiceEntryResponse>,
    u16,
>)
    ensures
        match (result, r) {
            (Ok(entries), Ok(out)) => out@.len() == entries@.len() && forall|i: int|
                0 <= i < out@.len() ==> #[trigger] out@[i].id@ == entries@[i].id@
                    && out@[i].service_id@ == entries@[i].service_id@ && out@[i].capability@
                    == entries@[i].capability@ && out@[i].endpoint@ == entries@[i].endpoint@
                    && out@[i].status@ == status_wire(entries@[i].status)
                    && out@[i].registered_at@ == instant_text(entries@[i].registered_at@),
            (Err(_), Err(code)) => code == STATUS_INTERNAL_ERROR,
            _ => false,
        },
{
    match result {
        Ok(entries) => Ok(entries_response(entries)),
        Err(_) => Err(STATUS_INTERNAL_ERROR),
    }
}

/// Reply of `GET /capabilities/{cap}/endpoint`: whether an endpoint was
/// found, and which; 500 when the registry failed.
pub fn endpoint_reply(result: Result<Option<String>, RegistryError>) -> (r: Result<
    EndpointResponse,
    u16,
>)
    ensures
        match (result, r) {
            (Ok(ep), Ok(out)) => out.found == ep is Some && opt_text(out.endpoint) == opt_text(
                ep,
            ),
            (Err(_), Err(code)) => code == STATUS_INTERNAL_ERROR,
            _ => false,
        },
{
    match result {
        Ok(ep) => Ok(EndpointResponse { found: ep.is_some(), endpoint: ep }),
        Err(_) => Err(STATUS_INTERNAL_ERROR),
    }
}

/// Reply of `GET /health`: healthy with the number of entries; 500 when the
/// registry failed.
pub fn health_reply(result: Result<usize, RegistryError>) -> (r: Result<HealthResponse, u16>)
    ensures
        match (result, r) {
            (Ok(n), Ok(out)) => out.ok && out.entry_count == n,
            (Err(_), Err(code)) => code == STATUS_INTERNAL_ERROR,
            _ => false,
        },
{
    match result {
        Ok(n) => Ok(HealthResponse { ok: true, entry_count: n }),
        Err(_) => Err(STATUS_INTERNAL_ERROR),
    }
}

} // verus!
