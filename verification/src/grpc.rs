//! The gRPC `RegistryService` messages and the replies that its methods send.
//!
//! Methods: Register / Deregister / List / Lookup / EndpointFor / SetStatus /
//! Health.  A failure of a changing method is reported inside its reply
//! (`ok: false` and the error's message); a failure of a query is reported as
//! an internal gRPC status carrying the error's message.
use vstd::prelude::*;

use crate::clock::instant_text;
use crate::error::{error_message, RegistryError};
use crate::models::{status_from_wire, status_of_wire, status_wire, ServiceEntry, ServiceStatus};

verus! {

/// One entry, as the gRPC API sends it.
pub struct ServiceEntryProto {
    pub id: String,
    pub service_id: String,
    pub capability: String,
    pub endpoint: String,
    pub status: String,
    pub registered_at: String,
}

/// Reply of `Register`.
pub struct RegisterResponse {
    pub ok: bool,
    pub message: String,
}

/// Reply of `Deregister`.
pub struct DeregisterResponse {
    pub ok: bool,
    pub message: String,
}

/// Reply of `SetStatus`.
pub struct SetStatusResponse {
    pub ok: bool,
    pub message: String,
}

/// Reply of `List`.
pub struct ListResponse {
    pub entries: Vec<ServiceEntryProto>,
}

/// Reply of `Lookup`.
pub struct LookupResponse {
    pub entries: Vec<ServiceEntryProto>,
}

/// Reply of `EndpointFor`: the endpoint, or `found: false` and an empty text.
pub struct EndpointForResponse {
    pub found: bool,
    pub endpoint: String,
}

/// Reply of `Health`.
pub struct HealthResponse {
    pub ok: bool,
    pub entry_count: u32,
    pub message: String,
}

/// The status named in a request: `"up"`, `"down"`, and `Unknown` for any
/// other text.
pub fn parse_status(s: &str) -> (st: ServiceStatus)
    ensures
        st == status_from_wire(s@),
{
    status_of_wire(s)
}

/// Whether a proto entry shows the entry `e`.
pub open spec fn proto_shows(p: ServiceEntryProto, e: ServiceEntry) -> bool {
    &&& p.id@ == e.id@
    &&& p.service_id@ == e.service_id@
    &&& p.capability@ == e.capability@
    &&& p.endpoint@ == e.endpoint@
    &&& p.status@ == status_wire(e.status)
    &&& p.registered_at@ == instant_text(e.registered_at@)
}

/// Whether a list of proto entries shows the entries, one for one, in order.
pub open spec fn protos_show(p: Seq<ServiceEntryProto>, e: Seq<ServiceEntry>) -> bool {
    &&& p.len() == e.len()
    &&& forall|i: int| 0 <= i < p.len() ==> proto_shows(#[trigger] p[i], e[i])
}

/// The gRPC form of an entry: the status by its wire name, the registration
/// time as RFC 3339 text.
pub fn entry_to_proto(e: ServiceEntry) -> (p: ServiceEntryProto)
    ensures
        proto_shows(p, e),
{
    let status = e.status.wire_text();
    let registered_at = e.registered_at_text();
    ServiceEntryProto {
        id: e.id,
        service_id: e.service_id,
        capability: e.capability,
        endpoint: e.endpoint,
        status,
        registered_at,
    }
}

/// The gRPC form of a list of entries, in order.
fn entries_to_proto(entries: Vec<ServiceEntry>) -> (p: Vec<ServiceEntryProto>)
    ensures
        protos_show(p@, entries@),
{
    let mut p: Vec<ServiceEntryProto> = Vec::new();
    let mut i: usize = 0;
    while i < entries.len()
        invariant
            i <= entries@.len(),
            p@.len() == i,
            forall|k: int| 0 <= k < i ==> proto_shows(#[trigger] p@[k], entries@[k]),
        decreases entries@.len() - i,
    {
        let e = entries[i].clone();
        let ghost original = entries@[i as int];
        let q = entry_to_proto(e);
        assert(proto_shows(q, original));
        p.push(q);
        i = i + 1;
    }
    p
}

/// What an acknowledgement holds for the outcome of a change: `ok` and no
/// message on success, the error's message on failure.
pub open spec fn ack_matches(ok: bool, message: Seq<char>, result: Result<(), RegistryError>) -> bool {
    match result {
        Ok(()) => ok && message == Seq::<char>::empty(),
        Err(e) => !ok && message == error_message(e),
    }
}

/// `ok` and the message of an acknowledgement.
fn ack(result: &Result<(), RegistryError>) -> (r: (bool, String))
    ensures
        ack_matches(r.0, r.1@, *result),
{
    match result {
        Ok(()) => (true, String::new()),
        Err(e) => (false, e.message()),
    }
}

/// Reply of `Register`.
pub fn register_reply(result: &Result<(), RegistryError>) -> (r: RegisterResponse)
    ensures
        ack_matches(r.ok, r.message@, *result),
{
    let (ok, message) = ack(result);
    RegisterResponse { ok, message }
}

/// Reply of `Deregister`.
pub fn deregister_reply(result: &Result<(), RegistryError>) -> (r: DeregisterResponse)
    ensures
        ack_matches(r.ok, r.message@, *result),
{
    let (ok, message) = ack(result);
    DeregisterResponse { ok, message }
}

/// Reply of `SetStatus`.
pub fn set_status_reply(result: &Result<(), RegistryError>) -> (r: SetStatusResponse)
    ensures
        ack_matches(r.ok, r.message@, *result),
{
    let (ok, message) = ack(result);
    SetStatusResponse { ok, message }
}

/// Reply of `List`: all entries; on failure the message of the internal
/// status.
pub fn list_reply(result: Result<Vec<ServiceEntry>, RegistryError>) -> (r: Result<
    ListResponse,
    String,
>)
    ensures
        match (result, r) {
            (Ok(entries), Ok(out)) => protos_show(out.entries@, entries@),
            (Err(e), Err(message)) => message@ == error_message(e),
            _ => false,
        },
{
    match result {
        Ok(entries) => Ok(ListResponse { entries: entries_to_proto(entries) }),
        Err(e) => Err(e.message()),
    }
}

/// Reply of `Lookup`: the entries for the capability; on failure the message
/// of the internal status.
pub fn lookup_reply(result: Result<Vec<ServiceEntry>, RegistryError>) -> (r: Result<
    LookupResponse,
    String,
>)
    ensures
        match (result, r) {
            (Ok(entries), Ok(out)) => protos_show(out.entries@, entries@),
            (Err(e), Err(message)) => message@ == error_message(e),
            _ => false,
        },
{
    match result {
        Ok(entries) => Ok(LookupResponse { entries: entries_to_proto(entries) }),
        Err(e) => Err(e.message()),
    }
}

/// Reply of `EndpointFor`; on failure the message of the internal status.
pub fn endpoint_for_reply(result: Result<Option<String>, RegistryError>) -> (r: Result<
    EndpointForResponse,
    String,
>)
    ensures
        match (result, r) {
            (Ok(Some(ep)), Ok(out)) => out.found && out.endpoint@ == ep@,
            (Ok(None), Ok(out)) => !out.found && out.endpoint@ == Seq::<char>::empty(),
            (Err(e), Err(message)) => message@ == error_message(e),
            _ => false,
        },
{
    match result {
        Ok(Some(endpoint)) => Ok(EndpointForResponse { found: true, endpoint }),
        Ok(None) => Ok(EndpointForResponse { found: false, endpoint: String::new() }),
        Err(e) => Err(e.message()),
    }
}

/// Reply of `Health`: healthy with the number of entries (at most
/// `u32::MAX`), or unhealthy with the error's message and no count.
pub fn health_reply(result: Result<usize, RegistryError>) -> (r: HealthResponse)
    ensures
        match result {
            Ok(n) => r.ok && r.entry_count == (if n <= u32::MAX {
                n as u32
            } else {
                u32::MAX
            }) && r.message@ == Seq::<char>::empty(),
            Err(e) => !r.ok && r.entry_count == 0 && r.message@ == error_message(e),
        },
{
    match result {
        Ok(n) => {
            let entry_count: u32 = if (n as u64) <= (u32::MAX as u64) {
                n as u32
            } else {
                u32::MAX
            };
            HealthResponse { ok: true, entry_count, message: String::new() }
        },
        Err(e) => HealthResponse { ok: false, entry_count: 0, message: e.message() },
    }
}

} // verus!
