//! Domain models of the registry: the reachability status of a service and
//! the entry that a service registers for one of its capabilities.
use vstd::prelude::*;

use crate::clock::{clock_could_read, instant_text, parsed_instant, Timestamp};


verus! {

/// Reachability status of a registered service.
#[derive(Debug, Clone, Copy, PartialEq, Eq, Structural)]
pub enum ServiceStatus {
    Up,
    Down,
    Unknown,
}

/// The display name of a status: `"Up"`, `"Down"` or `"Unknown"`.
pub open spec fn status_display(s: ServiceStatus) -> Seq<char> {
    match s {
        ServiceStatus::Up => "Up"@,
        ServiceStatus::Down => "Down"@,
        ServiceStatus::Unknown => "Unknown"@,
    }
}

/// The name under which a status is stored and sent over the wire:
/// `"up"`, `"down"` or `"unknown"`.
pub open spec fn status_wire(s: ServiceStatus) -> Seq<char> {
    match s {
        ServiceStatus::Up => "up"@,
        ServiceStatus::Down => "down"@,
        ServiceStatus::Unknown => "unknown"@,
    }
}

/// The status that a wire name stands for: `"up"` and `"down"` name their
/// status, and any other text stands for `Unknown`.
pub open spec fn status_from_wire(t: Seq<char>) -> ServiceStatus {
    if t == "up"@ {
        ServiceStatus::Up
    } else if t == "down"@ {
        ServiceStatus::Down
    } else {
        ServiceStatus::Unknown
    }
}

/// Reading back the wire name of a status gives that status.
pub proof fn lemma_wire_round_trip(s: ServiceStatus)
    ensures
        status_from_wire(status_wire(s)) == s,
{
    reveal_strlit("up");
    reveal_strlit("down");
    reveal_strlit("unknown");
    assert("up"@.len() != "down"@.len());
    assert("unknown"@.len() != "up"@.len());
    assert("unknown"@.len() != "down"@.len());
}

/// Compare a text with a literal.
pub(crate) fn text_is(t: &str, literal: &str) -> (b: bool)
    ensures
        b == (t@ == literal@),
{
    t.to_owned() == literal.to_owned()
}

/// The status named by a wire name (`"up"`, `"down"`; anything else is
/// `Unknown`).
pub(crate) fn status_of_wire(t: &str) -> (s: ServiceStatus)
    ensures
        s == status_from_wire(t@),
{
    if text_is(t, "up") {
        ServiceStatus::Up
    } else if text_is(t, "down") {
        ServiceStatus::Down
    } else {
        ServiceStatus::Unknown
    }
}

/// A character mapped to lower case, for the ASCII letters `A`..=`Z`.
pub open spec fn ascii_lower_char(c: char) -> char {
    if 'A' <= c && c <= 'Z' {
        ((c as u32) + 32) as char
    } else {
        c
    }
}

/// A text with its ASCII capitals mapped to lower case.
pub open spec fn ascii_lower(s: Seq<char>) -> Seq<char> {
    s.map_values(|c: char| ascii_lower_char(c))
}

impl Default for ServiceStatus {
    /// A freshly registered service is up.
    fn default() -> (s: Self)
        ensures
            s == ServiceStatus::Up,
    {
        ServiceStatus::Up
    }
}

impl ServiceStatus {
    /// The display text of the status (what `Display` shows).
    pub fn display_text(&self) -> (t: String)
        ensures
            t@ == status_display(*self),
    {
        match self {
            ServiceStatus::Up => String::from_str("Up"),
            ServiceStatus::Down => String::from_str("Down"),
            ServiceStatus::Unknown => String::from_str("Unknown"),
        }
    }

    /// The lower-case display text, under which the status is stored in the
    /// database and exchanged over gRPC and REST.
    pub fn wire_text(&self) -> (t: String)
        ensures
            t@ == status_wire(*self),
            t@ == ascii_lower(status_display(*self)),
    {
        proof {
            lemma_wire_is_lowered_display(*self);
        }
        match self {
            ServiceStatus::Up => String::from_str("up"),
            ServiceStatus::Down => String::from_str("down"),
            ServiceStatus::Unknown => String::from_str("unknown"),
        }
    }
}

/// The wire name of every status is its display name in lower case.
pub proof fn lemma_wire_is_lowered_display(s: ServiceStatus)
    ensures
        status_wire(s) == ascii_lower(status_display(s)),
{
    reveal_strlit("Up");
    reveal_strlit("up");
    reveal_strlit("Down");
    reveal_strlit("down");
    reveal_strlit("Unknown");
    reveal_strlit("unknown");
    assert(status_wire(s) =~= ascii_lower(status_display(s)));
}

/// A service that has registered one of its capabilities with the registry.
///
/// One entry per (service, capability) pair: a single service can register
/// several capabilities (e.g. `"iam"` and `"scim"`).
#[derive(Debug)]
pub struct ServiceEntry {
    /// Unique entry id: `"{service_id}::{capability}"`, e.g. `"kanidm::iam"`.
    pub id: String,
    /// Service name, e.g. `"kanidm"`.
    pub service_id: String,
    /// Capability this entry advertises, e.g. `"iam"`.
    pub capability: String,
    /// Base URL of the service endpoint, e.g. `"http://kanidm:8443"`.
    pub endpoint: String,
    /// Current reachability status.
    pub status: ServiceStatus,
    /// When this entry was registered.
    pub registered_at: Timestamp,
}

/// The mathematical value of a [`ServiceEntry`].
pub struct EntryView {
    pub id: Seq<char>,
    pub service_id: Seq<char>,
    pub capability: Seq<char>,
    pub endpoint: Seq<char>,
    pub status: ServiceStatus,
    /// (seconds, nanoseconds) since the Unix epoch.
    pub registered_at: (int, int),
}

impl View for ServiceEntry {
    type V = EntryView;

    open spec fn view(&self) -> EntryView {
        EntryView {
            id: self.id@,
            service_id: self.service_id@,
            capability: self.capability@,
            endpoint: self.endpoint@,
            status: self.status,
            registered_at: self.registered_at@,
        }
    }
}

/// The id of the entry that `service_id` registers for `capability`.
pub open spec fn entry_id(service_id: Seq<char>, capability: Seq<char>) -> Seq<char> {
    service_id + "::"@ + capability
}

/// An instant, or the Unix epoch where there is none.
pub open spec fn instant_or_epoch(t: Option<Timestamp>) -> (int, int) {
    match t {
        Some(v) => v@,
        None => (0, 0),
    }
}

/// Whether `at` is a registration time taken now: the instant that the
/// system clock can read (see `clock_could_read`), or the Unix epoch where
/// the reading is no instant.
pub open spec fn stamped_now(at: (int, int)) -> bool {
    exists|t: Option<Timestamp>| clock_could_read(t) && #[trigger] instant_or_epoch(t) == at
}

/// A time that the clock could read is one taken now.
pub proof fn lemma_stamped_now(now: Option<Timestamp>)
    requires
        clock_could_read(now),
    ensures
        stamped_now(instant_or_epoch(now)),
{
}

/// The instant that a stored registration time stands for: the parsed
/// instant, or the Unix epoch where the text cannot be read.
pub open spec fn stored_instant(text: Seq<char>) -> (int, int) {
    match parsed_instant(text) {
        Some(t) => t,
        None => (0, 0),
    }
}

impl Clone for ServiceEntry {
    fn clone(&self) -> (c: Self)
        ensures
            c@ == self@,
    {
        ServiceEntry {
            id: self.id.clone(),
            service_id: self.service_id.clone(),
            capability: self.capability.clone(),
            endpoint: self.endpoint.clone(),
            status: self.status,
            registered_at: self.registered_at,
        }
    }
}

impl ServiceEntry {
    /// A new entry with status `Up`, registered at `now`: the time that the
    /// clock reads, or the Unix epoch where the clock reads no instant that
    /// can be held (`None`).
    pub fn new_at(service_id: &str, capability: &str, endpoint: &str, now: Option<Timestamp>) -> (e:
        Self)
        ensures
            e@.id == entry_id(service_id@, capability@),
            e@.service_id == service_id@,
            e@.capability == capability@,
            e@.endpoint == endpoint@,
            e@.status == ServiceStatus::Up,
            e@.registered_at == instant_or_epoch(now),
    {
        let mut id = service_id.to_owned();
        id.append("::");
        id.append(capability);
        let registered_at = match now {
            Some(t) => t,
            None => Timestamp::epoch(),
        };
        ServiceEntry {
            id,
            service_id: service_id.to_owned(),
            capability: capability.to_owned(),
            endpoint: endpoint.to_owned(),
            status: ServiceStatus::Up,
            registered_at,
        }
    }

    /// A new entry with status `Up`, registered now (see `new_at`).
    pub fn new(service_id: &str, capability: &str, endpoint: &str) -> (e: Self)
        ensures
            e@.id == entry_id(service_id@, capability@),
            e@.service_id == service_id@,
            e@.capability == capability@,
            e@.endpoint == endpoint@,
            e@.status == ServiceStatus::Up,
            stamped_now(e@.registered_at),
    {
        let now = Timestamp::now();
        let e = ServiceEntry::new_at(service_id, capability, endpoint, now);
        assert(clock_could_read(now) && e@.registered_at == instant_or_epoch(now));
        e
    }

    /// Rebuild an entry from the fields of a stored row, whose registration
    /// time has been read as `registered_at` (`None` where it could not be
    /// read: the entry then stands at the Unix epoch).
    pub fn from_row(
        id: String,
        service_id: String,
        capability: String,
        endpoint: String,
        status: ServiceStatus,
        registered_at: Option<Timestamp>,
    ) -> (e: Self)
        ensures
            e@.id == id@,
            e@.service_id == service_id@,
            e@.capability == capability@,
            e@.endpoint == endpoint@,
            e@.status == status,
            e@.registered_at == instant_or_epoch(registered_at),
    {
        let at = match registered_at {
            Some(t) => t,
            None => Timestamp::epoch(),
        };
        ServiceEntry { id, service_id, capability, endpoint, status, registered_at: at }
    }

    /// Rebuild an entry from a stored row.  The status has been read by the
    /// caller; the registration time is read from its RFC 3339 text, and a
    /// text that cannot be read stands for the Unix epoch.
    pub fn from_stored(
        id: String,
        service_id: String,
        capability: String,
        endpoint: String,
        status: ServiceStatus,
        registered_at: &str,
    ) -> (e: Self)
        ensures
            e@.id == id@,
            e@.service_id == service_id@,
            e@.capability == capability@,
            e@.endpoint == endpoint@,
            e@.status == status,
            e@.registered_at == stored_instant(registered_at@),
    {
        let at = Timestamp::from_rfc3339(registered_at);
        ServiceEntry::from_row(id, service_id, capability, endpoint, status, at)
    }

    /// Whether the service is reachable.
    pub fn is_up(&self) -> (b: bool)
        ensures
            b == (self.status == ServiceStatus::Up),
    {
        match self.status {
            ServiceStatus::Up => true,
            _ => false,
        }
    }

    /// The RFC 3339 text of the registration time.
    pub fn registered_at_text(&self) -> (t: String)
        ensures
            t@ == instant_text(self.registered_at@),
    {
        self.registered_at.rfc3339()
    }
}

} // verus!
