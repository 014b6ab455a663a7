//! Keeping the registry in step with the message bus.
//!
//! Topics handled:
//!   registry::service::registered  → register the service's capability
//!   registry::service::stopped     → deregister the service
//!   registry::capability::added    → noted, nothing to change
//!   registry::capability::removed  → noted, nothing to change
//!
//! Unknown topics and unreadable payloads change nothing and are not
//! reported as failures, so a single bad message cannot disrupt the bus.
use vstd::prelude::*;

use crate::clock::{clock_could_read, Timestamp};
use crate::models::{
    entry_id, instant_or_epoch, stamped_now, text_is, EntryView, ServiceEntry, ServiceStatus,
};
use crate::registry::{
    deregistered, has_id, ids_of, of_service, registered, text_views, RegisterOutcome, Registry,
};

verus! {

/// Payload of `registry::service::registered`.
pub struct ServiceStartedPayload {
    /// Service identifier, e.g. `"kanidm"`.
    pub service_id: String,
    /// Capability this service provides, e.g. `"iam"`.
    pub capability: String,
    /// Base URL of the service's HTTP API, e.g. `"http://kanidm:8443"`.
    pub endpoint: String,
}

/// Payload of `registry::service::stopped`.
pub struct ServiceStoppedPayload {
    pub service_id: String,
}

/// What an event's topic asks of the registry.
#[derive(Debug, Clone, Copy, PartialEq, Eq, Structural)]
pub enum TopicAction {
    /// `registry::service::registered`: register the service's capability.
    RegisterService,
    /// `registry::service::stopped`: deregister the service.
    DeregisterService,
    /// `registry::capability::added` or `registry::capability::removed`.
    CapabilityNotice,
    /// Any other topic.
    Unhandled,
}

/// The action for a topic.
pub open spec fn topic_action_of(topic: Seq<char>) -> TopicAction {
    if topic == "registry::service::registered"@ {
        TopicAction::RegisterService
    } else if topic == "registry::service::stopped"@ {
        TopicAction::DeregisterService
    } else if topic == "registry::capability::added"@ || topic
        == "registry::capability::removed"@ {
        TopicAction::CapabilityNotice
    } else {
        TopicAction::Unhandled
    }
}

/// The action for a topic.
pub fn topic_action(topic: &str) -> (a: TopicAction)
    ensures
        a == topic_action_of(topic@),
{
    if text_is(topic, "registry::service::registered") {
        TopicAction::RegisterService
    } else if text_is(topic, "registry::service::stopped") {
        TopicAction::DeregisterService
    } else if text_is(topic, "registry::capability::added") || text_is(
        topic,
        "registry::capability::removed",
    ) {
        TopicAction::CapabilityNotice
    } else {
        TopicAction::Unhandled
    }
}

/// The payload of an event, as read for its topic.
pub enum EventPayload {
    /// A `registry::service::registered` payload.
    Started(ServiceStartedPayload),
    /// A `registry::service::stopped` payload.
    Stopped(ServiceStoppedPayload),
    /// The payload could not be read as the topic's payload.
    Unreadable,
}

/// What handling an event did.
pub enum HandleOutcome {
    /// The service's capability was registered: how, and the entry.
    Registered(RegisterOutcome, ServiceEntry),
    /// The service was deregistered: the ids of the removed entries.
    Deregistered(Vec<String>),
    /// The payload did not fit the topic; nothing changed.
    BadPayload,
    /// A capability notice; nothing changed.
    CapabilityNotice,
    /// A topic that the registry does not handle; nothing changed.
    Unhandled,
}

/// Subscribes to the `registry::` bus events and keeps the registry in sync.
pub struct RegistryBusHandler {
    pub registry: Registry,
}

/// Whether `e` carries the id, service, capability and endpoint that a
/// started service registers, and is up.
pub open spec fn started_fields(e: EntryView, p: ServiceStartedPayload) -> bool {
    &&& e.id == entry_id(p.service_id@, p.capability@)
    &&& e.service_id == p.service_id@
    &&& e.capability == p.capability@
    &&& e.endpoint == p.endpoint@
    &&& e.status == ServiceStatus::Up
}

/// Whether `e` is the entry that a started service registers now.
pub open spec fn started_entry(e: EntryView, p: ServiceStartedPayload) -> bool {
    &&& started_fields(e, p)
    &&& stamped_now(e.registered_at)
}

/// Whether `e` is the entry that a started service registers at `now`.
pub open spec fn started_entry_at(e: EntryView, p: ServiceStartedPayload, now: Option<Timestamp>) -> bool {
    &&& started_fields(e, p)
    &&& e.registered_at == instant_or_epoch(now)
}

impl RegistryBusHandler {
    /// Wrap a registry in a bus handler.
    pub fn new(registry: Registry) -> (h: Self)
        ensures
            h.registry@ == registry@,
    {
        RegistryBusHandler { registry }
    }

    /// The topics that this handler subscribes to: the whole `registry`
    /// namespace.
    pub fn topic_pattern(&self) -> (p: &'static str)
        ensures
            p@ == "registry::#"@,
    {
        "registry::#"
    }

    /// Handle one event, with `now` as the time that a registration is
    /// stamped with (the Unix epoch where it is `None`).
    pub fn handle_at(
        &mut self,
        topic: &str,
        payload: EventPayload,
        now: Option<Timestamp>,
    ) -> (o: HandleOutcome)
        ensures
            match (topic_action_of(topic@), payload) {
                (TopicAction::RegisterService, EventPayload::Started(p)) => exists|e: EntryView|
                    started_entry_at(e, p, now) && final(self).registry@ == #[trigger] registered(
                        old(self).registry@,
                        e,
                    ) && match o {
                        HandleOutcome::Registered(r, entry) => entry@ == e && (r
                            == RegisterOutcome::Updated) == has_id(old(self).registry@, e.id),
                        _ => false,
                    },
                (TopicAction::DeregisterService, EventPayload::Stopped(p)) => final(self).registry@
                    == deregistered(old(self).registry@, p.service_id@) && match o {
                    HandleOutcome::Deregistered(ids) => text_views(ids@) == ids_of(
                        of_service(old(self).registry@, p.service_id@),
                    ),
                    _ => false,
                },
                (TopicAction::RegisterService, _) => final(self).registry@ == old(self).registry@
                    && o is BadPayload,
                (TopicAction::DeregisterService, _) => final(self).registry@
                    == old(self).registry@ && o is BadPayload,
                (TopicAction::CapabilityNotice, _) => final(self).registry@
                    == old(self).registry@ && o is CapabilityNotice,
                (TopicAction::Unhandled, _) => final(self).registry@ == old(self).registry@
                    && o is Unhandled,
            },
    {
        match topic_action(topic) {
            TopicAction::RegisterService => match payload {
                EventPayload::Started(p) => {
                    let entry = ServiceEntry::new_at(
                        p.service_id.as_str(),
                        p.capability.as_str(),
                        p.endpoint.as_str(),
                        now,
                    );
                    let ghost e = entry@;
                    let copy = entry.clone();
                    let r = self.registry.register(entry);
                    assert(started_entry_at(e, p, now));
                    HandleOutcome::Registered(r, copy)
                },
                _ => HandleOutcome::BadPayload,
            },
            TopicAction::DeregisterService => match payload {
                EventPayload::Stopped(p) => {
                    let ids = self.registry.deregister(p.service_id.as_str());
                    HandleOutcome::Deregistered(ids)
                },
                _ => HandleOutcome::BadPayload,
            },
            TopicAction::CapabilityNotice => HandleOutcome::CapabilityNotice,
            TopicAction::Unhandled => HandleOutcome::Unhandled,
        }
    }

    /// Handle one event.
    pub fn handle(&mut self, topic: &str, payload: EventPayload) -> (o: HandleOutcome)
        ensures
            match (topic_action_of(topic@), payload) {
                (TopicAction::RegisterService, EventPayload::Started(p)) => exists|e: EntryView|
                    started_entry(e, p) && final(self).registry@ == #[trigger] registered(
                        old(self).registry@,
                        e,
                    ) && match o {
                        HandleOutcome::Registered(r, entry) => entry@ == e && (r
                            == RegisterOutcome::Updated) == has_id(old(self).registry@, e.id),
                        _ => false,
                    },
                (TopicAction::DeregisterService, EventPayload::Stopped(p)) => final(self).registry@
                    == deregistered(old(self).registry@, p.service_id@) && match o {
                    HandleOutcome::Deregistered(ids) => text_views(ids@) == ids_of(
                        of_service(old(self).registry@, p.service_id@),
                    ),
                    _ => false,
                },
                (TopicAction::RegisterService, _) => final(self).registry@ == old(self).registry@
                    && o is BadPayload,
                (TopicAction::DeregisterService, _) => final(self).registry@
                    == old(self).registry@ && o is BadPayload,
                (TopicAction::CapabilityNotice, _) => final(self).registry@
                    == old(self).registry@ && o is CapabilityNotice,
                (TopicAction::Unhandled, _) => final(self).registry@ == old(self).registry@
                    && o is Unhandled,
            },
    {
        let now = Timestamp::now();
        let o = self.handle_at(topic, payload, now);
        proof {
            crate::models::lemma_stamped_now(now);
        }
        o
    }
}

} // verus!
