//! Integration tests for the registry.

use fs_registry::bus_handler::{EventPayload, HandleOutcome};
use fs_registry::registry::RegisterOutcome;
use fs_registry::{
    Registry, RegistryBusHandler, RegistryError, ServiceEntry, ServiceStartedPayload,
    ServiceStatus, ServiceStoppedPayload,
};

const REGISTERED: &str = "registry::service::registered";
const STOPPED: &str = "registry::service::stopped";

fn registry() -> Registry {
    Registry::new()
}

// ── endpoint_for_capability ───────────────────────────────────────────────────

#[test]
fn endpoint_for_capability_returns_up_service() {
    let mut reg = registry();
    reg.register(ServiceEntry::new("kanidm", "iam", "http://kanidm:8443"));

    let ep = reg.endpoint_for_capability("iam");
    assert_eq!(ep, Some("http://kanidm:8443".to_string()));
}

#[test]
fn endpoint_for_capability_skips_down_service() {
    let mut reg = registry();
    let entry = ServiceEntry::new("kanidm", "iam", "http://kanidm:8443");
    let id = entry.id.clone();
    reg.register(entry);
    assert!(reg.set_status(&id, ServiceStatus::Down).is_ok());

    let ep = reg.endpoint_for_capability("iam");
    assert_eq!(ep, None, "down service should not be returned");
}

#[test]
fn endpoint_for_capability_returns_none_when_empty() {
    let reg = registry();
    let ep = reg.endpoint_for_capability("iam");
    assert_eq!(ep, None);
}

#[test]
fn endpoint_for_capability_prefers_up_over_down() {
    let mut reg = registry();
    // Register kanidm as down
    let e1 = ServiceEntry::new("kanidm", "iam", "http://kanidm:8443");
    let id1 = e1.id.clone();
    reg.register(e1);
    assert!(reg.set_status(&id1, ServiceStatus::Down).is_ok());
    // Register a second IAM provider that is up
    reg.register(ServiceEntry::new("authentik", "iam", "http://authentik:9000"));

    let ep = reg.endpoint_for_capability("iam");
    assert_eq!(ep, Some("http://authentik:9000".to_string()));
}

// ── Bus handler ───────────────────────────────────────────────────────────────

#[test]
fn bus_handler_registers_on_service_started_event() {
    let mut handler = RegistryBusHandler::new(registry());

    let payload = ServiceStartedPayload {
        service_id: "stalwart".into(),
        capability: "mail".into(),
        endpoint: "http://stalwart:25".into(),
    };
    let outcome = handler.handle(REGISTERED, EventPayload::Started(payload));
    assert!(matches!(outcome, HandleOutcome::Registered(RegisterOutcome::Inserted, _)));

    let results = handler.registry.by_capability("mail");
    assert_eq!(results.len(), 1);
    assert_eq!(results[0].service_id, "stalwart");
}

#[test]
fn bus_handler_deregisters_on_service_stopped_event() {
    let mut handler = RegistryBusHandler::new(registry());

    // Register first via bus
    let started = ServiceStartedPayload {
        service_id: "stalwart".into(),
        capability: "mail".into(),
        endpoint: "http://stalwart:25".into(),
    };
    handler.handle(REGISTERED, EventPayload::Started(started));

    // Now stop via bus
    let stopped = ServiceStoppedPayload {
        service_id: "stalwart".into(),
    };
    handler.handle(STOPPED, EventPayload::Stopped(stopped));

    let results = handler.registry.by_capability("mail");
    assert!(results.is_empty(), "service should be deregistered");
}

#[test]
fn bus_handler_topic_pattern_is_registry_namespace() {
    let handler = RegistryBusHandler::new(registry());
    assert_eq!(handler.topic_pattern(), "registry::#");
}

// ── Registration and queries ──────────────────────────────────────────────────

#[test]
fn register_and_query_by_capability() {
    let mut reg = registry();
    let entry = ServiceEntry::new("kanidm", "iam", "http://kanidm:8443");

    reg.register(entry);

    let results = reg.by_capability("iam");
    assert_eq!(results.len(), 1);
    assert_eq!(results[0].service_id, "kanidm");
    assert_eq!(results[0].endpoint, "http://kanidm:8443");
    assert!(results[0].is_up());
}

#[test]
fn one_service_multiple_capabilities() {
    let mut reg = registry();
    reg.register(ServiceEntry::new("kanidm", "iam", "http://kanidm:8443"));
    reg.register(ServiceEntry::new("kanidm", "scim", "http://kanidm:8443"));

    let all = reg.by_service("kanidm");
    assert_eq!(all.len(), 2);

    let iam = reg.by_capability("iam");
    let scim = reg.by_capability("scim");
    assert_eq!(iam.len(), 1);
    assert_eq!(scim.len(), 1);
}

#[test]
fn re_register_updates_endpoint() {
    let mut reg = registry();
    reg.register(ServiceEntry::new("stalwart", "mail", "http://stalwart:25"));
    reg.register(ServiceEntry::new("stalwart", "mail", "http://stalwart:587"));

    let results = reg.by_capability("mail");
    assert_eq!(results.len(), 1, "should not create duplicate");
    assert_eq!(results[0].endpoint, "http://stalwart:587");
}

#[test]
fn deregister_removes_all_service_entries() {
    let mut reg = registry();
    reg.register(ServiceEntry::new("kanidm", "iam", "http://kanidm:8443"));
    reg.register(ServiceEntry::new("kanidm", "scim", "http://kanidm:8443"));

    reg.deregister("kanidm");

    let all = reg.all();
    assert!(all.is_empty());
}

#[test]
fn set_status_marks_service_down() {
    let mut reg = registry();
    let entry = ServiceEntry::new("kanidm", "iam", "http://kanidm:8443");
    let id = entry.id.clone();
    reg.register(entry);

    assert!(reg.set_status(&id, ServiceStatus::Down).is_ok());

    let results = reg.by_capability("iam");
    assert_eq!(results[0].status, ServiceStatus::Down);
    assert!(!results[0].is_up());
}

#[test]
fn set_status_not_found_returns_error() {
    let mut reg = registry();
    let result = reg.set_status("nonexistent::cap", ServiceStatus::Down);
    assert!(matches!(result, Err(RegistryError::NotFound { .. })));
}

// ── Further cases ─────────────────────────────────────────────────────────────

#[test]
fn entry_id_joins_service_and_capability() {
    let e = ServiceEntry::new("kanidm", "iam", "http://kanidm:8443");
    assert_eq!(e.id, "kanidm::iam");
    assert_eq!(e.service_id, "kanidm");
    assert_eq!(e.capability, "iam");
    assert_eq!(e.endpoint, "http://kanidm:8443");
    assert_eq!(e.status, ServiceStatus::Up);
    assert!(e.registered_at.secs() > 0);
}

#[test]
fn register_reports_insert_then_update() {
    let mut reg = registry();
    assert_eq!(reg.register_outcome("a::x"), RegisterOutcome::Inserted);
    assert_eq!(
        reg.register(ServiceEntry::new("a", "x", "http://a:1")),
        RegisterOutcome::Inserted
    );
    assert!(reg.contains_id("a::x"));
    assert_eq!(reg.register_outcome("a::x"), RegisterOutcome::Updated);
    assert_eq!(
        reg.register(ServiceEntry::new("a", "x", "http://a:2")),
        RegisterOutcome::Updated
    );
    assert_eq!(reg.len(), 1);
}

#[test]
fn entries_keep_their_first_insertion_order() {
    let mut reg = registry();
    reg.register(ServiceEntry::new("a", "x", "http://a"));
    reg.register(ServiceEntry::new("b", "y", "http://b"));
    reg.register(ServiceEntry::new("c", "x", "http://c"));
    // Re-registering `a` keeps its place.
    reg.register(ServiceEntry::new("a", "x", "http://a2"));
    let ids: Vec<String> = reg.all().into_iter().map(|e| e.id).collect();
    assert_eq!(ids, vec!["a::x", "b::y", "c::x"]);
    let x: Vec<String> = reg.by_capability("x").into_iter().map(|e| e.endpoint).collect();
    assert_eq!(x, vec!["http://a2", "http://c"]);
}

#[test]
fn deregister_returns_removed_ids_and_keeps_others() {
    let mut reg = registry();
    reg.register(ServiceEntry::new("kanidm", "iam", "http://kanidm:8443"));
    reg.register(ServiceEntry::new("stalwart", "mail", "http://stalwart:25"));
    reg.register(ServiceEntry::new("kanidm", "scim", "http://kanidm:8443"));

    let removed = reg.deregister("kanidm");
    assert_eq!(removed, vec!["kanidm::iam", "kanidm::scim"]);
    let left = reg.all();
    assert_eq!(left.len(), 1);
    assert_eq!(left[0].id, "stalwart::mail");
}

#[test]
fn deregister_unknown_service_is_a_no_op() {
    let mut reg = registry();
    reg.register(ServiceEntry::new("kanidm", "iam", "http://kanidm:8443"));
    let removed = reg.deregister("nobody");
    assert!(removed.is_empty());
    assert_eq!(reg.len(), 1);
}

#[test]
fn endpoint_skips_other_capabilities() {
    let mut reg = registry();
    reg.register(ServiceEntry::new("stalwart", "mail", "http://stalwart:25"));
    assert_eq!(reg.endpoint_for_capability("iam"), None);
}

#[test]
fn set_status_changes_only_that_entry() {
    let mut reg = registry();
    reg.register(ServiceEntry::new("kanidm", "iam", "http://kanidm:8443"));
    reg.register(ServiceEntry::new("kanidm", "scim", "http://kanidm:8443"));
    assert!(reg.set_status("kanidm::scim", ServiceStatus::Unknown).is_ok());
    let all = reg.all();
    assert_eq!(all[0].status, ServiceStatus::Up);
    assert_eq!(all[1].status, ServiceStatus::Unknown);
}

#[test]
fn set_status_not_found_names_the_id() {
    let mut reg = registry();
    match reg.set_status("ghost::x", ServiceStatus::Up) {
        Err(RegistryError::NotFound { id }) => assert_eq!(id, "ghost::x"),
        _ => panic!("expected NotFound"),
    }
    assert_eq!(reg.len(), 0);
}

#[test]
fn bus_handler_ignores_bad_payloads_and_other_topics() {
    let mut handler = RegistryBusHandler::new(registry());
    let outcome = handler.handle(REGISTERED, EventPayload::Unreadable);
    assert!(matches!(outcome, HandleOutcome::BadPayload));
    let outcome = handler.handle(
        STOPPED,
        EventPayload::Started(ServiceStartedPayload {
            service_id: "a".into(),
            capability: "b".into(),
            endpoint: "c".into(),
        }),
    );
    assert!(matches!(outcome, HandleOutcome::BadPayload));
    let outcome = handler.handle("registry::capability::added", EventPayload::Unreadable);
    assert!(matches!(outcome, HandleOutcome::CapabilityNotice));
    let outcome = handler.handle("registry::capability::removed", EventPayload::Unreadable);
    assert!(matches!(outcome, HandleOutcome::CapabilityNotice));
    let outcome = handler.handle("inventory::thing", EventPayload::Unreadable);
    assert!(matches!(outcome, HandleOutcome::Unhandled));
    assert_eq!(handler.registry.len(), 0);
}

#[test]
fn bus_handler_deregister_reports_ids() {
    let mut handler = RegistryBusHandler::new(registry());
    handler.handle(
        REGISTERED,
        EventPayload::Started(ServiceStartedPayload {
            service_id: "forgejo".into(),
            capability: "git".into(),
            endpoint: "http://forgejo:3000".into(),
        }),
    );
    match handler.handle(
        STOPPED,
        EventPayload::Stopped(ServiceStoppedPayload {
            service_id: "forgejo".into(),
        }),
    ) {
        HandleOutcome::Deregistered(ids) => assert_eq!(ids, vec!["forgejo::git"]),
        _ => panic!("expected Deregistered"),
    }
}

// ── Events as the bus delivers them ───────────────────────────────────────────

/// A `registry::service::registered` event delivered to the handler persists
/// the service entry in the registry.
#[test]
fn message_bus_register_via_publish() {
    let mut handler = RegistryBusHandler::new(registry());

    let payload = ServiceStartedPayload {
        service_id: "forgejo".into(),
        capability: "git".into(),
        endpoint: "http://forgejo:3000".into(),
    };
    handler.handle(REGISTERED, EventPayload::Started(payload));

    let results = handler.registry.by_capability("git");
    assert_eq!(results.len(), 1);
    assert_eq!(results[0].service_id, "forgejo");
    assert_eq!(results[0].endpoint, "http://forgejo:3000");
}

/// A stop event delivered to the handler removes the entry.
#[test]
fn message_bus_deregister_via_publish() {
    let mut handler = RegistryBusHandler::new(registry());

    let start = ServiceStartedPayload {
        service_id: "forgejo".into(),
        capability: "git".into(),
        endpoint: "http://forgejo:3000".into(),
    };
    handler.handle(REGISTERED, EventPayload::Started(start));

    let stop = ServiceStoppedPayload {
        service_id: "forgejo".into(),
    };
    handler.handle(STOPPED, EventPayload::Stopped(stop));

    let results = handler.registry.by_capability("git");
    assert!(
        results.is_empty(),
        "service must be removed after stop event"
    );
}

#[test]
fn bus_handler_reports_the_registered_entry() {
    let mut handler = RegistryBusHandler::new(registry());
    let outcome = handler.handle(
        REGISTERED,
        EventPayload::Started(ServiceStartedPayload {
            service_id: "kanidm".into(),
            capability: "iam".into(),
            endpoint: "http://kanidm:8443".into(),
        }),
    );
    match outcome {
        HandleOutcome::Registered(RegisterOutcome::Inserted, entry) => {
            assert_eq!(entry.id, "kanidm::iam");
            assert_eq!(entry.endpoint, "http://kanidm:8443");
            assert_eq!(entry.status, ServiceStatus::Up);
        }
        _ => panic!("expected Registered"),
    }
}
