//! Tests of the statuses, the texts of errors, and the replies of the REST
//! API, the gRPC API and the command line client.

use fs_registry::bus_handler::{topic_action, TopicAction};
use fs_registry::clock::Timestamp;
use fs_registry::config::Config;
use fs_registry::stored::{has_unreadable_id, unreadable_error, RowQuery, UnreadableRow};
use fs_registry::cli::{list_report, lookup_report, status_report};
use fs_registry::grpc::{self, EndpointForResponse, HealthResponse, ServiceEntryProto};
use fs_registry::rest::{self, ServiceEntryResponse};
use fs_registry::text::{push_decimal, push_padded};
use fs_registry::{RegistryError, ServiceEntry, ServiceStatus};

fn at(secs: i64, nanos: u32) -> Timestamp {
    Timestamp::from_unix(secs, nanos).unwrap()
}

fn entry_at(secs: i64) -> ServiceEntry {
    ServiceEntry {
        id: "kanidm::iam".to_string(),
        service_id: "kanidm".to_string(),
        capability: "iam".to_string(),
        endpoint: "http://kanidm:8443".to_string(),
        status: ServiceStatus::Down,
        registered_at: at(secs, 0),
    }
}

fn proto(id: &str, endpoint: &str, status: &str, at: &str) -> ServiceEntryProto {
    ServiceEntryProto {
        id: id.to_string(),
        service_id: String::new(),
        capability: String::new(),
        endpoint: endpoint.to_string(),
        status: status.to_string(),
        registered_at: at.to_string(),
    }
}

// ── Statuses ──────────────────────────────────────────────────────────────────

#[test]
fn status_texts() {
    assert_eq!(ServiceStatus::Up.display_text(), "Up");
    assert_eq!(ServiceStatus::Down.display_text(), "Down");
    assert_eq!(ServiceStatus::Unknown.display_text(), "Unknown");
    assert_eq!(ServiceStatus::Up.wire_text(), "up");
    assert_eq!(ServiceStatus::Down.wire_text(), "down");
    assert_eq!(ServiceStatus::Unknown.wire_text(), "unknown");
    assert_eq!(ServiceStatus::default(), ServiceStatus::Up);
}

#[test]
fn parse_status_reads_wire_names() {
    for parse in [rest::parse_status, grpc::parse_status] {
        assert_eq!(parse("up"), ServiceStatus::Up);
        assert_eq!(parse("down"), ServiceStatus::Down);
        assert_eq!(parse("unknown"), ServiceStatus::Unknown);
        assert_eq!(parse("Up"), ServiceStatus::Unknown);
        assert_eq!(parse(""), ServiceStatus::Unknown);
    }
}

#[test]
fn parse_status_reads_back_every_wire_name() {
    for s in [ServiceStatus::Up, ServiceStatus::Down, ServiceStatus::Unknown] {
        assert_eq!(rest::parse_status(&s.wire_text()), s);
    }
}

// ── Errors ────────────────────────────────────────────────────────────────────

#[test]
fn error_messages() {
    assert_eq!(
        RegistryError::NotFound { id: "a::b".into() }.message(),
        "service not found: a::b"
    );
    assert_eq!(
        RegistryError::Database("disk full".into()).message(),
        "database error: disk full"
    );
    assert_eq!(
        RegistryError::Json("bad".into()).message(),
        "serialisation error: bad"
    );
    assert!(RegistryError::NotFound { id: String::new() }.is_not_found());
    assert!(!RegistryError::Json(String::new()).is_not_found());
}

// ── Times ─────────────────────────────────────────────────────────────────────

#[test]
fn registration_time_as_rfc3339() {
    assert_eq!(entry_at(0).registered_at_text(), "1970-01-01T00:00:00+00:00");
    assert_eq!(
        entry_at(1_662_921_288).registered_at_text(),
        "2022-09-11T18:34:48+00:00"
    );
}

#[test]
fn stored_rows_read_their_time_or_fall_back_to_the_epoch() {
    let e = ServiceEntry::from_stored(
        "a::b".into(),
        "a".into(),
        "b".into(),
        "http://a".into(),
        ServiceStatus::Down,
        "2022-09-11T18:34:48+00:00",
    );
    assert_eq!(e.registered_at, at(1_662_921_288, 0));
    assert_eq!(e.status, ServiceStatus::Down);
    assert_eq!(e.id, "a::b");
    let bad = ServiceEntry::from_stored(
        "a::b".into(),
        "a".into(),
        "b".into(),
        "http://a".into(),
        ServiceStatus::Up,
        "yesterday",
    );
    assert_eq!(bad.registered_at, Timestamp::epoch());
}

// ── REST ──────────────────────────────────────────────────────────────────────

#[test]
fn rest_entry_response() {
    let r = ServiceEntryResponse::from_entry(entry_at(0));
    assert_eq!(r.id, "kanidm::iam");
    assert_eq!(r.service_id, "kanidm");
    assert_eq!(r.capability, "iam");
    assert_eq!(r.endpoint, "http://kanidm:8443");
    assert_eq!(r.status, "down");
    assert_eq!(r.registered_at, "1970-01-01T00:00:00+00:00");
}

#[test]
fn rest_change_replies() {
    let (code, body) = rest::register_reply(&Ok(()));
    assert_eq!(code, 201);
    assert!(body.ok);
    assert_eq!(body.message, "");
    let (code, body) = rest::register_reply(&Err(RegistryError::Database("x".into())));
    assert_eq!(code, 500);
    assert!(!body.ok);
    assert_eq!(body.message, "database error: x");
    let (code, body) = rest::deregister_reply(&Ok(()));
    assert_eq!(code, 200);
    assert!(body.ok);
    let (code, _) = rest::deregister_reply(&Err(RegistryError::Json("y".into())));
    assert_eq!(code, 500);
}

#[test]
fn rest_set_status_replies() {
    let (code, body) = rest::set_status_reply("a::b", &Ok(()));
    assert_eq!(code, 200);
    assert!(body.ok);
    let (code, body) =
        rest::set_status_reply("a::b", &Err(RegistryError::NotFound { id: "a::b".into() }));
    assert_eq!(code, 404);
    assert!(!body.ok);
    assert_eq!(body.message, "entry 'a::b' not found");
    let (code, body) = rest::set_status_reply("a::b", &Err(RegistryError::Database("z".into())));
    assert_eq!(code, 500);
    assert_eq!(body.message, "database error: z");
}

#[test]
fn rest_query_replies() {
    let out = rest::list_reply(Ok(vec![entry_at(0)])).ok().unwrap();
    assert_eq!(out.len(), 1);
    assert_eq!(out[0].status, "down");
    assert_eq!(
        rest::list_reply(Err(RegistryError::Database("d".into()))).err(),
        Some(500)
    );
    let found = rest::endpoint_reply(Ok(Some("http://a".into()))).ok().unwrap();
    assert!(found.found);
    assert_eq!(found.endpoint, Some("http://a".to_string()));
    let missing = rest::endpoint_reply(Ok(None)).ok().unwrap();
    assert!(!missing.found);
    assert_eq!(missing.endpoint, None);
    let health = rest::health_reply(Ok(3)).ok().unwrap();
    assert!(health.ok);
    assert_eq!(health.entry_count, 3);
    assert_eq!(
        rest::health_reply(Err(RegistryError::Database("d".into()))).err(),
        Some(500)
    );
}

// ── gRPC ──────────────────────────────────────────────────────────────────────

#[test]
fn grpc_entry_to_proto() {
    let p = grpc::entry_to_proto(entry_at(0));
    assert_eq!(p.id, "kanidm::iam");
    assert_eq!(p.status, "down");
    assert_eq!(p.registered_at, "1970-01-01T00:00:00+00:00");
}

#[test]
fn grpc_replies() {
    let r = grpc::register_reply(&Ok(()));
    assert!(r.ok);
    assert_eq!(r.message, "");
    let r = grpc::deregister_reply(&Err(RegistryError::Database("gone".into())));
    assert!(!r.ok);
    assert_eq!(r.message, "database error: gone");
    let r = grpc::set_status_reply(&Err(RegistryError::NotFound { id: "x::y".into() }));
    assert!(!r.ok);
    assert_eq!(r.message, "service not found: x::y");

    let list = grpc::list_reply(Ok(vec![entry_at(0), entry_at(0)])).ok().unwrap();
    assert_eq!(list.entries.len(), 2);
    let err = grpc::lookup_reply(Err(RegistryError::Json("j".into()))).err();
    assert_eq!(err, Some("serialisation error: j".to_string()));

    let ep = grpc::endpoint_for_reply(Ok(Some("http://a".into()))).ok().unwrap();
    assert!(ep.found);
    assert_eq!(ep.endpoint, "http://a");
    let ep = grpc::endpoint_for_reply(Ok(None)).ok().unwrap();
    assert!(!ep.found);
    assert_eq!(ep.endpoint, "");

    let h = grpc::health_reply(Ok(7));
    assert!(h.ok);
    assert_eq!(h.entry_count, 7);
    assert_eq!(h.message, "");
    let h = grpc::health_reply(Err(RegistryError::Database("down".into())));
    assert!(!h.ok);
    assert_eq!(h.entry_count, 0);
    assert_eq!(h.message, "database error: down");
}

#[test]
fn grpc_health_count_saturates() {
    if usize::BITS > 32 {
        let h = grpc::health_reply(Ok(5_000_000_000u64 as usize));
        assert_eq!(h.entry_count, u32::MAX);
    }
}

// ── Command line client ───────────────────────────────────────────────────────

#[test]
fn padding_and_numbers() {
    let mut s = String::new();
    push_padded(&mut s, "ab", 5);
    assert_eq!(s, "ab   ");
    let mut s = String::new();
    push_padded(&mut s, "abcdef", 3);
    assert_eq!(s, "abcdef");
    let mut s = String::from("n=");
    push_decimal(&mut s, 0);
    push_decimal(&mut s, 4_294_967_295);
    assert_eq!(s, "n=04294967295");
}

#[test]
fn list_report_lines() {
    assert_eq!(list_report(&vec![]), vec!["No services registered."]);
    let lines = list_report(&vec![proto("kanidm::iam", "http://kanidm:8443", "up", "T")]);
    assert_eq!(lines.len(), 3);
    assert_eq!(
        lines[0],
        format!("{:<30} {:<25} {:<8} REGISTERED", "ID", "ENDPOINT", "STATUS")
    );
    assert_eq!(lines[1], "-".repeat(90));
    assert_eq!(
        lines[2],
        format!(
            "{:<30} {:<25} {:<8} {}",
            "kanidm::iam", "http://kanidm:8443", "up", "T"
        )
    );
}

#[test]
fn lookup_report_lines() {
    assert_eq!(
        lookup_report("iam", &vec![], None),
        vec!["No services registered for capability 'iam'."]
    );
    let entries = vec![proto("kanidm::iam", "http://kanidm:8443", "up", "T")];
    let found = EndpointForResponse {
        found: true,
        endpoint: "http://kanidm:8443".into(),
    };
    let lines = lookup_report("iam", &entries, Some(found));
    assert_eq!(lines.len(), 5);
    assert_eq!(lines[0], "Active endpoint for 'iam': http://kanidm:8443");
    assert_eq!(lines[1], "");
    assert_eq!(lines[2], format!("{:<30} {:<25} STATUS", "ID", "ENDPOINT"));
    assert_eq!(lines[3], "-".repeat(70));
    assert_eq!(
        lines[4],
        format!("{:<30} {:<25} {}", "kanidm::iam", "http://kanidm:8443", "up")
    );
    let not_found = EndpointForResponse {
        found: false,
        endpoint: String::new(),
    };
    let lines = lookup_report("iam", &entries, Some(not_found));
    assert_eq!(lines[0], "No active endpoint for 'iam'.");
    let lines = lookup_report("iam", &entries, None);
    assert_eq!(lines[0], "No active endpoint for 'iam'.");
}

#[test]
fn status_report_lines() {
    let ok = HealthResponse {
        ok: true,
        entry_count: 12,
        message: String::new(),
    };
    assert_eq!(status_report(&ok), "Registry: OK (12 entries)");
    let bad = HealthResponse {
        ok: false,
        entry_count: 0,
        message: "database error: gone".into(),
    };
    assert_eq!(status_report(&bad), "Registry: DEGRADED — database error: gone");
}

// ── Bus topics ────────────────────────────────────────────────────────────────

#[test]
fn topic_actions() {
    assert_eq!(
        topic_action("registry::service::registered"),
        TopicAction::RegisterService
    );
    assert_eq!(
        topic_action("registry::service::stopped"),
        TopicAction::DeregisterService
    );
    assert_eq!(
        topic_action("registry::capability::added"),
        TopicAction::CapabilityNotice
    );
    assert_eq!(
        topic_action("registry::capability::removed"),
        TopicAction::CapabilityNotice
    );
    assert_eq!(topic_action("registry::other"), TopicAction::Unhandled);
}

// ── Daemon configuration ──────────────────────────────────────────────────────

#[test]
fn config_defaults_and_values() {
    let c = Config::from_values(None, None, None);
    assert_eq!(c.db_path, "/var/lib/freesynergy/registry.db");
    assert_eq!(c.grpc_port, 50060);
    assert_eq!(c.rest_port, 8060);
    let c = Config::from_values(Some("/tmp/r.db".into()), Some("+9000".into()), Some("80".into()));
    assert_eq!(c.db_path, "/tmp/r.db");
    assert_eq!(c.grpc_port, 9000);
    assert_eq!(c.rest_port, 80);
    let c = Config::from_values(None, Some("70000".into()), Some(" 80".into()));
    assert_eq!(c.grpc_port, 50060);
    assert_eq!(c.rest_port, 8060);
    let c = Config::from_values(None, Some("-1".into()), Some("".into()));
    assert_eq!(c.grpc_port, 50060);
    assert_eq!(c.rest_port, 8060);
}

#[test]
fn rows_without_a_readable_time_stand_at_the_epoch() {
    let e = ServiceEntry::from_row(
        "a::b".into(),
        "a".into(),
        "b".into(),
        "http://a".into(),
        ServiceStatus::Unknown,
        Some(at(42, 7)),
    );
    assert_eq!(e.registered_at, at(42, 7));
    assert_eq!(e.status, ServiceStatus::Unknown);
    let e = ServiceEntry::from_row(
        "a::b".into(),
        "a".into(),
        "b".into(),
        "http://a".into(),
        ServiceStatus::Up,
        None,
    );
    assert_eq!(e.registered_at, Timestamp::epoch());
}

#[test]
fn times_beyond_nanosecond_range_are_kept() {
    let e = ServiceEntry::from_stored(
        "a::b".into(),
        "a".into(),
        "b".into(),
        "http://a".into(),
        ServiceStatus::Up,
        "3000-01-01T00:00:00Z",
    );
    assert_eq!(e.registered_at, at(32_503_680_000, 0));
    assert_eq!(e.registered_at_text(), "3000-01-01T00:00:00+00:00");
    let old = ServiceEntry::from_stored(
        "a::b".into(),
        "a".into(),
        "b".into(),
        "http://a".into(),
        ServiceStatus::Up,
        "1500-06-01T12:00:00.5+00:00",
    );
    assert_eq!(old.registered_at.nanos(), 500_000_000);
    assert!(old.registered_at.secs() < 0);
}

#[test]
fn clock_readings_before_and_after_the_epoch() {
    assert_eq!(Timestamp::from_clock(Ok((5, 7))), Some(at(5, 7)));
    assert_eq!(Timestamp::from_clock(Err((5, 0))), Some(at(-5, 0)));
    assert_eq!(Timestamp::from_clock(Err((5, 250_000_000))), Some(at(-6, 750_000_000)));
    assert_eq!(Timestamp::from_clock(Ok((u64::MAX, 0))), None);
    assert!(Timestamp::from_unix(i64::MAX, 0).is_none());
    assert!(Timestamp::now().is_some());
}

#[test]
fn new_at_takes_the_given_time() {
    let e = ServiceEntry::new_at("kanidm", "iam", "http://kanidm:8443", Some(at(100, 1)));
    assert_eq!(e.registered_at, at(100, 1));
    assert_eq!(e.id, "kanidm::iam");
    assert_eq!(e.status, ServiceStatus::Up);
    let e = ServiceEntry::new_at("kanidm", "iam", "http://kanidm:8443", None);
    assert_eq!(e.registered_at, Timestamp::epoch());
}

#[test]
fn database_urls() {
    assert_eq!(fs_registry::config::database_url(":memory:"), "sqlite::memory:");
    assert_eq!(
        fs_registry::config::database_url("/var/lib/freesynergy/registry.db"),
        "sqlite:///var/lib/freesynergy/registry.db?mode=rwc"
    );
}

#[test]
fn lookup_asks_for_the_endpoint_only_when_entries_came_back() {
    assert!(!fs_registry::cli::wants_active_endpoint(&vec![]));
    assert!(fs_registry::cli::wants_active_endpoint(&vec![proto("a::b", "e", "up", "T")]));
}

#[test]
fn unreadable_rows_fail_the_queries_that_read_them() {
    let rows = vec![
        UnreadableRow {
            id: "a::x".into(),
            service_id: "a".into(),
            capability: "x".into(),
            message: "first".into(),
        },
        UnreadableRow {
            id: "b::y".into(),
            service_id: "b".into(),
            capability: "y".into(),
            message: "second".into(),
        },
    ];
    match unreadable_error(&rows, &RowQuery::All) {
        Some(RegistryError::Json(m)) => assert_eq!(m, "first"),
        _ => panic!("expected Json"),
    }
    match unreadable_error(&rows, &RowQuery::Capability("y".into())) {
        Some(RegistryError::Json(m)) => assert_eq!(m, "second"),
        _ => panic!("expected Json"),
    }
    assert!(unreadable_error(&rows, &RowQuery::Service("c".into())).is_none());
    assert!(unreadable_error(&vec![], &RowQuery::All).is_none());
    assert!(has_unreadable_id(&rows, "b::y"));
    assert!(!has_unreadable_id(&rows, "c::z"));
}
