//! The command line client: its arguments, and the report that it prints for
//! each command from the daemon's gRPC replies.
//!
//! Commands:
//!   fs-registry list                  — list all registered services
//!   fs-registry lookup <capability>   — all services for a capability
//!   fs-registry status                — health probe
use vstd::prelude::*;

use crate::grpc::{EndpointForResponse, HealthResponse, ServiceEntryProto};
use crate::registry::text_views;
use crate::text::{decimal, padded, push_decimal, push_padded, push_repeated, repeated};

verus! {

/// The arguments of the command line client.
pub struct Cli {
    /// gRPC endpoint of the running registry daemon.
    pub grpc: String,
    pub command: Command,
}

/// A command of the client.
pub enum Command {
    /// List all registered service entries.
    List,
    /// Find all services registered for a capability.
    Lookup {
        /// Capability identifier, e.g. `iam` or `db.engine.sqlite`.
        capability: String,
    },
    /// Show the registry daemon health.
    Status,
}

// ── The reports ──────────────────────────────────────────────────────────────

/// Header of the `list` table.
pub open spec fn list_header() -> Seq<char> {
    padded("ID"@, 30) + " "@ + padded("ENDPOINT"@, 25) + " "@ + padded("STATUS"@, 8)
        + " REGISTERED"@
}

/// A row of the `list` table.
pub open spec fn list_row(p: ServiceEntryProto) -> Seq<char> {
    padded(p.id@, 30) + " "@ + padded(p.endpoint@, 25) + " "@ + padded(p.status@, 8) + " "@
        + p.registered_at@
}

/// The lines that `list` prints.
pub open spec fn list_report_lines(ps: Seq<ServiceEntryProto>) -> Seq<Seq<char>> {
    if ps.len() == 0 {
        seq!["No services registered."@]
    } else {
        seq![list_header(), repeated('-', 90)] + ps.map_values(|p: ServiceEntryProto| list_row(p))
    }
}

/// Header of the `lookup` table.
pub open spec fn lookup_header() -> Seq<char> {
    padded("ID"@, 30) + " "@ + padded("ENDPOINT"@, 25) + " STATUS"@
}

/// A row of the `lookup` table.
pub open spec fn lookup_row(p: ServiceEntryProto) -> Seq<char> {
    padded(p.id@, 30) + " "@ + padded(p.endpoint@, 25) + " "@ + p.status@
}

/// The line on the active endpoint of a capability, from the reply of
/// `EndpointFor` (`None` where that call failed).
pub open spec fn active_line(capability: Seq<char>, active: Option<EndpointForResponse>) -> Seq<
    char,
> {
    match active {
        Some(r) => if r.found {
            "Active endpoint for '"@ + capability + "': "@ + r.endpoint@
        } else {
            "No active endpoint for '"@ + capability + "'."@
        },
        None => "No active endpoint for '"@ + capability + "'."@,
    }
}

/// The lines that `lookup` prints.
pub open spec fn lookup_report_lines(
    capability: Seq<char>,
    ps: Seq<ServiceEntryProto>,
    active: Option<EndpointForResponse>,
) -> Seq<Seq<char>> {
    if ps.len() == 0 {
        seq!["No services registered for capability '"@ + capability + "'."@]
    } else {
        seq![active_line(capability, active), Seq::<char>::empty(), lookup_header(), repeated('-', 70)]
            + ps.map_values(|p: ServiceEntryProto| lookup_row(p))
    }
}

/// The line that `status` prints.
pub open spec fn status_line(h: HealthResponse) -> Seq<char> {
    if h.ok {
        "Registry: OK ("@ + decimal(h.entry_count as nat) + " entries)"@
    } else {
        "Registry: DEGRADED — "@ + h.message@
    }
}

/// A text made of literals and padded cells.
fn header_line(with_registered: bool) -> (t: String)
    ensures
        t@ == (if with_registered {
            list_header()
        } else {
            lookup_header()
        }),
{
    let mut t = String::new();
    push_padded(&mut t, "ID", 30);
    t.append(" ");
    push_padded(&mut t, "ENDPOINT", 25);
    if with_registered {
        t.append(" ");
        push_padded(&mut t, "STATUS", 8);
        t.append(" REGISTERED");
    } else {
        t.append(" STATUS");
    }
    t
}

/// A rule of `n` dashes.
fn rule(n: usize) -> (t: String)
    ensures
        t@ == repeated('-', n as nat),
{
    let mut t = String::new();
    proof {
        reveal_strlit("-");
    }
    push_repeated(&mut t, "-", n);
    assert(t@ =~= repeated('-', n as nat));
    t
}

/// A row of the `list` or the `lookup` table.
fn table_row(p: &ServiceEntryProto, with_registered: bool) -> (t: String)
    ensures
        t@ == (if with_registered {
            list_row(*p)
        } else {
            lookup_row(*p)
        }),
{
    let mut t = String::new();
    push_padded(&mut t, p.id.as_str(), 30);
    t.append(" ");
    push_padded(&mut t, p.endpoint.as_str(), 25);
    t.append(" ");
    if with_registered {
        push_padded(&mut t, p.status.as_str(), 8);
        t.append(" ");
        t.append(p.registered_at.as_str());
    } else {
        t.append(p.status.as_str());
    }
    t
}

/// Append the rows of a table.
fn push_rows(lines: &mut Vec<String>, ps: &Vec<ServiceEntryProto>, with_registered: bool)
    ensures
        text_views(final(lines)@) == text_views(old(lines)@) + (if with_registered {
            ps@.map_values(|p: ServiceEntryProto| list_row(p))
        } else {
            ps@.map_values(|p: ServiceEntryProto| lookup_row(p))
        }),
{
    let ghost rows = if with_registered {
        ps@.map_values(|p: ServiceEntryProto| list_row(p))
    } else {
        ps@.map_values(|p: ServiceEntryProto| lookup_row(p))
    };
    let mut i: usize = 0;
    while i < ps.len()
        invariant
            i <= ps@.len(),
            rows == (if with_registered {
                ps@.map_values(|p: ServiceEntryProto| list_row(p))
            } else {
                ps@.map_values(|p: ServiceEntryProto| lookup_row(p))
            }),
            text_views(lines@) == text_views(old(lines)@) + rows.take(i as int),
        decreases ps@.len() - i,
    {
        let ghost before = lines@;
        lines.push(table_row(&ps[i], with_registered));
        assert(text_views(lines@) =~= text_views(before).push(rows[i as int]));
        assert(rows.take(i + 1) =~= rows.take(i as int).push(rows[i as int]));
        i = i + 1;
    }
    assert(rows.take(ps@.len() as int) =~= rows);
}

/// The lines that `list` prints for the entries of the `List` reply.
pub fn list_report(entries: &Vec<ServiceEntryProto>) -> (lines: Vec<String>)
    ensures
        text_views(lines@) == list_report_lines(entries@),
{
    let mut lines: Vec<String> = Vec::new();
    if entries.len() == 0 {
        lines.push(String::from_str("No services registered."));
        assert(text_views(lines@) =~= list_report_lines(entries@));
    } else {
        lines.push(header_line(true));
        lines.push(rule(90));
        assert(text_views(lines@) =~= seq![list_header(), repeated('-', 90)]);
        push_rows(&mut lines, entries, true);
    }
    lines
}

/// Whether `lookup` asks the daemon for the active endpoint: only when some
/// service is registered for the capability.
pub fn wants_active_endpoint(entries: &Vec<ServiceEntryProto>) -> (b: bool)
    ensures
        b == (entries@.len() > 0),
{
    entries.len() > 0
}

/// The lines that `lookup` prints for a capability, from the entries of the
/// `Lookup` reply and the reply of `EndpointFor` (`None` where that call
/// failed).
pub fn lookup_report(
    capability: &str,
    entries: &Vec<ServiceEntryProto>,
    active: Option<EndpointForResponse>,
) -> (lines: Vec<String>)
    ensures
        text_views(lines@) == lookup_report_lines(capability@, entries@, active),
{
    let mut lines: Vec<String> = Vec::new();
    if entries.len() == 0 {
        let mut t = String::from_str("No services registered for capability '");
        t.append(capability);
        t.append("'.");
        lines.push(t);
        assert(text_views(lines@) =~= lookup_report_lines(capability@, entries@, active));
    } else {
        let ghost first = active_line(capability@, active);
        let line = match active {
            Some(r) => {
                if r.found {
                    let mut t = String::from_str("Active endpoint for '");
                    t.append(capability);
                    t.append("': ");
                    t.append(r.endpoint.as_str());
                    t
                } else {
                    let mut t = String::from_str("No active endpoint for '");
                    t.append(capability);
                    t.append("'.");
                    t
                }
            },
            None => {
                let mut t = String::from_str("No active endpoint for '");
                t.append(capability);
                t.append("'.");
                t
            },
        };
        assert(line@ == first);
        lines.push(line);
        lines.push(String::new());
        lines.push(header_line(false));
        lines.push(rule(70));
        assert(text_views(lines@) =~= seq![
            first,
            Seq::<char>::empty(),
            lookup_header(),
            repeated('-', 70),
        ]);
        push_rows(&mut lines, entries, false);
    }
    lines
}

/// The line that `status` prints for the `Health` reply.
pub fn status_report(health: &HealthResponse) -> (line: String)
    ensures
        line@ == status_line(*health),
{
    if health.ok {
        let mut t = String::from_str("Registry: OK (");
        push_decimal(&mut t, health.entry_count as u64);
        t.append(" entries)");
        t
    } else {
        let mut t = String::from_str("Registry: DEGRADED — ");
        t.append(health.message.as_str());
        t
    }
}

} // verus!
