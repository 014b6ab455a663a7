//! What holds of the registry across its operations, stated over the model
//! that the operations' contracts use (see [`crate::registry`]).
use vstd::prelude::*;

use crate::models::{entry_id, EntryView, ServiceStatus};
use crate::registry::{
    advertises, belongs_elsewhere, belongs_to, deregistered, endpoint_for, first_up_endpoint,
    has_id, id_position, ids_unique, of_service, registered, status_set, with_capability,
};

verus! {

broadcast use {vstd::seq_lib::group_seq_properties, vstd::seq_lib::group_filter_ensures};

// ── Helpers on filters ───────────────────────────────────────────────────────

/// An entry kept by a filter is in the table and passes the test.
proof fn lemma_in_filter(s: Seq<EntryView>, pred: spec_fn(EntryView) -> bool, x: EntryView)
    requires
        s.filter(pred).contains(x),
    ensures
        s.contains(x),
        pred(x),
{
    s.lemma_filter_contains_rev(pred, x);
    let k = choose|k: int| 0 <= k < s.filter(pred).len() && s.filter(pred)[k] == x;
    s.lemma_filter_pred(pred, k);
}

/// Filtering by a weaker test first changes nothing.
proof fn lemma_filter_absorb(
    s: Seq<EntryView>,
    p: spec_fn(EntryView) -> bool,
    q: spec_fn(EntryView) -> bool,
)
    requires
        forall|x: EntryView| #[trigger] q(x) ==> p(x),
    ensures
        s.filter(p).filter(q) == s.filter(q),
    decreases s.len(),
{
    reveal(Seq::filter);
    if s.len() > 0 {
        let r = s.drop_last();
        let last = s.last();
        lemma_filter_absorb(r, p, q);
        assert(s =~= r.push(last));
        r.lemma_filter_push(last, p);
        r.lemma_filter_push(last, q);
        if p(last) {
            r.filter(p).lemma_filter_push(last, q);
        }
    }
}

/// A filter that every entry passes keeps the whole table.
proof fn lemma_filter_keeps_all(s: Seq<EntryView>, p: spec_fn(EntryView) -> bool)
    requires
        forall|i: int| 0 <= i < s.len() ==> #[trigger] p(s[i]),
    ensures
        s.filter(p) == s,
    decreases s.len(),
{
    if s.len() > 0 {
        let r = s.drop_last();
        assert forall|i: int| 0 <= i < r.len() implies #[trigger] p(r[i]) by {
            assert(r[i] == s[i]);
        }
        lemma_filter_keeps_all(r, p);
        assert(s =~= r.push(s.last()));
        r.lemma_filter_push(s.last(), p);
    }
}

/// A filter that no entry passes keeps nothing.
proof fn lemma_filter_keeps_none(s: Seq<EntryView>, p: spec_fn(EntryView) -> bool)
    requires
        forall|x: EntryView| s.contains(x) ==> !#[trigger] p(x),
    ensures
        s.filter(p) == Seq::<EntryView>::empty(),
{
    if s.filter(p).len() > 0 {
        lemma_in_filter(s, p, s.filter(p)[0]);
    }
    assert(s.filter(p) =~= Seq::<EntryView>::empty());
}

/// The first-up endpoint is the endpoint of an entry that is up, and there is
/// none only where no entry is up.
proof fn lemma_first_up_endpoint(c: Seq<EntryView>)
    ensures
        match first_up_endpoint(c) {
            Some(ep) => exists|j: int|
                0 <= j < c.len() && #[trigger] c[j].status == ServiceStatus::Up && c[j].endpoint
                    == ep,
            None => forall|j: int| 0 <= j < c.len() ==> #[trigger] c[j].status != ServiceStatus::Up,
        },
    decreases c.len(),
{
    if c.len() > 0 {
        let rest = c.drop_first();
        lemma_first_up_endpoint(rest);
        if c[0].status != ServiceStatus::Up {
            match first_up_endpoint(rest) {
                Some(ep) => {
                    let j = choose|j: int|
                        0 <= j < rest.len() && #[trigger] rest[j].status == ServiceStatus::Up
                            && rest[j].endpoint == ep;
                    assert(c[j + 1] == rest[j]);
                },
                None => {
                    assert forall|j: int| 0 <= j < c.len() implies #[trigger] c[j].status
                        != ServiceStatus::Up by {
                        if j > 0 {
                            assert(c[j] == rest[j - 1]);
                        }
                    }
                },
            }
        }
    }
}

// ── Laws ─────────────────────────────────────────────────────────────────────

/// Registering keeps ids unique: re-registering an id never creates a
/// duplicate entry.
pub proof fn law_register_keeps_ids_unique(s: Seq<EntryView>, e: EntryView)
    requires
        ids_unique(s),
    ensures
        ids_unique(registered(s, e)),
{
    let t = registered(s, e);
    if has_id(s, e.id) {
        let p = id_position(s, e.id);
        assert forall|i: int, j: int|
            0 <= i < t.len() && 0 <= j < t.len() && i != j implies #[trigger] t[i].id
            != #[trigger] t[j].id by {
            if i == p {
                assert(s[p].id != s[j].id);
            } else if j == p {
                assert(s[p].id != s[i].id);
            }
        }
    } else {
        assert forall|i: int, j: int|
            0 <= i < t.len() && 0 <= j < t.len() && i != j implies #[trigger] t[i].id
            != #[trigger] t[j].id by {
            if i == s.len() {
                assert(!(s[j].id == e.id));
            } else if j == s.len() {
                assert(!(s[i].id == e.id));
            }
        }
    }
}

/// What a registration writes, a lookup gives back: after registering `e`,
/// it is the one entry with its id, and it is listed among the entries of its
/// service and among the entries for its capability.
pub proof fn law_register_then_lookup(s: Seq<EntryView>, e: EntryView)
    requires
        ids_unique(s),
    ensures
        has_id(registered(s, e), e.id),
        forall|i: int|
            0 <= i < registered(s, e).len() && #[trigger] registered(s, e)[i].id == e.id
                ==> registered(s, e)[i] == e,
        of_service(registered(s, e), e.service_id).contains(e),
        with_capability(registered(s, e), e.capability).contains(e),
{
    let t = registered(s, e);
    law_register_keeps_ids_unique(s, e);
    let k = if has_id(s, e.id) {
        id_position(s, e.id)
    } else {
        s.len() as int
    };
    assert(t[k] == e);
    assert forall|i: int| 0 <= i < t.len() && #[trigger] t[i].id == e.id implies t[i] == e by {
        if i != k {
            assert(t[i].id != t[k].id);
        }
    }
    t.lemma_filter_contains(belongs_to(e.service_id), k);
    t.lemma_filter_contains(advertises(e.capability), k);
}

/// Registering an id twice leaves what registering the second entry alone
/// leaves: the later registration replaces the earlier one.
pub proof fn law_reregister_replaces(s: Seq<EntryView>, e1: EntryView, e2: EntryView)
    requires
        ids_unique(s),
        e1.id == e2.id,
    ensures
        registered(registered(s, e1), e2) == registered(s, e2),
        registered(registered(s, e1), e2).len() == registered(s, e1).len(),
{
    let t = registered(s, e1);
    law_register_then_lookup(s, e1);
    law_register_keeps_ids_unique(s, e1);
    let k = if has_id(s, e1.id) {
        id_position(s, e1.id)
    } else {
        s.len() as int
    };
    assert(t[k].id == e2.id);
    let q = id_position(t, e2.id);
    assert(t[q].id == t[k].id);
    assert(q == k);
    if has_id(s, e1.id) {
        assert(registered(t, e2) =~= registered(s, e2));
    } else {
        assert(registered(t, e2) =~= s.push(e2));
    }
}

/// Whether every entry carries the id that `ServiceEntry::new` gives it.
pub open spec fn ids_from_pairs(s: Seq<EntryView>) -> bool {
    forall|i: int| 0 <= i < s.len() ==> #[trigger] s[i].id == entry_id(s[i].service_id, s[i].capability)
}

/// One entry per (service, capability) pair: where every entry carries the
/// id built from its service and capability, no two entries share both.
/// Registering such an entry keeps every entry so.
pub proof fn law_one_entry_per_pair(s: Seq<EntryView>, e: EntryView)
    requires
        ids_unique(s),
        ids_from_pairs(s),
        e.id == entry_id(e.service_id, e.capability),
    ensures
        forall|i: int, j: int|
            0 <= i < s.len() && 0 <= j < s.len() && i != j ==> !(#[trigger] s[i].service_id
                == #[trigger] s[j].service_id && s[i].capability == s[j].capability),
        ids_from_pairs(registered(s, e)),
{
    assert forall|i: int, j: int|
        0 <= i < s.len() && 0 <= j < s.len() && i != j implies !(#[trigger] s[i].service_id
        == #[trigger] s[j].service_id && s[i].capability == s[j].capability) by {
        assert(s[i].id == entry_id(s[i].service_id, s[i].capability));
        assert(s[j].id == entry_id(s[j].service_id, s[j].capability));
        assert(s[i].id != s[j].id);
    }
    let t = registered(s, e);
    assert forall|i: int| 0 <= i < t.len() implies #[trigger] t[i].id == entry_id(
        t[i].service_id,
        t[i].capability,
    ) by {
        if !has_id(s, e.id) && i < s.len() {
            assert(t[i] == s[i]);
        } else if has_id(s, e.id) && i != id_position(s, e.id) {
            assert(t[i] == s[i]);
        }
    }
}

/// Deregistering a service removes every entry of that service and keeps the
/// entries of every other service, in order.
pub proof fn law_deregister_removes_service(
    s: Seq<EntryView>,
    service_id: Seq<char>,
    other: Seq<char>,
)
    requires
        other != service_id,
    ensures
        of_service(deregistered(s, service_id), service_id) == Seq::<EntryView>::empty(),
        of_service(deregistered(s, service_id), other) == of_service(s, other),
{
    let d = deregistered(s, service_id);
    assert forall|x: EntryView| d.contains(x) implies !#[trigger] belongs_to(service_id)(x) by {
        lemma_in_filter(s, belongs_elsewhere(service_id), x);
    }
    lemma_filter_keeps_none(d, belongs_to(service_id));
    lemma_filter_absorb(s, belongs_elsewhere(service_id), belongs_to(other));
}

/// Deregistering a service that has no entry changes nothing.
pub proof fn law_deregister_unknown_is_noop(s: Seq<EntryView>, service_id: Seq<char>)
    requires
        forall|i: int| 0 <= i < s.len() ==> #[trigger] s[i].service_id != service_id,
    ensures
        deregistered(s, service_id) == s,
{
    assert forall|i: int| 0 <= i < s.len() implies #[trigger] belongs_elsewhere(service_id)(s[i]) by {
    }
    lemma_filter_keeps_all(s, belongs_elsewhere(service_id));
}

/// The endpoint for a capability belongs to an entry for that capability that
/// is up; there is none exactly when no entry for the capability is up.
pub proof fn law_endpoint_is_up_provider(s: Seq<EntryView>, capability: Seq<char>)
    ensures
        match endpoint_for(s, capability) {
            Some(ep) => exists|i: int|
                0 <= i < s.len() && #[trigger] s[i].capability == capability && s[i].status
                    == ServiceStatus::Up && s[i].endpoint == ep,
            None => forall|i: int|
                0 <= i < s.len() && #[trigger] s[i].capability == capability ==> s[i].status
                    != ServiceStatus::Up,
        },
{
    let c = with_capability(s, capability);
    lemma_first_up_endpoint(c);
    match endpoint_for(s, capability) {
        Some(ep) => {
            let j = choose|j: int|
                0 <= j < c.len() && #[trigger] c[j].status == ServiceStatus::Up && c[j].endpoint
                    == ep;
            assert(c.contains(c[j]));
            lemma_in_filter(s, advertises(capability), c[j]);
            let i = choose|i: int| 0 <= i < s.len() && s[i] == c[j];
            assert(s[i].capability == capability);
        },
        None => {
            assert forall|i: int|
                0 <= i < s.len() && #[trigger] s[i].capability == capability implies s[i].status
                != ServiceStatus::Up by {
                s.lemma_filter_contains(advertises(capability), i);
                let j = choose|j: int| 0 <= j < c.len() && c[j] == s[i];
                assert(c[j].status != ServiceStatus::Up);
            }
        },
    }
}

/// Setting a status changes the status of the entry with that id and nothing
/// else: every other entry, and every other field, stays as it was.
pub proof fn law_set_status_changes_one_entry(
    s: Seq<EntryView>,
    id: Seq<char>,
    status: ServiceStatus,
)
    requires
        ids_unique(s),
        has_id(s, id),
    ensures
        status_set(s, id, status).len() == s.len(),
        ids_unique(status_set(s, id, status)),
        forall|i: int|
            0 <= i < s.len() ==> {
                let t = #[trigger] status_set(s, id, status)[i];
                &&& t.id == s[i].id
                &&& t.service_id == s[i].service_id
                &&& t.capability == s[i].capability
                &&& t.endpoint == s[i].endpoint
                &&& t.registered_at == s[i].registered_at
                &&& t.status == (if s[i].id == id {
                    status
                } else {
                    s[i].status
                })
            },
{
    let p = id_position(s, id);
    let t = status_set(s, id, status);
    assert forall|i: int| 0 <= i < s.len() && s[i].id == id implies i == p by {
        if i != p {
            assert(s[i].id != s[p].id);
        }
    }
    assert forall|i: int, j: int|
        0 <= i < t.len() && 0 <= j < t.len() && i != j implies #[trigger] t[i].id
        != #[trigger] t[j].id by {
        assert(s[i].id != s[j].id);
    }
}

} // verus!
