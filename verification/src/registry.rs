//! `Registry` — the table of registered service capabilities.
//!
//! The table is modelled as a sequence of entries in the order in which they
//! were first inserted, with no two entries sharing an id: that is the order
//! in which the registry database hands rows back, and its primary key.
use vstd::prelude::*;

use crate::error::RegistryError;
use crate::models::{EntryView, ServiceEntry, ServiceStatus};

verus! {

broadcast use vstd::seq_lib::group_seq_properties;

// ── The model ────────────────────────────────────────────────────────────────

/// No two entries of the table share an id.
pub open spec fn ids_unique(s: Seq<EntryView>) -> bool {
    forall|i: int, j: int|
        0 <= i < s.len() && 0 <= j < s.len() && i != j ==> #[trigger] s[i].id != #[trigger] s[j].id
}

/// Some entry of the table has this id.
pub open spec fn has_id(s: Seq<EntryView>, id: Seq<char>) -> bool {
    exists|i: int| 0 <= i < s.len() && #[trigger] s[i].id == id
}

/// The position of the entry with this id (meaningful where `has_id`).
pub open spec fn id_position(s: Seq<EntryView>, id: Seq<char>) -> int {
    choose|i: int| 0 <= i < s.len() && #[trigger] s[i].id == id
}

/// The table after registering `e`: an entry with the same id is replaced
/// in place, otherwise `e` is appended.
pub open spec fn registered(s: Seq<EntryView>, e: EntryView) -> Seq<EntryView> {
    if has_id(s, e.id) {
        s.update(id_position(s, e.id), e)
    } else {
        s.push(e)
    }
}

/// Whether an entry belongs to the service `service_id`.
pub open spec fn belongs_to(service_id: Seq<char>) -> spec_fn(EntryView) -> bool {
    |e: EntryView| e.service_id == service_id
}

/// Whether an entry belongs to another service than `service_id`.
pub open spec fn belongs_elsewhere(service_id: Seq<char>) -> spec_fn(EntryView) -> bool {
    |e: EntryView| e.service_id != service_id
}

/// Whether an entry advertises `capability`.
pub open spec fn advertises(capability: Seq<char>) -> spec_fn(EntryView) -> bool {
    |e: EntryView| e.capability == capability
}

/// The entries of one service, in table order.
pub open spec fn of_service(s: Seq<EntryView>, service_id: Seq<char>) -> Seq<EntryView> {
    s.filter(belongs_to(service_id))
}

/// The entries for one capability, in table order.
pub open spec fn with_capability(s: Seq<EntryView>, capability: Seq<char>) -> Seq<EntryView> {
    s.filter(advertises(capability))
}

/// The table after deregistering a service: its entries are gone, the others
/// stay in order.
pub open spec fn deregistered(s: Seq<EntryView>, service_id: Seq<char>) -> Seq<EntryView> {
    s.filter(belongs_elsewhere(service_id))
}

/// The ids of a sequence of entries.
pub open spec fn ids_of(s: Seq<EntryView>) -> Seq<Seq<char>> {
    s.map_values(|e: EntryView| e.id)
}

/// The endpoint of the first entry that is up.
pub open spec fn first_up_endpoint(s: Seq<EntryView>) -> Option<Seq<char>>
    decreases s.len(),
{
    if s.len() == 0 {
        None
    } else if s[0].status == ServiceStatus::Up {
        Some(s[0].endpoint)
    } else {
        first_up_endpoint(s.drop_first())
    }
}

/// The endpoint that serves a capability: that of the first entry for it
/// that is up.
pub open spec fn endpoint_for(s: Seq<EntryView>, capability: Seq<char>) -> Option<Seq<char>> {
    first_up_endpoint(with_capability(s, capability))
}

/// The table after the entry with id `id` got the status `status`.
pub open spec fn status_set(s: Seq<EntryView>, id: Seq<char>, status: ServiceStatus) -> Seq<
    EntryView,
> {
    let i = id_position(s, id);
    s.update(i, EntryView { status: status, ..s[i] })
}

/// The value of an optional text.
pub open spec fn opt_text(o: Option<String>) -> Option<Seq<char>> {
    match o {
        Some(t) => Some(t@),
        None => None,
    }
}

/// The values of a sequence of entries.
pub open spec fn entry_views(v: Seq<ServiceEntry>) -> Seq<EntryView> {
    v.map_values(|e: ServiceEntry| e@)
}

/// The values of a sequence of texts.
pub open spec fn text_views(v: Seq<String>) -> Seq<Seq<char>> {
    v.map_values(|t: String| t@)
}

// ── Lemmas on the model ──────────────────────────────────────────────────────

/// Keeping some entries of a table keeps the ids unique.
pub proof fn lemma_filter_keeps_ids_unique(s: Seq<EntryView>, pred: spec_fn(EntryView) -> bool)
    requires
        ids_unique(s),
    ensures
        ids_unique(s.filter(pred)),
    decreases s.len(),
{
    reveal(Seq::filter);
    if s.len() > 0 {
        let prefix = s.drop_last();
        assert(ids_unique(prefix)) by {
            assert forall|i: int, j: int|
                0 <= i < prefix.len() && 0 <= j < prefix.len() && i != j implies #[trigger] prefix[i].id
                != #[trigger] prefix[j].id by {
                assert(prefix[i] == s[i] && prefix[j] == s[j]);
            }
        }
        lemma_filter_keeps_ids_unique(prefix, pred);
        let kept = prefix.filter(pred);
        if pred(s.last()) {
            let out = kept.push(s.last());
            assert forall|i: int, j: int|
                0 <= i < out.len() && 0 <= j < out.len() && i != j implies #[trigger] out[i].id
                != #[trigger] out[j].id by {
                if i == kept.len() || j == kept.len() {
                    let k = if i == kept.len() { j } else { i };
                    assert(kept.contains(kept[k]));
                    prefix.lemma_filter_contains_rev(pred, kept[k]);
                    let p = choose|p: int| 0 <= p < prefix.len() && prefix[p] == kept[k];
                    assert(s[p] == prefix[p]);
                    assert(s[p].id != s[s.len() - 1].id);
                }
            }
        }
    }
}

/// The first-up endpoint of a suffix, one step at a time.
proof fn lemma_first_up_step(s: Seq<EntryView>, i: int)
    requires
        0 <= i < s.len(),
    ensures
        first_up_endpoint(s.skip(i)) == (if s[i].status == ServiceStatus::Up {
            Some(s[i].endpoint)
        } else {
            first_up_endpoint(s.skip(i + 1))
        }),
{
    assert(s.skip(i).drop_first() =~= s.skip(i + 1));
}

// ── The registry ─────────────────────────────────────────────────────────────

/// What registering an entry did to the table.
#[derive(Debug, Clone, Copy, PartialEq, Eq, Structural)]
pub enum RegisterOutcome {
    /// No entry had the id: the entry was appended.
    Inserted,
    /// An entry with the id was replaced by the new one.
    Updated,
}

/// The service capability registry: the table of registered entries.
pub struct Registry {
    entries: Vec<ServiceEntry>,
}

impl View for Registry {
    type V = Seq<EntryView>;

    closed spec fn view(&self) -> Seq<EntryView> {
        entry_views(self.entries@)
    }
}

impl Registry {
    /// Ids stay unique: the table's primary key.
    #[verifier::type_invariant]
    closed spec fn inv(self) -> bool {
        ids_unique(entry_views(self.entries@))
    }

    /// An empty registry.
    pub fn new() -> (r: Self)
        ensures
            r@ == Seq::<EntryView>::empty(),
            ids_unique(r@),
    {
        let r = Registry { entries: Vec::new() };
        assert(r@ =~= Seq::<EntryView>::empty());
        r
    }

    /// The number of entries.
    pub fn len(&self) -> (n: usize)
        ensures
            n == self@.len(),
    {
        self.entries.len()
    }

    /// The position of the entry with id `id`, if there is one.
    fn position(&self, id: &str) -> (r: Option<usize>)
        ensures
            match r {
                Some(i) => i < self@.len() && self@[i as int].id == id@,
                None => !has_id(self@, id@),
            },
    {
        let key = id.to_owned();
        let mut i: usize = 0;
        while i < self.entries.len()
            invariant
                i <= self.entries@.len(),
                key@ == id@,
                forall|k: int| 0 <= k < i ==> #[trigger] self@[k].id != id@,
            decreases self.entries@.len() - i,
        {
            if self.entries[i].id == key {
                return Some(i);
            }
            i = i + 1;
        }
        None
    }

    /// Whether some entry has the id `id`.
    pub fn contains_id(&self, id: &str) -> (b: bool)
        ensures
            b == has_id(self@, id@),
    {
        self.position(id).is_some()
    }

    /// What `register` would do with an entry of this id: replace an entry
    /// (`Updated`) or append one (`Inserted`).
    pub fn register_outcome(&self, id: &str) -> (o: RegisterOutcome)
        ensures
            (o == RegisterOutcome::Updated) == has_id(self@, id@),
    {
        if self.contains_id(id) {
            RegisterOutcome::Updated
        } else {
            RegisterOutcome::Inserted
        }
    }

    /// Register a service capability.  If an entry with the same id already
    /// exists it is replaced, so registering on every startup is idempotent.
    pub fn register(&mut self, entry: ServiceEntry) -> (o: RegisterOutcome)
        ensures
            final(self)@ == registered(old(self)@, entry@),
            ids_unique(old(self)@),
            ids_unique(final(self)@),
            (o == RegisterOutcome::Updated) == has_id(old(self)@, entry@.id),
    {
        proof {
            use_type_invariant(&*self);
        }
        let ghost e = entry@;
        match self.position(entry.id.as_str()) {
            Some(i) => {
                proof {
                    let j = id_position(self@, e.id);
                    assert(self@[j].id == self@[i as int].id);
                    assert(j == i);
                }
                let mut entries: Vec<ServiceEntry> = Vec::new();
                std::mem::swap(&mut entries, &mut self.entries);
                entries.set(i, entry);
                assert(entry_views(entries@) =~= old(self)@.update(i as int, e));
                self.entries = entries;
                RegisterOutcome::Updated
            },
            None => {
                let mut entries: Vec<ServiceEntry> = Vec::new();
                std::mem::swap(&mut entries, &mut self.entries);
                entries.push(entry);
                assert(entry_views(entries@) =~= old(self)@.push(e));
                self.entries = entries;
                RegisterOutcome::Inserted
            },
        }
    }

    /// Deregister all capabilities of a service (called on shutdown).  The
    /// result holds the ids of the entries that were removed, in table order;
    /// it is empty where the service was not registered.
    pub fn deregister(&mut self, service_id: &str) -> (removed: Vec<String>)
        ensures
            final(self)@ == deregistered(old(self)@, service_id@),
            ids_unique(final(self)@),
            text_views(removed@) == ids_of(of_service(old(self)@, service_id@)),
    {
        proof {
            use_type_invariant(&*self);
        }
        let ghost s = self@;
        let key = service_id.to_owned();
        let mut kept: Vec<ServiceEntry> = Vec::new();
        let mut removed: Vec<String> = Vec::new();
        let mut i: usize = 0;
        while i < self.entries.len()
            invariant
                i <= self.entries@.len(),
                s == entry_views(self.entries@),
                key@ == service_id@,
                entry_views(kept@) == s.take(i as int).filter(belongs_elsewhere(service_id@)),
                text_views(removed@) == ids_of(s.take(i as int).filter(belongs_to(service_id@))),
            decreases self.entries@.len() - i,
        {
            let ghost before_kept = kept@;
            let ghost before_removed = removed@;
            proof {
                assert(s.take(i + 1) =~= s.take(i as int).push(s[i as int]));
                s.take(i as int).lemma_filter_push(s[i as int], belongs_elsewhere(service_id@));
                s.take(i as int).lemma_filter_push(s[i as int], belongs_to(service_id@));
            }
            if self.entries[i].service_id == key {
                removed.push(self.entries[i].id.clone());
                assert(text_views(removed@) =~= text_views(before_removed).push(s[i as int].id));
                assert(ids_of(s.take(i + 1).filter(belongs_to(service_id@))) =~= ids_of(
                    s.take(i as int).filter(belongs_to(service_id@)),
                ).push(s[i as int].id));
            } else {
                kept.push(self.entries[i].clone());
                assert(entry_views(kept@) =~= entry_views(before_kept).push(s[i as int]));
            }
            i = i + 1;
        }
        assert(s.take(s.len() as int) =~= s);
        proof {
            lemma_filter_keeps_ids_unique(s, belongs_elsewhere(service_id@));
        }
        self.entries = kept;
        removed
    }

    /// Keep the entries that satisfy a test on their text fields, in order.
    fn select(&self, key: &str, by_capability: bool) -> (v: Vec<ServiceEntry>)
        ensures
            entry_views(v@) == (if by_capability {
                with_capability(self@, key@)
            } else {
                of_service(self@, key@)
            }),
    {
        let ghost s = self@;
        let ghost pred = if by_capability {
            advertises(key@)
        } else {
            belongs_to(key@)
        };
        let wanted = key.to_owned();
        let mut v: Vec<ServiceEntry> = Vec::new();
        let mut i: usize = 0;
        while i < self.entries.len()
            invariant
                i <= self.entries@.len(),
                s == entry_views(self.entries@),
                wanted@ == key@,
                pred == (if by_capability {
                    advertises(key@)
                } else {
                    belongs_to(key@)
                }),
                entry_views(v@) == s.take(i as int).filter(pred),
            decreases self.entries@.len() - i,
        {
            let ghost before = v@;
            proof {
                assert(s.take(i + 1) =~= s.take(i as int).push(s[i as int]));
                s.take(i as int).lemma_filter_push(s[i as int], pred);
            }
            let field = if by_capability {
                &self.entries[i].capability
            } else {
                &self.entries[i].service_id
            };
            if *field == wanted {
                v.push(self.entries[i].clone());
                assert(entry_views(v@) =~= entry_views(before).push(s[i as int]));
            }
            i = i + 1;
        }
        assert(s.take(s.len() as int) =~= s);
        v
    }

    /// All entries registered for a capability, in table order.
    pub fn by_capability(&self, capability: &str) -> (v: Vec<ServiceEntry>)
        ensures
            entry_views(v@) == with_capability(self@, capability@),
            ids_unique(self@),
    {
        proof {
            use_type_invariant(self);
        }
        self.select(capability, true)
    }

    /// All capabilities registered by a service, in table order.
    pub fn by_service(&self, service_id: &str) -> (v: Vec<ServiceEntry>)
        ensures
            entry_views(v@) == of_service(self@, service_id@),
            ids_unique(self@),
    {
        proof {
            use_type_invariant(self);
        }
        self.select(service_id, false)
    }

    /// All registered entries, in table order.
    pub fn all(&self) -> (v: Vec<ServiceEntry>)
        ensures
            entry_views(v@) == self@,
            ids_unique(self@),
    {
        proof {
            use_type_invariant(self);
        }
        let mut v: Vec<ServiceEntry> = Vec::new();
        let mut i: usize = 0;
        while i < self.entries.len()
            invariant
                i <= self.entries@.len(),
                entry_views(v@) == self@.take(i as int),
            decreases self.entries@.len() - i,
        {
            let ghost before = v@;
            v.push(self.entries[i].clone());
            assert(entry_views(v@) =~= entry_views(before).push(self@[i as int]));
            assert(self@.take(i + 1) =~= self@.take(i as int).push(self@[i as int]));
            i = i + 1;
        }
        assert(self@.take(self@.len() as int) =~= self@);
        v
    }

    /// The endpoint of the first `Up` service for a capability; `None` if no
    /// service is registered for it or none of them is up.
    pub fn endpoint_for_capability(&self, capability: &str) -> (r: Option<String>)
        ensures
            opt_text(r) == endpoint_for(self@, capability@),
    {
        let candidates = self.by_capability(capability);
        let ghost c = entry_views(candidates@);
        let mut i: usize = 0;
        while i < candidates.len()
            invariant
                i <= candidates@.len(),
                c == entry_views(candidates@),
                c == with_capability(self@, capability@),
                first_up_endpoint(c) == first_up_endpoint(c.skip(i as int)),
            decreases candidates@.len() - i,
        {
            proof {
                lemma_first_up_step(c, i as int);
            }
            if candidates[i].is_up() {
                return Some(candidates[i].endpoint.clone());
            }
            i = i + 1;
        }
        assert(c.skip(i as int) =~= Seq::<EntryView>::empty());
        None
    }

    /// Update the reachability status of the entry with id `id`.  Fails with
    /// `NotFound` (and changes nothing) when no entry has that id.
    pub fn set_status(&mut self, id: &str, status: ServiceStatus) -> (r: Result<
        (),
        RegistryError,
    >)
        ensures
            match r {
                Ok(()) => has_id(old(self)@, id@) && final(self)@ == status_set(
                    old(self)@,
                    id@,
                    status,
                ),
                Err(RegistryError::NotFound { id: missing }) => !has_id(old(self)@, id@)
                    && missing@ == id@ && final(self)@ == old(self)@,
                Err(_) => false,
            },
            ids_unique(final(self)@),
    {
        proof {
            use_type_invariant(&*self);
        }
        match self.position(id) {
            Some(i) => {
                let ghost s = self@;
                proof {
                    let j = id_position(s, id@);
                    assert(s[j].id == s[i as int].id);
                    assert(j == i);
                }
                let mut e = self.entries[i].clone();
                e.status = status;
                let mut entries: Vec<ServiceEntry> = Vec::new();
                std::mem::swap(&mut entries, &mut self.entries);
                entries.set(i, e);
                assert(entry_views(entries@) =~= status_set(s, id@, status));
                self.entries = entries;
                Ok(())
            },
            None => Err(RegistryError::NotFound { id: id.to_owned() }),
        }
    }
}

} // verus!
