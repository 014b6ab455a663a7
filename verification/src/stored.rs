//! Rows of the registry database whose status cannot be read back.
//!
//! A query fails on such a row exactly as reading it back fails: with the
//! reader's message, for the first such row, in table order, that the query
//! would return.
use vstd::prelude::*;

use crate::error::RegistryError;
use crate::models::text_is;

verus! {

/// A stored row whose status could not be read, and the reader's message.
pub struct UnreadableRow {
    pub id: String,
    pub service_id: String,
    pub capability: String,
    pub message: String,
}

/// The rows that a query reads.
pub enum RowQuery {
    /// Every row.
    All,
    /// The rows for a capability.
    Capability(String),
    /// The rows of a service.
    Service(String),
}

/// Whether a query reads a row.
pub open spec fn query_reads(q: RowQuery, r: UnreadableRow) -> bool {
    match q {
        RowQuery::All => true,
        RowQuery::Capability(c) => r.capability@ == c@,
        RowQuery::Service(s) => r.service_id@ == s@,
    }
}

/// Whether the query reads a row.
fn reads(q: &RowQuery, r: &UnreadableRow) -> (b: bool)
    ensures
        b == query_reads(*q, *r),
{
    match q {
        RowQuery::All => true,
        RowQuery::Capability(c) => text_is(r.capability.as_str(), c.as_str()),
        RowQuery::Service(s) => text_is(r.service_id.as_str(), s.as_str()),
    }
}

/// The error of a query over a table with these unreadable rows: the JSON
/// error with the message of the first row that the query reads; `None`
/// where it reads none of them.
pub fn unreadable_error(rows: &Vec<UnreadableRow>, query: &RowQuery) -> (r: Option<RegistryError>)
    ensures
        match r {
            Some(RegistryError::Json(m)) => exists|i: int|
                0 <= i < rows@.len() && #[trigger] query_reads(*query, rows@[i]) && m@
                    == rows@[i].message@ && forall|j: int|
                    0 <= j < i ==> !#[trigger] query_reads(*query, rows@[j]),
            Some(_) => false,
            None => forall|i: int| 0 <= i < rows@.len() ==> !#[trigger] query_reads(*query, rows@[i]),
        },
{
    let mut i: usize = 0;
    while i < rows.len()
        invariant
            i <= rows@.len(),
            forall|j: int| 0 <= j < i ==> !#[trigger] query_reads(*query, rows@[j]),
        decreases rows@.len() - i,
    {
        if reads(query, &rows[i]) {
            let m = rows[i].message.clone();
            assert(query_reads(*query, rows@[i as int]));
            return Some(RegistryError::Json(m));
        }
        i = i + 1;
    }
    None
}

/// Whether some unreadable row has the id `id`.
pub fn has_unreadable_id(rows: &Vec<UnreadableRow>, id: &str) -> (b: bool)
    ensures
        b == exists|i: int| 0 <= i < rows@.len() && #[trigger] rows@[i].id@ == id@,
{
    let mut i: usize = 0;
    while i < rows.len()
        invariant
            i <= rows@.len(),
            forall|j: int| 0 <= j < i ==> #[trigger] rows@[j].id@ != id@,
        decreases rows@.len() - i,
    {
        if text_is(rows[i].id.as_str(), id) {
            return true;
        }
        i = i + 1;
    }
    false
}

} // verus!
