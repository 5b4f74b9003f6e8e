//! Transaction records as the store hands them out, and the check of one
//! fetched batch against the retrieval limit.
use vstd::prelude::*;

verus! {

/// One transaction as kept by the store.
pub struct TransactionRecord {
    pub from: String,
    pub to: String,
    pub hash: String,
    pub block: u32,
    /// Creation time, in milliseconds since the Unix epoch.
    pub created_at_ms: i64,
}

/// Why the store could not answer for an address.
#[derive(Clone, Copy, Debug, PartialEq, Eq, Structural)]
pub enum SourceError {
    /// The store could not be reached.
    StoreUnavailable,
    /// The query failed, or its answer broke the query's own terms.
    QueryFailed,
}

/// Whether every record of a batch was sent from `address`.
pub open spec fn all_from(records: Seq<TransactionRecord>, address: Seq<char>) -> bool {
    forall|i: int| 0 <= i < records.len() ==> (#[trigger] records[i]).from@ == address
}

/// Whether a store answer keeps to the query's terms: the count and the
/// batch stay within the limit, and each record matches the address.
pub open spec fn batch_is_valid(
    count: u64,
    records: Seq<TransactionRecord>,
    address: Seq<char>,
    limit: u64,
) -> bool {
    count <= limit && records.len() <= limit && all_from(records, address)
}

/// Whether the limit was reached, so that matches beyond it may have been
/// left out of the batch.
pub open spec fn reaches_limit(count: u64, fetched: nat, limit: u64) -> bool {
    count >= limit || fetched >= limit
}

/// What ends an address at fetching, if anything: a failed count, a failed
/// fetch, or an answer that breaks the query's terms.
pub open spec fn fetch_error(
    count: Result<u64, SourceError>,
    records: Result<Vec<TransactionRecord>, SourceError>,
    address: Seq<char>,
    limit: u64,
) -> Option<SourceError> {
    match count {
        Err(e) => Some(e),
        Ok(c) => match records {
            Err(e) => Some(e),
            Ok(rs) => if batch_is_valid(c, rs@, address, limit) {
                None
            } else {
                Some(SourceError::QueryFailed)
            },
        },
    }
}

/// Checks a store answer for `address` against the query's terms.
pub fn check_batch(count: u64, records: &Vec<TransactionRecord>, address: &String, limit: u64) -> (r:
    bool)
    ensures
        r == batch_is_valid(count, records@, address@, limit),
{
    if count > limit || records.len() as u64 > limit {
        return false;
    }
    let mut i: usize = 0;
    while i < records.len()
        invariant
            i <= records.len(),
            forall|k: int| 0 <= k < i ==> (#[trigger] records@[k]).from@ == address@,
        decreases records.len() - i,
    {
        if records[i].from != *address {
            return false;
        }
        i = i + 1;
    }
    true
}

} // verus!
