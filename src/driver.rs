//! The pipeline driver: a state machine that walks the planned addresses one
//! at a time, asks for each address's records, has each record decoded in
//! fetch order, and hands each finished address result out to be persisted.
//!
//! The caller performs the action that `next_action` names and reports what
//! came of it through the matching `on_...` method.
use vstd::prelude::*;
use crate::address::{planned, plan_addresses, views};
use crate::payload::{
    decode_error,
    decode_transaction,
    reply_value,
    DecodedTransaction,
    EnrichError,
    LookupReply,
};
use crate::record::{
    batch_is_valid,
    check_batch,
    fetch_error,
    reaches_limit,
    SourceError,
    TransactionRecord,
};

verus! {

/// What became of one record of an address.
pub enum TxOutcome {
    /// It was decoded.
    Decoded(DecodedTransaction),
    /// Decoding it failed; the marker keeps its hash and the reason.
    Failed { hash: String, error: EnrichError },
}

impl TxOutcome {
    /// The hash of the transaction the outcome is for.
    pub open spec fn hash_of(self) -> Seq<char> {
        match self {
            TxOutcome::Decoded(d) => d.hash@,
            TxOutcome::Failed { hash, .. } => hash@,
        }
    }

    /// The reason decoding failed, if it did.
    pub open spec fn error_of(self) -> Option<EnrichError> {
        match self {
            TxOutcome::Decoded(_) => None,
            TxOutcome::Failed { error, .. } => Some(error),
        }
    }

    /// Whether this is a failure marker.
    pub fn is_failure(&self) -> (r: bool)
        ensures
            r == (self.error_of() is Some),
    {
        match self {
            TxOutcome::Decoded(_) => false,
            TxOutcome::Failed { .. } => true,
        }
    }
}

/// Whether `o` is what decoding `hash` from the two replies gives.
pub open spec fn outcome_of_replies(
    o: TxOutcome,
    hash: Seq<char>,
    input: LookupReply,
    logs: LookupReply,
) -> bool {
    &&& o.hash_of() == hash
    &&& o.error_of() == decode_error(input, logs)
    &&& o matches TxOutcome::Decoded(d) ==> d.input == reply_value(input) && d.logs == reply_value(
        logs,
    )
}

/// How many outcomes are failure markers.
pub open spec fn failed_count(s: Seq<TxOutcome>) -> nat
    decreases s.len(),
{
    if s.len() == 0 {
        0
    } else {
        failed_count(s.drop_last()) + if s.last().error_of() is Some {
            1nat
        } else {
            0nat
        }
    }
}

proof fn lemma_failed_count_bound(s: Seq<TxOutcome>)
    ensures
        failed_count(s) <= s.len(),
    decreases s.len(),
{
    if s.len() > 0 {
        lemma_failed_count_bound(s.drop_last());
    }
}

/// The decoded transactions of one address, in the order the store gave
/// the records.
pub struct AddressResult {
    pub address: String,
    pub tx: Vec<TxOutcome>,
}

impl AddressResult {
    /// The name of the artifact that holds this result: the address, keyed
    /// as `<address>.json`.
    pub fn artifact_name(&self) -> (r: String)
        ensures
            r@ == self.address@ + ".json"@,
    {
        let mut name = self.address.clone();
        name.append(".json");
        name
    }
}

/// How an address ended.
#[derive(Clone, Copy, Debug, PartialEq, Eq, Structural)]
pub enum AddressStatus {
    /// Its result was persisted.
    Persisted,
    /// The store could not give its records; nothing was persisted.
    FetchFailed(SourceError),
    /// Its result could not be persisted.
    PersistFailed,
}

/// What the run reports of one address.
pub struct AddressReport {
    pub address: String,
    pub status: AddressStatus,
    /// The number of matches the store counted, within the limit.
    pub count: u64,
    /// The number of records fetched.
    pub fetched: u64,
    /// Whether the limit was reached, so that matches may have been left out.
    pub reached_limit: bool,
    /// The number of records decoded.
    pub decoded: u64,
    /// The number of records whose decoding failed.
    pub failed: u64,
}

/// What the driver needs done next.
pub enum Action {
    /// Count and fetch the records sent from `address`, both within `limit`;
    /// report through `on_fetched`.
    Fetch { address: String, limit: u64 },
    /// Look up the decoded input and the decoded logs of `hash`; report
    /// through `on_decoded`.
    Decode { hash: String },
    /// Take the finished result with `finalize`, persist it, and report
    /// through `on_persisted`.
    Persist,
    /// A result was taken and its persisting is still to be reported.
    AwaitPersisted,
    /// Every address is done.
    Finished,
}

/// Where the driver stands with the current address.
#[derive(Clone, Copy, Debug, PartialEq, Eq, Structural)]
pub enum Phase {
    Fetching,
    Enriching,
    Finalizing,
    Persisting,
    Done,
    /// The run was stopped before its end.
    Cancelled,
}

/// The pipeline's state.
pub struct Driver {
    addresses: Vec<String>,
    limit: u64,
    index: usize,
    phase: Phase,
    count: u64,
    records: Vec<TransactionRecord>,
    current: Vec<TxOutcome>,
    decoded: u64,
    failed: u64,
    handed_out: Ghost<Seq<TxOutcome>>,
    reports: Vec<AddressReport>,
}

impl Driver {
    /// The planned addresses, in run order.
    pub closed spec fn addresses(self) -> Seq<Seq<char>> {
        views(self.addresses@)
    }

    /// The retrieval limit per address.
    pub closed spec fn limit(self) -> u64 {
        self.limit
    }

    /// The position of the current address in the plan.
    pub closed spec fn index(self) -> nat {
        self.index as nat
    }

    pub closed spec fn phase(self) -> Phase {
        self.phase
    }

    /// The count the store gave for the current address.
    pub closed spec fn count(self) -> u64 {
        self.count
    }

    /// The records fetched for the current address.
    pub closed spec fn records(self) -> Seq<TransactionRecord> {
        self.records@
    }

    /// The outcomes of the current address so far, in record order.
    pub closed spec fn current(self) -> Seq<TxOutcome> {
        self.current@
    }

    /// The reports of the addresses done, in run order.
    pub closed spec fn reports(self) -> Seq<AddressReport> {
        self.reports@
    }

    /// The address being worked on.
    pub open spec fn current_address(self) -> Seq<char> {
        self.addresses()[self.index() as int]
    }

    /// Whether the current address has its batch.
    pub open spec fn has_batch(self) -> bool {
        self.phase() == Phase::Enriching || self.phase() == Phase::Finalizing || self.phase()
            == Phase::Persisting
    }

    /// The driver's invariant.
    pub closed spec fn wf(self) -> bool {
        &&& self.limit > 0
        &&& self.index <= self.addresses.len()
        &&& self.phase == Phase::Done ==> self.index == self.addresses.len()
        &&& self.phase != Phase::Done && self.phase != Phase::Cancelled ==> self.index
            < self.addresses.len()
        &&& self.reports.len() == self.index
        &&& forall|i: int| 0 <= i < self.index ==> (#[trigger] self.reports@[i]).fetched <= self.limit
        &&& forall|i: int|
            0 <= i < self.index ==> (#[trigger] self.reports@[i]).address@
                == self.addresses@[i]@
        &&& self.current.len() <= self.records.len()
        &&& forall|i: int|
            0 <= i < self.current.len() ==> (#[trigger] self.current@[i]).hash_of()
                == self.records@[i].hash@
        &&& self.phase == Phase::Enriching ==> self.current.len() < self.records.len()
        &&& self.phase == Phase::Finalizing ==> self.current.len() == self.records.len()
        &&& self.phase != Phase::Enriching && self.phase != Phase::Finalizing ==> self.current.len()
            == 0
        &&& self.has_batch() ==> batch_is_valid(
            self.count,
            self.records@,
            self.addresses@[self.index as int]@,
            self.limit,
        )
        &&& self.phase != Phase::Persisting ==> self.failed == failed_count(self.current@)
            && self.decoded + self.failed == self.current.len()
        &&& self.phase == Phase::Persisting ==> self.decoded + self.failed == self.records.len()
            && self.failed == failed_count(self.handed_out@)
    }

    /// A driver for the addresses that `lines` plan (see `plan_addresses`),
    /// fetching at most `limit` records per address. There is none for a
    /// limit of zero.
    pub fn new(lines: &Vec<String>, limit: u64) -> (r: Option<Driver>)
        ensures
            r is None <==> limit == 0,
            r matches Some(d) ==> {
                &&& d.wf()
                &&& d.addresses() == planned(views(lines@))
                &&& d.limit() == limit
                &&& d.index() == 0
                &&& d.reports().len() == 0
                &&& d.phase() == if d.addresses().len() == 0 {
                    Phase::Done
                } else {
                    Phase::Fetching
                }
            },
    {
        if limit == 0 {
            return None;
        }
        let addresses = plan_addresses(lines);
        let phase = if addresses.len() == 0 {
            Phase::Done
        } else {
            Phase::Fetching
        };
        Some(
            Driver {
                addresses,
                limit,
                index: 0,
                phase,
                count: 0,
                records: Vec::new(),
                current: Vec::new(),
                decoded: 0,
                failed: 0,
                handed_out: Ghost(Seq::empty()),
                reports: Vec::new(),
            },
        )
    }

    /// Whether the plan holds no address at all.
    pub fn has_no_input(&self) -> (r: bool)
        requires
            self.wf(),
        ensures
            r == (self.addresses().len() == 0),
    {
        self.addresses.len() == 0
    }

    /// The number of planned addresses.
    pub fn address_count(&self) -> (r: usize)
        requires
            self.wf(),
        ensures
            r == self.addresses().len(),
    {
        self.addresses.len()
    }

    /// The action the current phase calls for.
    pub fn next_action(&self) -> (r: Action)
        requires
            self.wf(),
        ensures
            self.phase() == Phase::Fetching ==> (r matches Action::Fetch { address, limit } && address@
                == self.current_address() && limit == self.limit()),
            self.phase() == Phase::Enriching ==> (r matches Action::Decode { hash } && hash@
                == self.records()[self.current().len() as int].hash@),
            self.phase() == Phase::Finalizing ==> r is Persist,
            self.phase() == Phase::Persisting ==> r is AwaitPersisted,
            self.phase() == Phase::Done || self.phase() == Phase::Cancelled ==> r is Finished,
    {
        match self.phase {
            Phase::Fetching => Action::Fetch {
                address: self.addresses[self.index].clone(),
                limit: self.limit,
            },
            Phase::Enriching => Action::Decode { hash: self.records[self.current.len()].hash.clone() },
            Phase::Finalizing => Action::Persist,
            Phase::Persisting => Action::AwaitPersisted,
            Phase::Done | Phase::Cancelled => Action::Finished,
        }
    }

    /// The outcomes handed out by the last `finalize`.
    pub closed spec fn handed_out(self) -> Seq<TxOutcome> {
        self.handed_out@
    }

    /// Whether `next` is `self` moved on to the following address, with one
    /// more report and nothing else changed.
    pub open spec fn moved_on(self, next: Driver) -> bool {
        &&& next.wf()
        &&& next.addresses() == self.addresses()
        &&& next.limit() == self.limit()
        &&& next.index() == self.index() + 1
        &&& next.reports().len() == self.reports().len() + 1
        &&& next.reports().take(self.reports().len() as int) == self.reports()
        &&& next.phase() == if next.index() == next.addresses().len() {
            Phase::Done
        } else {
            Phase::Fetching
        }
    }

    /// Whether `next` differs from `self` at most in its phase and in the
    /// work on the current address.
    pub open spec fn same_address(self, next: Driver) -> bool {
        &&& next.wf()
        &&& next.addresses() == self.addresses()
        &&& next.limit() == self.limit()
        &&& next.index() == self.index()
        &&& next.reports() == self.reports()
    }

    fn finish_address(&mut self, report: AddressReport)
        requires
            old(self).wf(),
            old(self).phase() != Phase::Done,
            old(self).phase() != Phase::Cancelled,
            report.address@ == old(self).current_address(),
            report.fetched <= old(self).limit(),
        ensures
            old(self).moved_on(*final(self)),
            final(self).reports().last() == report,
    {
        self.reports.push(report);
        self.index = self.index + 1;
        self.phase = if self.index == self.addresses.len() {
            Phase::Done
        } else {
            Phase::Fetching
        };
        self.count = 0;
        self.records = Vec::new();
        self.current = Vec::new();
        self.decoded = 0;
        self.failed = 0;
        self.handed_out = Ghost(Seq::empty());
        assert(self.reports@.take(old(self).reports@.len() as int) =~= old(self).reports@);
    }

    /// Takes the store's answer for the current address: the count and the
    /// batch, each asked for within the limit. A failed or inconsistent
    /// answer ends the address with a report and moves on; a good batch is
    /// kept for decoding. Out of the fetching phase nothing changes.
    pub fn on_fetched(
        &mut self,
        count: Result<u64, SourceError>,
        records: Result<Vec<TransactionRecord>, SourceError>,
    )
        requires
            old(self).wf(),
        ensures
            final(self).wf(),
            old(self).phase() != Phase::Fetching ==> *final(self) == *old(self),
            old(self).phase() == Phase::Fetching ==> (fetch_error(
                count,
                records,
                old(self).current_address(),
                old(self).limit(),
            ) matches Some(e) ==> {
                let rep = final(self).reports().last();
                &&& old(self).moved_on(*final(self))
                &&& rep.address@ == old(self).current_address()
                &&& rep.status == AddressStatus::FetchFailed(e)
                &&& rep.count == 0 && rep.fetched == 0 && !rep.reached_limit
                &&& rep.decoded == 0 && rep.failed == 0
            }),
            old(self).phase() == Phase::Fetching && fetch_error(
                count,
                records,
                old(self).current_address(),
                old(self).limit(),
            ) is None ==> {
                &&& old(self).same_address(*final(self))
                &&& final(self).count() == count->Ok_0
                &&& final(self).records() == records->Ok_0@
                &&& final(self).current().len() == 0
                &&& final(self).phase() == if records->Ok_0@.len() == 0 {
                    Phase::Finalizing
                } else {
                    Phase::Enriching
                }
            },
    {
        if self.phase != Phase::Fetching {
            return ;
        }
        let ghost address = self.current_address();
        let error = match count {
            Err(e) => Some(e),
            Ok(c) => match records {
                Err(e) => Some(e),
                Ok(rs) => {
                    if check_batch(c, &rs, &self.addresses[self.index], self.limit) {
                        self.phase = if rs.len() == 0 {
                            Phase::Finalizing
                        } else {
                            Phase::Enriching
                        };
                        self.count = c;
                        self.records = rs;
                        None
                    } else {
                        Some(SourceError::QueryFailed)
                    }
                },
            },
        };
        if let Some(e) = error {
            let report = AddressReport {
                address: self.addresses[self.index].clone(),
                status: AddressStatus::FetchFailed(e),
                count: 0,
                fetched: 0,
                reached_limit: false,
                decoded: 0,
                failed: 0,
            };
            self.finish_address(report);
        }
    }

    /// Takes the two lookup replies for the record that `next_action` named,
    /// and appends its outcome, decoded or a failure marker, after the
    /// outcomes before it. A failure stays with that record: the address goes
    /// on. Out of the enriching phase nothing changes.
    pub fn on_decoded(&mut self, input: LookupReply, logs: LookupReply)
        requires
            old(self).wf(),
        ensures
            final(self).wf(),
            old(self).phase() != Phase::Enriching ==> *final(self) == *old(self),
            old(self).phase() == Phase::Enriching ==> {
                let k = old(self).current().len() as int;
                &&& old(self).same_address(*final(self))
                &&& final(self).count() == old(self).count()
                &&& final(self).records() == old(self).records()
                &&& final(self).current().len() == k + 1
                &&& final(self).current().take(k) == old(self).current()
                &&& outcome_of_replies(
                    final(self).current()[k],
                    old(self).records()[k].hash@,
                    input,
                    logs,
                )
                &&& final(self).phase() == if k + 1 == old(self).records().len() {
                    Phase::Finalizing
                } else {
                    Phase::Enriching
                }
            },
    {
        if self.phase != Phase::Enriching {
            return ;
        }
        let k = self.current.len();
        let hash = self.records[k].hash.clone();
        let marker_hash = hash.clone();
        let outcome = match decode_transaction(hash, input, logs) {
            Ok(d) => TxOutcome::Decoded(d),
            Err(error) => TxOutcome::Failed { hash: marker_hash, error },
        };
        let ghost before = self.current@;
        let is_failure = outcome.is_failure();
        self.current.push(outcome);
        assert(self.current@.drop_last() =~= before);
        assert(self.current@.take(k as int) =~= before);
        proof {
            lemma_failed_count_bound(before);
        }
        if is_failure {
            self.failed = self.failed + 1;
        } else {
            self.decoded = self.decoded + 1;
        }
        if self.current.len() == self.records.len() {
            self.phase = Phase::Finalizing;
        }
    }

    /// The hashes still to be decoded for the current address, in fetch
    /// order; none out of the enriching phase. Their lookups may run at once.
    pub fn pending_hashes(&self) -> (r: Vec<String>)
        requires
            self.wf(),
        ensures
            self.phase() != Phase::Enriching ==> r@.len() == 0,
            self.phase() == Phase::Enriching ==> {
                &&& r@.len() == self.records().len() - self.current().len()
                &&& forall|i: int|
                    0 <= i < r@.len() ==> (#[trigger] r@[i])@ == self.records()[self.current().len()
                        + i].hash@
            },
    {
        let mut r: Vec<String> = Vec::new();
        if self.phase != Phase::Enriching {
            return r;
        }
        let k = self.current.len();
        let mut i: usize = k;
        while i < self.records.len()
            invariant
                k <= i <= self.records.len(),
                r@.len() == i - k,
                forall|j: int| 0 <= j < r@.len() ==> (#[trigger] r@[j])@ == self.records@[k + j].hash@,
            decreases self.records.len() - i,
        {
            r.push(self.records[i].hash.clone());
            i = i + 1;
        }
        r
    }

    /// Takes the lookup replies for the pending records, the i-th pair for
    /// the i-th pending hash, and appends their outcomes in that order, so the
    /// result keeps fetch order however the lookups were scheduled. Pairs
    /// beyond the pending records are left unused. Out of the enriching
    /// phase nothing changes.
    pub fn on_decoded_all(&mut self, replies: Vec<(LookupReply, LookupReply)>)
        requires
            old(self).wf(),
        ensures
            final(self).wf(),
            old(self).phase() != Phase::Enriching ==> *final(self) == *old(self),
            old(self).phase() == Phase::Enriching ==> {
                let k = old(self).current().len() as int;
                let n = old(self).records().len() as int;
                let m = if replies@.len() < n - k {
                    replies@.len() as int
                } else {
                    n - k
                };
                &&& old(self).same_address(*final(self))
                &&& final(self).count() == old(self).count()
                &&& final(self).records() == old(self).records()
                &&& final(self).current().len() == k + m
                &&& final(self).current().take(k) == old(self).current()
                &&& forall|i: int|
                    0 <= i < m ==> outcome_of_replies(
                        #[trigger] final(self).current()[k + i],
                        old(self).records()[k + i].hash@,
                        replies@[i].0,
                        replies@[i].1,
                    )
                &&& final(self).phase() == if k + m == n {
                    Phase::Finalizing
                } else {
                    Phase::Enriching
                }
            },
    {
        if self.phase != Phase::Enriching {
            return ;
        }
        let ghost start = *self;
        let ghost all = replies@;
        let ghost k = self.current@.len() as int;
        let mut replies = replies;
        let total = replies.len();
        let mut j: usize = 0;
        while j < total && self.phase == Phase::Enriching
            invariant
                self.wf(),
                start.wf(),
                start.phase() == Phase::Enriching,
                k == start.current().len(),
                total == all.len(),
                j <= total,
                replies@ == all.subrange(j as int, total as int),
                start.same_address(*self),
                self.count() == start.count(),
                self.records() == start.records(),
                self.current().len() == k + j,
                self.current().take(k) == start.current(),
                forall|i: int|
                    0 <= i < j ==> outcome_of_replies(
                        #[trigger] self.current()[k + i],
                        start.records()[k + i].hash@,
                        all[i].0,
                        all[i].1,
                    ),
                self.phase() == Phase::Enriching || self.phase() == Phase::Finalizing,
                self.phase() == Phase::Finalizing ==> self.current().len() == self.records().len(),
            decreases total - j,
        {
            let (input, logs) = replies.remove(0);
            let ghost before = *self;
            self.on_decoded(input, logs);
            proof {
                assert(self.current().take(k) =~= before.current().take(k + j).take(k));
                assert(before.current().take(k + j) =~= before.current());
                assert forall|i: int| 0 <= i < j + 1 implies outcome_of_replies(
                    #[trigger] self.current()[k + i],
                    start.records()[k + i].hash@,
                    all[i].0,
                    all[i].1,
                ) by {
                    if i < j {
                        assert(self.current()[k + i] == self.current().take(k + j)[k + i]);
                    }
                }
                assert(replies@ =~= all.subrange(j + 1, total as int));
            }
            j = j + 1;
        }
    }

    /// Stops the run: no further work is asked for, and the work on the
    /// current address, not yet finalized, is dropped and never handed out.
    /// A result already handed out must first be reported through
    /// `on_persisted`: until then the run cannot be stopped.
    pub fn cancel(&mut self) -> (r: bool)
        requires
            old(self).wf(),
        ensures
            final(self).wf(),
            r == (old(self).phase() != Phase::Persisting),
            !r ==> *final(self) == *old(self),
            r ==> {
                &&& final(self).addresses() == old(self).addresses()
                &&& final(self).reports() == old(self).reports()
                &&& final(self).current().len() == 0
                &&& final(self).phase() == if old(self).phase() == Phase::Done {
                    Phase::Done
                } else {
                    Phase::Cancelled
                }
            },
    {
        match self.phase {
            Phase::Persisting => false,
            Phase::Done => true,
            _ => {
                self.phase = Phase::Cancelled;
                self.current = Vec::new();
                self.decoded = 0;
                self.failed = 0;
                true
            },
        }
    }

    /// Hands out the finished result of the current address, in the
    /// finalizing phase; then the driver waits for `on_persisted`. In any
    /// other phase there is none and nothing changes.
    pub fn finalize(&mut self) -> (r: Option<AddressResult>)
        requires
            old(self).wf(),
        ensures
            final(self).wf(),
            r is Some <==> old(self).phase() == Phase::Finalizing,
            r is None ==> *final(self) == *old(self),
            r matches Some(res) ==> {
                &&& res.address@ == old(self).current_address()
                &&& res.tx@ == old(self).current()
                &&& res.tx@.len() == old(self).records().len()
                &&& old(self).same_address(*final(self))
                &&& final(self).count() == old(self).count()
                &&& final(self).records() == old(self).records()
                &&& final(self).handed_out() == res.tx@
                &&& final(self).phase() == Phase::Persisting
            },
    {
        if self.phase != Phase::Finalizing {
            return None;
        }
        let mut tx: Vec<TxOutcome> = Vec::new();
        std::mem::swap(&mut self.current, &mut tx);
        self.handed_out = Ghost(tx@);
        self.phase = Phase::Persisting;
        Some(AddressResult { address: self.addresses[self.index].clone(), tx })
    }

    /// Takes whether the handed-out result was persisted, ends the address
    /// with its report and moves on. Out of the persisting phase nothing
    /// changes.
    pub fn on_persisted(&mut self, persisted: bool)
        requires
            old(self).wf(),
        ensures
            final(self).wf(),
            old(self).phase() != Phase::Persisting ==> *final(self) == *old(self),
            old(self).phase() == Phase::Persisting ==> {
                let rep = final(self).reports().last();
                let n = old(self).records().len();
                &&& old(self).moved_on(*final(self))
                &&& rep.address@ == old(self).current_address()
                &&& rep.status == if persisted {
                    AddressStatus::Persisted
                } else {
                    AddressStatus::PersistFailed
                }
                &&& rep.count == old(self).count()
                &&& rep.fetched == n
                &&& rep.reached_limit == reaches_limit(old(self).count(), n, old(self).limit())
                &&& rep.failed == failed_count(old(self).handed_out())
                &&& rep.decoded + rep.failed == n
            },
    {
        if self.phase != Phase::Persisting {
            return ;
        }
        let fetched = self.records.len() as u64;
        let report = AddressReport {
            address: self.addresses[self.index].clone(),
            status: if persisted {
                AddressStatus::Persisted
            } else {
                AddressStatus::PersistFailed
            },
            count: self.count,
            fetched,
            reached_limit: self.count >= self.limit || fetched >= self.limit,
            decoded: self.decoded,
            failed: self.failed,
        };
        self.finish_address(report);
    }

}

/// The totals of a run.
#[derive(Clone, Copy, Debug, PartialEq, Eq, Structural)]
pub struct RunSummary {
    /// Addresses ended so far.
    pub processed: u64,
    /// Addresses that ended without a persisted result.
    pub failed: u64,
    /// Transactions, decoded or marked failed, in persisted results.
    pub written: u128,
}

/// The number of reports whose address ended without a persisted result.
pub open spec fn failed_addresses(reps: Seq<AddressReport>) -> nat
    decreases reps.len(),
{
    if reps.len() == 0 {
        0
    } else {
        failed_addresses(reps.drop_last()) + if reps.last().status != AddressStatus::Persisted {
            1nat
        } else {
            0nat
        }
    }
}

/// The number of transactions in the persisted results that reports count.
pub open spec fn written_transactions(reps: Seq<AddressReport>) -> nat
    decreases reps.len(),
{
    if reps.len() == 0 {
        0
    } else {
        written_transactions(reps.drop_last()) + if reps.last().status
            == AddressStatus::Persisted {
            reps.last().fetched as nat
        } else {
            0nat
        }
    }
}

impl Driver {
    /// The reports of the addresses ended so far, in run order.
    pub fn address_reports(&self) -> (r: &Vec<AddressReport>)
        requires
            self.wf(),
        ensures
            r@ == self.reports(),
    {
        &self.reports
    }

    /// The totals over the addresses ended so far.
    pub fn summary(&self) -> (r: RunSummary)
        requires
            self.wf(),
        ensures
            r.processed == self.reports().len(),
            r.failed == failed_addresses(self.reports()),
            r.written == written_transactions(self.reports()),
    {
        let mut failed: u64 = 0;
        let mut written: u128 = 0;
        let mut i: usize = 0;
        while i < self.reports.len()
            invariant
                self.wf(),
                i <= self.reports.len(),
                failed == failed_addresses(self.reports@.take(i as int)),
                failed <= i,
                written == written_transactions(self.reports@.take(i as int)),
                written <= i * 0xffff_ffff_ffff_ffffu128,
            decreases self.reports.len() - i,
        {
            let ghost pre = self.reports@.take(i as int);
            assert(self.reports@.take(i + 1).drop_last() =~= pre);
            let rep = &self.reports[i];
            if rep.status != AddressStatus::Persisted {
                failed = failed + 1;
            } else {
                assert(written + rep.fetched <= (i + 1) * 0xffff_ffff_ffff_ffffu128) by (
                nonlinear_arith)
                    requires
                        written <= i * 0xffff_ffff_ffff_ffffu128,
                        rep.fetched <= 0xffff_ffff_ffff_ffffu64,
                ;
                written = written + rep.fetched as u128;
            }
            i = i + 1;
        }
        assert(self.reports@.take(i as int) =~= self.reports@);
        RunSummary { processed: self.reports.len() as u64, failed, written }
    }
}

/// A finished run has ended every planned address, in plan order: one report
/// per address, whether its result was persisted or it failed.
pub proof fn lemma_finished_run_reports_each_address(d: Driver)
    requires
        d.wf(),
        d.phase() == Phase::Done,
    ensures
        d.reports().len() == d.addresses().len(),
        forall|i: int|
            0 <= i < d.reports().len() ==> (#[trigger] d.reports()[i]).address@
                == d.addresses()[i],
{
    assert forall|i: int| 0 <= i < d.reports().len() implies (#[trigger] d.reports()[i]).address@
        == d.addresses()[i] by {
        assert(d.addresses()[i] == d.addresses@[i]@);
    }
}

/// The outcomes of an address follow its records in fetch order: the i-th
/// outcome is for the i-th record; once finalized there is one per record.
pub proof fn lemma_outcomes_follow_fetch_order(d: Driver)
    requires
        d.wf(),
    ensures
        d.current().len() <= d.records().len(),
        forall|i: int|
            0 <= i < d.current().len() ==> (#[trigger] d.current()[i]).hash_of()
                == d.records()[i].hash@,
        d.phase() == Phase::Finalizing ==> d.current().len() == d.records().len(),
{
}

/// A batch for an address holds only records sent from it, and no more than
/// the limit, so neither does its result.
pub proof fn lemma_batch_within_terms(d: Driver)
    requires
        d.wf(),
        d.has_batch(),
    ensures
        d.records().len() <= d.limit(),
        forall|i: int| 0 <= i < d.records().len() ==> (#[trigger] d.records()[i]).from@
            == d.current_address(),
{
    assert(d.current_address() == d.addresses@[d.index as int]@);
}

} // verus!
