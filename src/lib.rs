//! A fetch / enrich / persist pipeline for exporting the transactions of a
//! list of blockchain addresses.
//!
//! The library holds the decisions of the pipeline: how addresses are
//! normalized and planned, how a batch of records from the store is checked
//! against the retrieval limit, how the two decoding payloads of a
//! transaction are combined, and the per-address state machine that drives
//! the whole run. The store, the decoding service and the output files are
//! reached by the caller, which hands the library plain values.
pub mod address;
pub mod payload;
pub mod record;
pub mod driver;
