use tx_export::address::{normalize_address, plan_addresses};
use tx_export::driver::{Action, AddressResult, AddressStatus, Driver, TxOutcome};
use tx_export::payload::{decode_transaction, EnrichError, LookupReply};
use tx_export::record::{check_batch, SourceError, TransactionRecord};

fn record(from: &str, hash: &str) -> TransactionRecord {
    TransactionRecord {
        from: from.to_string(),
        to: "0x0".to_string(),
        hash: hash.to_string(),
        block: 7,
        created_at_ms: 1_600_000_000_000,
    }
}

fn ok_reply(body: &str) -> LookupReply {
    LookupReply::Answer { status: 200, body: body.to_string() }
}

fn lines(v: &[&str]) -> Vec<String> {
    v.iter().map(|s| s.to_string()).collect()
}

/// Runs a driver against an in-memory store; `decode_fails` names hashes
/// whose input lookup answers with status 500.
fn run(
    input: &[&str],
    limit: u64,
    store: &[TransactionRecord],
    decode_fails: &[&str],
) -> (Vec<AddressResult>, Driver) {
    let mut d = Driver::new(&lines(input), limit).unwrap();
    let mut results = Vec::new();
    loop {
        match d.next_action() {
            Action::Fetch { address, limit } => {
                let all: Vec<&TransactionRecord> = store.iter().filter(|r| r.from == address).collect();
                let count = (all.len() as u64).min(limit);
                let batch: Vec<TransactionRecord> = all
                    .iter()
                    .take(limit as usize)
                    .map(|r| record(&r.from, &r.hash))
                    .collect();
                d.on_fetched(Ok(count), Ok(batch));
            }
            Action::Decode { hash } => {
                let input = if decode_fails.contains(&hash.as_str()) {
                    LookupReply::Answer { status: 500, body: String::new() }
                } else {
                    ok_reply(&format!("{{\"hash\":\"{}\"}}", hash))
                };
                d.on_decoded(input, ok_reply("[]"));
            }
            Action::Persist => {
                let r = d.finalize().unwrap();
                results.push(r);
                d.on_persisted(true);
            }
            Action::AwaitPersisted => panic!("a result was taken and not reported"),
            Action::Finished => break,
        }
    }
    (results, d)
}

fn hashes(r: &AddressResult) -> Vec<String> {
    r.tx.iter()
        .map(|o| match o {
            TxOutcome::Decoded(d) => d.hash.clone(),
            TxOutcome::Failed { hash, .. } => hash.clone(),
        })
        .collect()
}

#[test]
fn two_addresses_scenario() {
    let store = vec![record("0xabc", "h1"), record("0xabc", "h2"), record("0x999", "h3")];
    let (results, d) = run(&["0xABC ", "0xdef"], 5000, &store, &[]);
    assert_eq!(results.len(), 2);
    assert_eq!(results[0].address, "0xabc");
    assert_eq!(results[0].tx.len(), 2);
    assert_eq!(results[1].address, "0xdef");
    assert_eq!(results[1].tx.len(), 0);
    assert_eq!(d.address_reports().len(), 2);
}

#[test]
fn limit_caps_fetch_and_count() {
    let store: Vec<TransactionRecord> =
        (0..5).map(|i| record("0xabc", &format!("h{}", i))).collect();
    let (results, d) = run(&["0xabc"], 1, &store, &[]);
    assert_eq!(results.len(), 1);
    assert_eq!(results[0].tx.len(), 1);
    let rep = &d.address_reports()[0];
    assert_eq!(rep.count, 1);
    assert_eq!(rep.fetched, 1);
    assert!(rep.reached_limit);
}

#[test]
fn below_limit_is_not_flagged() {
    let store = vec![record("0xabc", "h1"), record("0xabc", "h2")];
    let (_, d) = run(&["0xabc"], 3, &store, &[]);
    let rep = &d.address_reports()[0];
    assert_eq!(rep.count, 2);
    assert!(!rep.reached_limit);
}

#[test]
fn results_follow_fetch_order() {
    let store = vec![record("0xa", "r1"), record("0xa", "r2"), record("0xa", "r3")];
    let (results, _) = run(&["0xa"], 10, &store, &[]);
    assert_eq!(hashes(&results[0]), vec!["r1", "r2", "r3"]);
}

#[test]
fn one_failed_decode_is_isolated() {
    let store = vec![
        record("0xa", "r1"),
        record("0xa", "r2"),
        record("0xa", "r3"),
        record("0xb", "r4"),
    ];
    let (results, d) = run(&["0xa", "0xb"], 10, &store, &["r2"]);
    assert_eq!(results.len(), 2);
    assert_eq!(hashes(&results[0]), vec!["r1", "r2", "r3"]);
    assert!(matches!(results[0].tx[0], TxOutcome::Decoded(_)));
    assert!(matches!(
        results[0].tx[1],
        TxOutcome::Failed { error: EnrichError::ProviderError(500), .. }
    ));
    assert!(matches!(results[0].tx[2], TxOutcome::Decoded(_)));
    assert_eq!(results[1].tx.len(), 1);
    let rep = &d.address_reports()[0];
    assert_eq!((rep.decoded, rep.failed), (2, 1));
    let s = d.summary();
    assert_eq!((s.processed, s.failed, s.written), (2, 0, 4));
}

#[test]
fn zero_matches_give_empty_result() {
    let (results, _) = run(&["0xnone"], 10, &[], &[]);
    assert_eq!(results.len(), 1);
    assert!(results[0].tx.is_empty());
}

#[test]
fn plan_normalizes_skips_blanks_and_duplicates() {
    let plan = plan_addresses(&lines(&["0xABC ", "", "  ", "0xabc", "0xDef", "\t0xdef\r"]));
    assert_eq!(plan, vec!["0xabc".to_string(), "0xdef".to_string()]);
}

#[test]
fn duplicate_inputs_give_one_result_each() {
    let (results, _) = run(&["0xB", "0xa", "0xb "], 10, &[], &[]);
    let addrs: Vec<&str> = results.iter().map(|r| r.address.as_str()).collect();
    assert_eq!(addrs, vec!["0xb", "0xa"]);
}

#[test]
fn normalize_lowercases_and_trims() {
    assert_eq!(normalize_address("  0xABcD\n"), "0xabcd");
    assert_eq!(normalize_address("\u{3000}X\u{a0}"), "x");
    assert_eq!(normalize_address(""), "");
}

#[test]
fn empty_input_is_done_at_once() {
    let mut d = Driver::new(&lines(&["", " "]), 10).unwrap();
    assert!(d.has_no_input());
    assert!(matches!(d.next_action(), Action::Finished));
    assert!(d.finalize().is_none());
    assert_eq!(d.summary().processed, 0);
}

#[test]
fn zero_limit_is_refused() {
    assert!(Driver::new(&lines(&["0xa"]), 0).is_none());
}

#[test]
fn decode_combines_both_documents() {
    let r = decode_transaction("h".to_string(), ok_reply("{\"a\": 1}"), ok_reply("[1, 2]")).unwrap();
    assert_eq!(r.hash, "h");
    assert_eq!(r.input["a"], 1);
    assert_eq!(r.logs[1], 2);
}

#[test]
fn decode_errors() {
    let e = decode_transaction("h".to_string(), LookupReply::Unreachable, ok_reply("1"));
    assert_eq!(e.err(), Some(EnrichError::ProviderUnreachable));
    let e = decode_transaction(
        "h".to_string(),
        ok_reply("1"),
        LookupReply::Answer { status: 404, body: "{}".to_string() },
    );
    assert_eq!(e.err(), Some(EnrichError::ProviderError(404)));
    let e = decode_transaction("h".to_string(), ok_reply("not json"), ok_reply("1"));
    assert_eq!(e.err(), Some(EnrichError::MalformedPayload));
    let e = decode_transaction("h".to_string(), ok_reply("1"), ok_reply(""));
    assert_eq!(e.err(), Some(EnrichError::MalformedPayload));
    let e = decode_transaction("h".to_string(), LookupReply::Unreachable, ok_reply("x"));
    assert_eq!(e.err(), Some(EnrichError::ProviderUnreachable));
}

#[test]
fn store_failures_end_only_that_address() {
    let mut d = Driver::new(&lines(&["0xa", "0xb", "0xc"]), 2).unwrap();
    d.on_fetched(Err(SourceError::StoreUnavailable), Ok(Vec::new()));
    d.on_fetched(Ok(1), Err(SourceError::QueryFailed));
    // a batch over the limit breaks the query's terms
    d.on_fetched(Ok(2), Ok(vec![record("0xc", "1"), record("0xc", "2"), record("0xc", "3")]));
    assert!(matches!(d.next_action(), Action::Finished));
    let reps = d.address_reports();
    assert_eq!(reps[0].status, AddressStatus::FetchFailed(SourceError::StoreUnavailable));
    assert_eq!(reps[1].status, AddressStatus::FetchFailed(SourceError::QueryFailed));
    assert_eq!(reps[2].status, AddressStatus::FetchFailed(SourceError::QueryFailed));
    assert_eq!(d.summary().failed, 3);
}

#[test]
fn batch_from_another_address_is_refused() {
    let a = "0xa".to_string();
    assert!(check_batch(1, &vec![record("0xa", "1")], &a, 1));
    assert!(!check_batch(1, &vec![record("0xb", "1")], &a, 1));
    assert!(!check_batch(2, &vec![record("0xa", "1")], &a, 1));
}

#[test]
fn persist_failure_is_reported() {
    let mut d = Driver::new(&lines(&["0xa"]), 5).unwrap();
    d.on_fetched(Ok(0), Ok(Vec::new()));
    assert!(matches!(d.next_action(), Action::Persist));
    let r = d.finalize().unwrap();
    assert!(matches!(d.next_action(), Action::AwaitPersisted));
    assert!(d.finalize().is_none());
    d.on_persisted(false);
    assert_eq!(r.address, "0xa");
    assert_eq!(d.address_reports()[0].status, AddressStatus::PersistFailed);
    let s = d.summary();
    assert_eq!((s.processed, s.failed, s.written), (1, 1, 0));
}

#[test]
fn out_of_phase_events_are_ignored() {
    let mut d = Driver::new(&lines(&["0xa"]), 5).unwrap();
    d.on_decoded(ok_reply("1"), ok_reply("1"));
    d.on_persisted(true);
    match d.next_action() {
        Action::Fetch { address, limit } => {
            assert_eq!(address, "0xa");
            assert_eq!(limit, 5);
        }
        _ => panic!("expected a fetch"),
    }
}

#[test]
fn batch_replies_keep_fetch_order() {
    let mut d = Driver::new(&lines(&["0xa"]), 10).unwrap();
    d.on_fetched(
        Ok(3),
        Ok(vec![record("0xa", "r1"), record("0xa", "r2"), record("0xa", "r3")]),
    );
    let pending = d.pending_hashes();
    assert_eq!(pending, vec!["r1", "r2", "r3"]);
    let replies: Vec<(LookupReply, LookupReply)> = pending
        .iter()
        .map(|h| (ok_reply(&format!("\"{}\"", h)), ok_reply("null")))
        .collect();
    d.on_decoded_all(replies);
    assert!(d.pending_hashes().is_empty());
    let r = d.finalize().unwrap();
    assert_eq!(hashes(&r), vec!["r1", "r2", "r3"]);
    match &r.tx[2] {
        TxOutcome::Decoded(t) => assert_eq!(t.input, "r3"),
        _ => panic!("expected a decoded transaction"),
    }
}

#[test]
fn batch_replies_in_parts_and_extras_unused() {
    let mut d = Driver::new(&lines(&["0xa"]), 10).unwrap();
    d.on_fetched(Ok(2), Ok(vec![record("0xa", "r1"), record("0xa", "r2")]));
    d.on_decoded_all(vec![(LookupReply::Unreachable, ok_reply("1"))]);
    assert_eq!(d.pending_hashes(), vec!["r2"]);
    d.on_decoded_all(vec![(ok_reply("1"), ok_reply("2")), (ok_reply("3"), ok_reply("4"))]);
    assert!(matches!(d.next_action(), Action::Persist));
    let r = d.finalize().unwrap();
    assert_eq!(r.tx.len(), 2);
    assert!(matches!(
        r.tx[0],
        TxOutcome::Failed { error: EnrichError::ProviderUnreachable, .. }
    ));
}

#[test]
fn artifact_is_named_by_address() {
    let (results, _) = run(&["0xABC"], 10, &[], &[]);
    assert_eq!(results[0].artifact_name(), "0xabc.json");
}

#[test]
fn cancel_drops_unfinished_work() {
    let mut d = Driver::new(&lines(&["0xa", "0xb"]), 10).unwrap();
    d.on_fetched(Ok(2), Ok(vec![record("0xa", "r1"), record("0xa", "r2")]));
    d.on_decoded(ok_reply("1"), ok_reply("1"));
    assert!(d.cancel());
    assert!(matches!(d.next_action(), Action::Finished));
    assert!(d.finalize().is_none());
    assert!(d.pending_hashes().is_empty());
    assert!(d.address_reports().is_empty());
}

#[test]
fn cancel_waits_for_a_handed_out_result() {
    let mut d = Driver::new(&lines(&["0xa", "0xb"]), 10).unwrap();
    d.on_fetched(Ok(0), Ok(Vec::new()));
    let r = d.finalize().unwrap();
    assert!(!d.cancel());
    d.on_persisted(true);
    assert!(d.cancel());
    assert!(matches!(d.next_action(), Action::Finished));
    assert_eq!(d.address_reports().len(), 1);
    assert_eq!(d.address_reports()[0].address, r.address);
}
