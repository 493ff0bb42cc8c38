use jitoliq::envelope::JsonRpcRequest;
use jitoliq::error::{BundleError, ProtocolIssue};
use jitoliq::poll::{LandingPoll, PollStep, POLL_INTERVAL_MS};
use jitoliq::{BundleStatus, JitoBundleClient};

fn record(signatures: Option<Vec<String>>) -> BundleStatus {
    BundleStatus { bundle_id: Some("b".to_string()), transactions: signatures, slot: None, status: None }
}

struct Waited {
    queries: u64,
    returned_at: u64,
    outcome: Result<Vec<String>, BundleError>,
}

fn wait(
    started: u64,
    timeout: u64,
    query_ms: u64,
    mut gateway: impl FnMut(&JsonRpcRequest, u64) -> Result<Vec<BundleStatus>, BundleError>,
) -> Waited {
    let mut now = started;
    let mut queries = 0;
    let poll = LandingPoll::start("b".to_string(), timeout, now);
    loop {
        let request = match poll.check(now) {
            PollStep::Query(request) => request,
            PollStep::Done(outcome) => return Waited { queries, returned_at: now, outcome },
            PollStep::Sleep(_) => panic!("a check never sleeps"),
        };
        let outcome = gateway(&request, queries);
        queries += 1;
        now += query_ms;
        match poll.observe(outcome) {
            PollStep::Sleep(ms) => now += ms,
            PollStep::Done(outcome) => return Waited { queries, returned_at: now, outcome },
            PollStep::Query(_) => panic!("an observation never queries"),
        }
    }
}

#[test]
fn poll_interval_is_a_fifth_of_a_second() {
    assert_eq!(POLL_INTERVAL_MS, 200);
}

#[test]
fn bundle_that_never_lands_gives_no_signatures_after_two_seconds() {
    let waited = wait(5_000, 2_000, 0, |_, _| Ok(vec![record(None)]));
    assert_eq!(waited.outcome, Ok(vec![]));
    assert_eq!(waited.queries, 10);
    assert_eq!(waited.returned_at, 7_000);
}

#[test]
fn poll_overruns_the_timeout_by_less_than_one_round() {
    for query_ms in [0u64, 1, 37, 150, 900] {
        for timeout in [0u64, 1, 199, 200, 201, 2_000, 2_345] {
            let waited = wait(10_000, timeout, query_ms, |_, _| Ok(vec![]));
            assert_eq!(waited.outcome, Ok(vec![]));
            assert!(waited.returned_at >= 10_000 + timeout);
            if timeout > 0 {
                assert!(waited.returned_at < 10_000 + timeout + query_ms + POLL_INTERVAL_MS);
            } else {
                assert_eq!(waited.returned_at, 10_000);
                assert_eq!(waited.queries, 0);
            }
        }
    }
}

#[test]
fn landed_signatures_end_the_poll_at_once() {
    let waited = wait(0, 2_000, 10, |_, n| {
        if n < 3 {
            Ok(vec![record(Some(vec![]))])
        } else {
            Ok(vec![record(Some(vec!["sig".to_string()]))])
        }
    });
    assert_eq!(waited.outcome, Ok(vec!["sig".to_string()]));
    assert_eq!(waited.queries, 4);
    assert_eq!(waited.returned_at, 3 * 210 + 10);
}

#[test]
fn failed_query_ends_the_poll_with_its_failure() {
    let waited = wait(0, 2_000, 0, |_, n| {
        if n == 0 {
            Ok(vec![])
        } else {
            Err(BundleError::ProtocolError(ProtocolIssue::MissingResult))
        }
    });
    assert_eq!(waited.outcome, Err(BundleError::ProtocolError(ProtocolIssue::MissingResult)));
    assert_eq!(waited.queries, 2);
}

#[test]
fn poll_asks_for_its_bundle_alone() {
    let poll = LandingPoll::start("bundle-9".to_string(), 100, 0);
    assert_eq!(
        poll.check(99),
        PollStep::Query(JsonRpcRequest::get_bundle_statuses(vec!["bundle-9".to_string()]))
    );
    assert_eq!(poll.check(100), PollStep::Done(Ok(vec![])));
    assert_eq!(poll.check(u64::MAX), PollStep::Done(Ok(vec![])));
}

#[test]
fn clock_that_ran_backwards_counts_as_no_time_passed() {
    let poll = LandingPoll::start("b".to_string(), 100, 1_000);
    assert!(matches!(poll.check(900), PollStep::Query(_)));
    let at_once = LandingPoll::start("b".to_string(), 0, 1_000);
    assert_eq!(at_once.check(900), PollStep::Done(Ok(vec![])));
}

#[test]
fn records_without_signatures_are_followed_by_a_pause() {
    let poll = LandingPoll::start("b".to_string(), 100, 0);
    assert_eq!(poll.observe(Ok(vec![])), PollStep::Sleep(200));
    assert_eq!(poll.observe(Ok(vec![record(None)])), PollStep::Sleep(200));
    assert_eq!(
        poll.observe(Ok(vec![record(Some(vec!["s".to_string()]))])),
        PollStep::Done(Ok(vec!["s".to_string()]))
    );
}

#[test]
fn client_begins_a_poll() {
    let client = JitoBundleClient::new(vec!["http://a".to_string()]);
    let poll = client.wait_for_landed_signatures("bundle-3", 2_000, 50);
    assert_eq!(poll, LandingPoll::start("bundle-3".to_string(), 2_000, 50));
    assert!(matches!(poll.check(2_049), PollStep::Query(_)));
    assert_eq!(poll.check(2_050), PollStep::Done(Ok(vec![])));
}

#[test]
fn signatures_of_another_bundle_do_not_end_the_poll() {
    let poll = LandingPoll::start("b".to_string(), 100, 0);
    let mut foreign = record(Some(vec!["x".to_string()]));
    foreign.bundle_id = Some("other".to_string());
    assert_eq!(poll.observe(Ok(vec![foreign.clone()])), PollStep::Sleep(200));
    assert_eq!(
        poll.observe(Ok(vec![foreign, record(Some(vec!["t".to_string()]))])),
        PollStep::Done(Ok(vec!["t".to_string()]))
    );
}

#[test]
fn record_of_the_bundle_behind_an_empty_one_ends_the_poll() {
    let poll = LandingPoll::start("b".to_string(), 100, 0);
    assert_eq!(
        poll.observe(Ok(vec![record(Some(vec![])), record(Some(vec!["s".to_string()]))])),
        PollStep::Done(Ok(vec!["s".to_string()]))
    );
    let mut nameless = record(Some(vec!["x".to_string()]));
    nameless.bundle_id = None;
    assert_eq!(poll.observe(Ok(vec![nameless])), PollStep::Sleep(200));
}

#[test]
fn poll_that_sees_only_other_bundles_runs_out_of_time() {
    let waited = wait(0, 1_000, 0, |_, _| {
        let mut foreign = record(Some(vec!["x".to_string()]));
        foreign.bundle_id = Some("someone else".to_string());
        Ok(vec![foreign])
    });
    assert_eq!(waited.outcome, Ok(vec![]));
    assert_eq!(waited.queries, 5);
    assert_eq!(waited.returned_at, 1_000);
}
