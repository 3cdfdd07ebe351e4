use ghprod::api::PullRequest;
use ghprod::error::GhProdError;
use ghprod::error::InnerGhProdError;
use ghprod::metrics::mean_net_change;
use ghprod::metrics::mean_pr_duration;
use ghprod::metrics::median_pr_duration;
use ghprod::metrics::pull_request_duration;
use ghprod::metrics::pull_request_duration_at;
use ghprod::metrics::pull_request_terminated;
use ghprod::metrics::pull_requests_by_author;
use ghprod::metrics::terminated_pull_requests;
use ghprod::metrics::total_pull_requests;
use ghprod::metrics::Metric;
use ghprod::metrics::PullRequestTerminatingState;
use ghprod::metrics::Ratio;
use ghprod::api::pull_request_net_change;

const DAY: i64 = 86400;

fn pr(
    author: Option<&str>,
    created_at: i64,
    merged_at: Option<i64>,
    closed_at: Option<i64>,
    additions: Option<u32>,
    deletions: Option<u32>,
) -> PullRequest {
    PullRequest {
        author: author.map(|a| a.to_owned()),
        created_at,
        merged_at,
        closed_at,
        additions,
        deletions,
    }
}

fn as_f64(r: Ratio) -> f64 {
    r.num as f64 / r.den as f64
}

#[test]
fn net_change_both_present() {
    let p = pr(Some("alice"), 0, Some(4 * DAY), None, Some(100), Some(20));
    assert_eq!(pull_request_net_change(&p), Some(80));
}

#[test]
fn net_change_only_additions() {
    let p = pr(Some("alice"), 0, None, None, Some(42), None);
    assert_eq!(pull_request_net_change(&p), Some(42));
}

#[test]
fn net_change_only_deletions() {
    let p = pr(Some("alice"), 0, None, None, None, Some(17));
    assert_eq!(pull_request_net_change(&p), Some(-17));
}

#[test]
fn net_change_neither_is_no_value() {
    let p = pr(Some("alice"), 0, None, None, None, None);
    assert_eq!(pull_request_net_change(&p), None);
}

#[test]
fn by_author_filters_and_preserves_order() {
    let items = vec![
        pr(Some("alice"), 0, None, None, Some(1), None),
        pr(Some("bob"), 1, None, None, Some(2), None),
        pr(Some("alice"), 2, None, None, Some(3), None),
    ];
    let alices = pull_requests_by_author("alice", &items);
    assert_eq!(alices.len(), 2);
    assert_eq!(alices[0].created_at, 0);
    assert_eq!(alices[1].created_at, 2);
}

#[test]
fn by_author_item_without_author_never_matches() {
    let items = vec![pr(None, 0, None, None, None, None)];
    assert_eq!(pull_requests_by_author("alice", &items).len(), 0);
    assert_eq!(pull_requests_by_author("", &items).len(), 0);
}

#[test]
fn by_author_twice_yields_the_same() {
    let items = vec![
        pr(Some("alice"), 0, None, None, None, None),
        pr(Some("bob"), 1, None, None, None, None),
        pr(Some("alice"), 2, None, None, None, None),
    ];
    let once = pull_requests_by_author("alice", &items);
    let twice = pull_requests_by_author("alice", &once);
    assert_eq!(once, twice);
}

#[test]
fn count_and_mean_diverge_on_empty_input() {
    let items: Vec<PullRequest> = vec![];
    assert_eq!(total_pull_requests("alice", &items), 0);
    assert_eq!(
        mean_pr_duration("alice", &items, PullRequestTerminatingState::Merged, 0),
        None
    );
}

#[test]
fn scenario_two_authors() {
    let pr1 = pr(Some("alice"), 0, Some(4 * DAY), None, Some(100), Some(20));
    let pr2 = pr(Some("alice"), 0, Some(6 * DAY), None, Some(10), Some(10));
    let pr3 = pr(Some("bob"), 0, None, None, None, None);
    assert_eq!(pull_request_net_change(&pr1), Some(80));
    assert_eq!(pull_request_net_change(&pr2), Some(0));
    let items = vec![pr1, pr2, pr3];
    let state = PullRequestTerminatingState::Merged;
    let now = 100 * DAY;
    assert_eq!(total_pull_requests("alice", &items), 2);
    let mean = mean_pr_duration("alice", &items, state, now).unwrap();
    assert_eq!(as_f64(mean), 5.0);
    let median = median_pr_duration("alice", &items, state, now).unwrap();
    assert_eq!(as_f64(median), 5.0);
}

#[test]
fn median_odd_sorts_and_takes_middle() {
    let items = vec![
        pr(Some("alice"), 0, Some(9 * DAY), None, None, None),
        pr(Some("alice"), 0, Some(1 * DAY), None, None, None),
        pr(Some("alice"), 0, Some(2 * DAY), None, None, None),
    ];
    let m = median_pr_duration("alice", &items, PullRequestTerminatingState::Merged, 0).unwrap();
    assert_eq!(as_f64(m), 2.0);
}

#[test]
fn median_even_sorts_and_averages_middles() {
    let items = vec![
        pr(Some("alice"), 0, Some(9 * DAY), None, None, None),
        pr(Some("alice"), 0, Some(1 * DAY), None, None, None),
        pr(Some("alice"), 0, Some(4 * DAY), None, None, None),
        pr(Some("alice"), 0, Some(2 * DAY), None, None, None),
    ];
    let m = median_pr_duration("alice", &items, PullRequestTerminatingState::Merged, 0).unwrap();
    assert_eq!(as_f64(m), 3.0);
}

#[test]
fn median_single_item() {
    let items = vec![pr(Some("alice"), 0, Some(7 * DAY), None, None, None)];
    let m = median_pr_duration("alice", &items, PullRequestTerminatingState::Merged, 0).unwrap();
    assert_eq!(as_f64(m), 7.0);
}

#[test]
fn median_empty_is_no_value() {
    let items: Vec<PullRequest> = vec![];
    assert_eq!(
        median_pr_duration("alice", &items, PullRequestTerminatingState::Merged, 0),
        None
    );
}

#[test]
fn open_item_ages_against_now() {
    let items = vec![pr(Some("bob"), 0, None, None, None, None)];
    let state = PullRequestTerminatingState::Merged;
    let mean = mean_pr_duration("bob", &items, state, 10 * DAY).unwrap();
    assert_eq!(as_f64(mean), 10.0);
}

#[test]
fn duration_at_prefers_terminal_timestamp_over_now() {
    let p = pr(Some("alice"), DAY, Some(5 * DAY), None, None, None);
    let state = PullRequestTerminatingState::Merged;
    assert_eq!(pull_request_duration_at(&p, state, 50 * DAY), 4 * DAY);
}

#[test]
fn duration_under_closed_state() {
    let p = pr(Some("alice"), 0, Some(3 * DAY), Some(5 * DAY), None, None);
    assert_eq!(
        pull_request_duration_at(&p, PullRequestTerminatingState::Closed, 0),
        5 * DAY
    );
    assert_eq!(
        pull_request_duration_at(&p, PullRequestTerminatingState::Merged, 0),
        3 * DAY
    );
}

#[test]
fn clock_duration_of_open_item_is_positive() {
    // An item created at the epoch and still open is as old as the clock
    // says; any current clock is far past day one.
    let p = pr(Some("alice"), 0, None, None, None, None);
    let d = pull_request_duration(&p, PullRequestTerminatingState::Merged);
    assert!(d > DAY);
}

#[test]
fn clock_duration_of_terminated_item_ignores_clock() {
    let p = pr(Some("alice"), 0, Some(4 * DAY), None, None, None);
    let d = pull_request_duration(&p, PullRequestTerminatingState::Merged);
    assert_eq!(d, 4 * DAY);
}

#[test]
fn terminated_is_per_state_field() {
    let merged_only = pr(Some("a"), 0, Some(DAY), None, None, None);
    let closed_only = pr(Some("a"), 0, None, Some(DAY), None, None);
    let open = pr(Some("a"), 0, None, None, None, None);
    let merged = PullRequestTerminatingState::Merged;
    let closed = PullRequestTerminatingState::Closed;
    assert!(pull_request_terminated(&merged_only, merged));
    assert!(!pull_request_terminated(&merged_only, closed));
    assert!(!pull_request_terminated(&closed_only, merged));
    assert!(pull_request_terminated(&closed_only, closed));
    assert!(!pull_request_terminated(&open, merged));
    assert!(!pull_request_terminated(&open, closed));
}

#[test]
fn terminated_pull_requests_filters() {
    let items = vec![
        pr(Some("a"), 0, Some(DAY), None, None, None),
        pr(Some("b"), 1, None, None, None, None),
        pr(Some("c"), 2, Some(DAY), Some(DAY), None, None),
    ];
    let t = terminated_pull_requests(&items, PullRequestTerminatingState::Merged);
    assert_eq!(t.len(), 2);
    assert_eq!(t[0].created_at, 0);
    assert_eq!(t[1].created_at, 2);
}

#[test]
fn mean_net_change_counts_all_but_sums_terminated_defined() {
    // alice has three items: a merged one with net +80, an open one whose
    // stats would add +100 but which has not terminated, and a merged one
    // with no stats at all. Only the first contributes to the numerator;
    // all three stand in the denominator.
    let items = vec![
        pr(Some("alice"), 0, Some(DAY), None, Some(100), Some(20)),
        pr(Some("alice"), 0, None, None, Some(100), None),
        pr(Some("alice"), 0, Some(DAY), None, None, None),
    ];
    let m = mean_net_change("alice", &items, PullRequestTerminatingState::Merged).unwrap();
    assert_eq!(m.num, 80);
    assert_eq!(m.den, 3);
}

#[test]
fn mean_net_change_empty_is_no_value() {
    let items: Vec<PullRequest> = vec![];
    assert_eq!(
        mean_net_change("alice", &items, PullRequestTerminatingState::Merged),
        None
    );
}

#[test]
fn mean_net_change_negative() {
    let items = vec![pr(Some("alice"), 0, Some(DAY), None, Some(5), Some(25))];
    let m = mean_net_change("alice", &items, PullRequestTerminatingState::Merged).unwrap();
    assert_eq!(m.num, -20);
    assert_eq!(m.den, 1);
}

#[test]
fn metric_names_parse() {
    assert_eq!(Metric::from_str("mean_pr_duration"), Ok(Metric::MeanPrDuration));
    assert_eq!(Metric::from_str("median_pr_duration"), Ok(Metric::MedianPrDuration));
    assert_eq!(Metric::from_str("mean_net_change"), Ok(Metric::MeanNetChange));
    assert_eq!(Metric::from_str("total_num_prs"), Ok(Metric::TotalPullRequests));
}

#[test]
fn unknown_metric_name_is_rejected() {
    assert_eq!(Metric::from_str("nonsense"), Err("Unknown metric"));
}

#[test]
fn state_names_parse() {
    for s in ["merged", "Merged", "MERGED", "m", "M", "merge", "Merge", "MERGE"] {
        assert!(matches!(
            PullRequestTerminatingState::from_str(s),
            Ok(PullRequestTerminatingState::Merged)
        ));
    }
    for s in ["closed", "Closed", "CLOSED", "c", "C", "close", "Close", "CLOSE"] {
        assert!(matches!(
            PullRequestTerminatingState::from_str(s),
            Ok(PullRequestTerminatingState::Closed)
        ));
    }
}

#[test]
fn unknown_state_name_is_rejected() {
    assert!(matches!(
        PullRequestTerminatingState::from_str("open"),
        Err("Unknown terminating state")
    ));
}

#[test]
fn default_state_is_merged() {
    assert!(matches!(
        PullRequestTerminatingState::default(),
        PullRequestTerminatingState::Merged
    ));
}

#[test]
fn error_carries_code_message_and_cause() {
    let e = GhProdError::new(
        1,
        "Failed to initialise client".to_owned(),
        Some(InnerGhProdError::ClientError("connection refused".to_owned())),
    );
    assert_eq!(e.code(), 1);
    assert_eq!(e.msg().as_str(), "Failed to initialise client");
    assert!(matches!(
        e.inner(),
        Some(InnerGhProdError::ClientError(m)) if m.as_str() == "connection refused"
    ));
}
