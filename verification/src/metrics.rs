//! The metrics used for reporting.
//!
//! All aggregation functions are pure: they take the full dataset (or an
//! already-filtered slice) together with explicit parameters, mutate
//! nothing, and express "no applicable data" as `None`, never as an error
//! and never as a computed zero.

use vstd::prelude::*;
use vstd::relations::sorted_by;
use vstd::relations::total_ordering;
use crate::api::net_change_spec;
use crate::api::pull_request_net_change;
use crate::api::MAX_TIMESTAMP_SECS;
use crate::api::PullRequest;

verus! {

broadcast use vstd::seq_lib::group_filter_ensures;

/// Represents a particular statistic.
#[derive(Clone, Debug, Eq, PartialEq)]
pub enum Metric {
    MeanPrDuration,
    MedianPrDuration,
    MeanNetChange,
    TotalPullRequests,
}

/// True when `s` names [`Metric::MeanPrDuration`].
pub open spec fn is_mean_duration_name(s: Seq<char>) -> bool {
    s == "mean_pr_duration"@
}

/// True when `s` names [`Metric::MedianPrDuration`].
pub open spec fn is_median_duration_name(s: Seq<char>) -> bool {
    s == "median_pr_duration"@
}

/// True when `s` names [`Metric::MeanNetChange`].
pub open spec fn is_mean_net_change_name(s: Seq<char>) -> bool {
    s == "mean_net_change"@
}

/// True when `s` names [`Metric::TotalPullRequests`].
pub open spec fn is_total_name(s: Seq<char>) -> bool {
    s == "total_num_prs"@
}

/// The metric a string selects, or `None` for an unknown name.
pub open spec fn metric_from_str_spec(s: Seq<char>) -> Option<Metric> {
    if is_mean_duration_name(s) {
        Some(Metric::MeanPrDuration)
    } else if is_median_duration_name(s) {
        Some(Metric::MedianPrDuration)
    } else if is_mean_net_change_name(s) {
        Some(Metric::MeanNetChange)
    } else if is_total_name(s) {
        Some(Metric::TotalPullRequests)
    } else {
        None
    }
}

impl Metric {
    /// Parses the name of a statistic.
    pub fn from_str(s: &str) -> (r: Result<Metric, &'static str>)
        ensures
            match metric_from_str_spec(s@) {
                Some(m) => r matches Ok(v) && v == m,
                None => r matches Err(e) && e@ == "Unknown metric"@,
            },
    {
        if str_eq(s, "mean_pr_duration") {
            Ok(Self::MeanPrDuration)
        } else if str_eq(s, "median_pr_duration") {
            Ok(Self::MedianPrDuration)
        } else if str_eq(s, "mean_net_change") {
            Ok(Self::MeanNetChange)
        } else if str_eq(s, "total_num_prs") {
            Ok(Self::TotalPullRequests)
        } else {
            Err("Unknown metric")
        }
    }
}

/// Represents the state a pull request is in iff it is completed.
///
/// Some projects have workflows such that a pull request that successfully
/// completes and ends up being integrated into the codebase may never be
/// merged -- but rather closed. One example is the use of a merge bot.
#[derive(Copy, Clone, Debug)]
pub enum PullRequestTerminatingState {
    Merged,
    Closed,
}

impl Default for PullRequestTerminatingState {
    /// The default terminal state is `Merged`.
    fn default() -> (s: Self)
        ensures
            s == PullRequestTerminatingState::Merged,
    {
        Self::Merged
    }
}

/// True when `s` is one of the spellings of the merged terminal state.
pub open spec fn is_merged_spelling(s: Seq<char>) -> bool {
    ||| s == "merged"@
    ||| s == "Merged"@
    ||| s == "MERGED"@
    ||| s == "m"@
    ||| s == "M"@
    ||| s == "merge"@
    ||| s == "Merge"@
    ||| s == "MERGE"@
}

/// True when `s` is one of the spellings of the closed terminal state.
pub open spec fn is_closed_spelling(s: Seq<char>) -> bool {
    ||| s == "closed"@
    ||| s == "Closed"@
    ||| s == "CLOSED"@
    ||| s == "c"@
    ||| s == "C"@
    ||| s == "close"@
    ||| s == "Close"@
    ||| s == "CLOSE"@
}

/// The terminal state a string selects, or `None` for an unknown spelling:
/// the merged spellings select `Merged`, the closed spellings `Closed`.
pub open spec fn state_from_str_spec(s: Seq<char>) -> Option<PullRequestTerminatingState> {
    if is_merged_spelling(s) {
        Some(PullRequestTerminatingState::Merged)
    } else if is_closed_spelling(s) {
        Some(PullRequestTerminatingState::Closed)
    } else {
        None
    }
}

impl PullRequestTerminatingState {
    /// Parses the name of a terminal state.
    pub fn from_str(s: &str) -> (r: Result<PullRequestTerminatingState, &'static str>)
        ensures
            match state_from_str_spec(s@) {
                Some(t) => r matches Ok(v) && v == t,
                None => r matches Err(e) && e@ == "Unknown terminating state"@,
            },
    {
        if str_eq(s, "merged") || str_eq(s, "Merged") || str_eq(s, "MERGED") || str_eq(s, "m")
            || str_eq(s, "M") || str_eq(s, "merge") || str_eq(s, "Merge") || str_eq(s, "MERGE") {
            Ok(Self::Merged)
        } else if str_eq(s, "closed") || str_eq(s, "Closed") || str_eq(s, "CLOSED")
            || str_eq(s, "c") || str_eq(s, "C") || str_eq(s, "close") || str_eq(s, "Close")
            || str_eq(s, "CLOSE") {
            Ok(Self::Closed)
        } else {
            Err("Unknown terminating state")
        }
    }
}

/// Compares two string slices by contents.
fn str_eq(a: &str, b: &str) -> (r: bool)
    ensures
        r == (a@ == b@),
{
    let x: String = a.to_owned();
    let y: String = b.to_owned();
    x == y
}

/// An item is terminated under a terminal state iff the state's timestamp
/// field is present; this is independent of whether the other terminal field
/// is also present.
pub open spec fn terminated_spec(
    pr: PullRequest,
    terminal_state: PullRequestTerminatingState,
) -> bool {
    match terminal_state {
        PullRequestTerminatingState::Closed => pr.closed_at is Some,
        PullRequestTerminatingState::Merged => pr.merged_at is Some,
    }
}

/// Determines whether `pull_request` has terminated (based on
/// `terminal_state`).
pub fn pull_request_terminated(
    pull_request: &PullRequest,
    terminal_state: PullRequestTerminatingState,
) -> (r: bool)
    ensures
        r == terminated_spec(*pull_request, terminal_state),
{
    match terminal_state {
        PullRequestTerminatingState::Closed => pull_request.closed_at.is_some(),
        PullRequestTerminatingState::Merged => pull_request.merged_at.is_some(),
    }
}

/// True when the item's author is present and is `user`.
///
/// An item with no author never matches any user.
pub open spec fn authored_by(pr: PullRequest, user: Seq<char>) -> bool {
    match pr.author {
        Some(a) => a@ == user,
        None => false,
    }
}

/// The subset of `prs` authored by `user`, order preserved.
pub open spec fn by_author_spec(user: Seq<char>, prs: Seq<PullRequest>) -> Seq<PullRequest> {
    prs.filter(|pr: PullRequest| authored_by(pr, user))
}

/// The subset of `prs` terminated under `terminal_state`, order preserved.
pub open spec fn terminated_prs_spec(
    prs: Seq<PullRequest>,
    terminal_state: PullRequestTerminatingState,
) -> Seq<PullRequest> {
    prs.filter(|pr: PullRequest| terminated_spec(pr, terminal_state))
}

/// Filtering keeps every element that satisfies the predicate, so filtering
/// a second time with the same predicate changes nothing.
proof fn lemma_filter_idempotent<A>(s: Seq<A>, pred: spec_fn(A) -> bool)
    ensures
        s.filter(pred).filter(pred) == s.filter(pred),
    decreases s.len(),
{
    reveal(Seq::filter);
    if s.len() != 0 {
        let rest = s.drop_last();
        lemma_filter_idempotent(rest, pred);
        if pred(s.last()) {
            rest.filter(pred).lemma_filter_push(s.last(), pred);
        }
    }
}

/// Filtering by author is idempotent: selecting a user's items from an
/// already-selected set of that user's items yields the same sequence.
pub proof fn lemma_by_author_idempotent(user: Seq<char>, prs: Seq<PullRequest>)
    ensures
        by_author_spec(user, by_author_spec(user, prs)) == by_author_spec(user, prs),
{
    lemma_filter_idempotent(prs, |pr: PullRequest| authored_by(pr, user));
}

/// Filtering by author keeps only well-formed items when the input holds
/// only well-formed items.
pub proof fn lemma_by_author_preserves_wf(user: Seq<char>, prs: Seq<PullRequest>)
    requires
        forall|i: int| 0 <= i < prs.len() ==> (#[trigger] prs[i]).wf(),
    ensures
        forall|i: int|
            0 <= i < by_author_spec(user, prs).len() ==> (#[trigger] by_author_spec(
                user,
                prs,
            )[i]).wf(),
{
    let f = by_author_spec(user, prs);
    assert forall|i: int| 0 <= i < f.len() implies (#[trigger] f[i]).wf() by {
        assert(f.contains(f[i]));
        prs.lemma_filter_contains_rev(|pr: PullRequest| authored_by(pr, user), f[i]);
        let j = choose|j: int| 0 <= j < prs.len() && prs[j] == f[i];
        assert(prs[j].wf());
    }
}

/// Returns the subset of pull requests that are authored by `author`.
#[verifier::loop_isolation(false)]
pub fn pull_requests_by_author(
    author: &str,
    pull_requests: &Vec<PullRequest>,
) -> (r: Vec<PullRequest>)
    ensures
        r@ == by_author_spec(author@, pull_requests@),
{
    let a: String = author.to_owned();
    let mut out: Vec<PullRequest> = Vec::new();
    let n: usize = pull_requests.len();
    let mut i: usize = 0;
    while i < n
        invariant
            i <= n,
            out@ == by_author_spec(author@, pull_requests@.take(i as int)),
        decreases n - i,
    {
        let pr = &pull_requests[i];
        let is_match: bool = match &pr.author {
            Some(x) => *x == a,
            None => false,
        };
        if is_match {
            out.push(pr.clone());
        }
        proof {
            let s = pull_requests@;
            assert(s.take(i + 1).drop_last() =~= s.take(i as int));
            assert(s.take(i as int).push(s[i as int]) =~= s.take(i + 1));
            s.take(i as int).lemma_filter_push(
                s[i as int],
                |p: PullRequest| authored_by(p, author@),
            );
        }
        i += 1;
    }
    proof {
        assert(pull_requests@.take(n as int) =~= pull_requests@);
    }
    out
}

/// Returns the subset of pull requests that have terminated.
#[verifier::loop_isolation(false)]
pub fn terminated_pull_requests(
    pull_requests: &Vec<PullRequest>,
    terminal_state: PullRequestTerminatingState,
) -> (r: Vec<PullRequest>)
    ensures
        r@ == terminated_prs_spec(pull_requests@, terminal_state),
{
    let mut out: Vec<PullRequest> = Vec::new();
    let n: usize = pull_requests.len();
    let mut i: usize = 0;
    while i < n
        invariant
            i <= n,
            out@ == terminated_prs_spec(pull_requests@.take(i as int), terminal_state),
        decreases n - i,
    {
        let pr = &pull_requests[i];
        if pull_request_terminated(pr, terminal_state) {
            out.push(pr.clone());
        }
        proof {
            let s = pull_requests@;
            assert(s.take(i + 1).drop_last() =~= s.take(i as int));
            assert(s.take(i as int).push(s[i as int]) =~= s.take(i + 1));
            s.take(i as int).lemma_filter_push(
                s[i as int],
                |p: PullRequest| terminated_spec(p, terminal_state),
            );
        }
        i += 1;
    }
    proof {
        assert(pull_requests@.take(n as int) =~= pull_requests@);
    }
    out
}

pub const SECONDS_PER_DAY: u64 = 60 * 60 * 24;

/// The timestamp that ends an item's life under `terminal_state`.
///
/// Meaningful only for items terminated under that state.
pub open spec fn terminal_timestamp_spec(
    pr: PullRequest,
    terminal_state: PullRequestTerminatingState,
) -> int
    recommends
        terminated_spec(pr, terminal_state),
{
    match terminal_state {
        PullRequestTerminatingState::Merged => match pr.merged_at {
            Some(t) => t as int,
            None => 0,
        },
        PullRequestTerminatingState::Closed => match pr.closed_at {
            Some(t) => t as int,
            None => 0,
        },
    }
}

/// The duration of an item under `terminal_state`, in seconds: the time from
/// its creation until its termination, or until `now` for an item that is
/// still open -- an in-progress age, not a missing value.
pub open spec fn duration_spec(
    pr: PullRequest,
    terminal_state: PullRequestTerminatingState,
    now: int,
) -> int {
    if terminated_spec(pr, terminal_state) {
        terminal_timestamp_spec(pr, terminal_state) - pr.created_at
    } else {
        now - pr.created_at
    }
}

/// Relies on chrono's `Utc::now` and `DateTime::timestamp`: the current time
/// as whole seconds since the Unix epoch, within chrono's documented range
/// of about +/- 262,000 years from the epoch.
#[verifier::external_body]
fn now_timestamp_secs() -> (r: i64)
    ensures
        -MAX_TIMESTAMP_SECS <= r <= MAX_TIMESTAMP_SECS,
{
    chrono::Utc::now().timestamp()
}

/// Returns the length of time this pull request took from its creation until
/// its termination under `terminal_state`, in seconds, taking `now` as the
/// end time for an item that has not terminated.
pub fn pull_request_duration_at(
    pull_request: &PullRequest,
    terminal_state: PullRequestTerminatingState,
    now: i64,
) -> (r: i64)
    requires
        pull_request.wf(),
        -MAX_TIMESTAMP_SECS <= now <= MAX_TIMESTAMP_SECS,
    ensures
        r == duration_spec(*pull_request, terminal_state, now as int),
{
    let end_time: i64 = if pull_request_terminated(pull_request, terminal_state) {
        match terminal_state {
            PullRequestTerminatingState::Merged => match pull_request.merged_at {
                Some(t) => t,
                None => 0,
            },
            PullRequestTerminatingState::Closed => match pull_request.closed_at {
                Some(t) => t,
                None => 0,
            },
        }
    } else {
        now
    };
    end_time - pull_request.created_at
}

/// Returns the length of time this pull request took from its creation until
/// its termination under `terminal_state`, in seconds, reading the clock to
/// end the measurement of an item that has not terminated.
///
/// For an open item the result depends on the clock: all this function
/// promises is that the end time it read lies within the representable
/// calendar range.
pub fn pull_request_duration(
    pull_request: &PullRequest,
    terminal_state: PullRequestTerminatingState,
) -> (r: i64)
    requires
        pull_request.wf(),
    ensures
        terminated_spec(*pull_request, terminal_state) ==> r == duration_spec(
            *pull_request,
            terminal_state,
            0,
        ),
        !terminated_spec(*pull_request, terminal_state) ==> -MAX_TIMESTAMP_SECS <= r
            + pull_request.created_at <= MAX_TIMESTAMP_SECS,
{
    if pull_request_terminated(pull_request, terminal_state) {
        pull_request_duration_at(pull_request, terminal_state, 0)
    } else {
        let now = now_timestamp_secs();
        pull_request_duration_at(pull_request, terminal_state, now)
    }
}

/// Returns the number of pull requests in `pull_requests` authored by
/// `user`. Zero is a valid, meaningful result, distinct from the "no value"
/// the mean and median report on an empty selection.
pub fn total_pull_requests(user: &str, pull_requests: &Vec<PullRequest>) -> (r: usize)
    ensures
        r == by_author_spec(user@, pull_requests@).len(),
{
    pull_requests_by_author(user, pull_requests).len()
}

/// An exact fraction, `num / den`.
///
/// The aggregator applies no rounding: a statistic is returned as the exact
/// ratio it is defined as, and the presentation layer decides how to render
/// it. Every function returning a `Ratio` ensures `den > 0`.
#[derive(Clone, Copy, Debug, PartialEq, Eq)]
pub struct Ratio {
    pub num: i128,
    pub den: u128,
}

/// The sum, in seconds, of the durations of `prs` under `terminal_state`,
/// with `now` ending the measurement of still-open items.
pub open spec fn duration_sum_spec(
    prs: Seq<PullRequest>,
    terminal_state: PullRequestTerminatingState,
    now: int,
) -> int
    decreases prs.len(),
{
    if prs.len() == 0 {
        0
    } else {
        duration_sum_spec(prs.drop_last(), terminal_state, now) + duration_spec(
            prs.last(),
            terminal_state,
            now,
        )
    }
}

/// The sum of the net changes of those items of `prs` that are terminated
/// under `terminal_state` and whose net change is defined.
pub open spec fn net_change_sum_spec(
    prs: Seq<PullRequest>,
    terminal_state: PullRequestTerminatingState,
) -> int
    decreases prs.len(),
{
    if prs.len() == 0 {
        0
    } else {
        let rest = net_change_sum_spec(prs.drop_last(), terminal_state);
        if terminated_spec(prs.last(), terminal_state) {
            match net_change_spec(prs.last()) {
                Some(n) => rest + n,
                None => rest,
            }
        } else {
            rest
        }
    }
}

/// A duration never exceeds twice the timestamp bound in magnitude.
proof fn lemma_duration_bound(
    pr: PullRequest,
    terminal_state: PullRequestTerminatingState,
    now: int,
)
    requires
        pr.wf(),
        -MAX_TIMESTAMP_SECS <= now <= MAX_TIMESTAMP_SECS,
    ensures
        -2 * MAX_TIMESTAMP_SECS <= duration_spec(pr, terminal_state, now) <= 2
            * MAX_TIMESTAMP_SECS,
{
}

/// Returns the mean number of days a pull request of `user` takes to
/// terminate, as the exact ratio of the summed durations to the number of
/// the user's items: still-open items contribute their age as of `now`.
///
/// Returns no value iff `user` has no items at all -- distinct from a
/// computed mean of zero days.
#[verifier::loop_isolation(false)]
pub fn mean_pr_duration(
    user: &str,
    pull_requests: &Vec<PullRequest>,
    terminal_state: PullRequestTerminatingState,
    now: i64,
) -> (r: Option<Ratio>)
    requires
        forall|i: int| 0 <= i < pull_requests@.len() ==> (#[trigger] pull_requests@[i]).wf(),
        -MAX_TIMESTAMP_SECS <= now <= MAX_TIMESTAMP_SECS,
    ensures
        (r is Some) == (by_author_spec(user@, pull_requests@).len() > 0),
        r matches Some(q) ==> ({
            let users_prs = by_author_spec(user@, pull_requests@);
            &&& q.num as int == duration_sum_spec(users_prs, terminal_state, now as int)
            &&& q.den as int == users_prs.len() * (SECONDS_PER_DAY as int)
        }),
{
    let users_prs: Vec<PullRequest> = pull_requests_by_author(user, pull_requests);
    proof {
        lemma_by_author_preserves_wf(user@, pull_requests@);
    }
    if users_prs.len() == 0 {
        None
    } else {
        let total: usize = users_prs.len();
        let mut sum: i128 = 0;
        let mut i: usize = 0;
        while i < total
            invariant
                i <= total,
                sum as int == duration_sum_spec(
                    users_prs@.take(i as int),
                    terminal_state,
                    now as int,
                ),
                -(i as int) * 18_000_000_000_000 <= sum as int <= (i as int)
                    * 18_000_000_000_000,
            decreases total - i,
        {
            let d: i64 = pull_request_duration_at(&users_prs[i], terminal_state, now);
            proof {
                lemma_duration_bound(users_prs@[i as int], terminal_state, now as int);
                let s = users_prs@;
                assert(s.take(i + 1).drop_last() =~= s.take(i as int));
                assert(s.take(i + 1).last() == s[i as int]);
                assert(-18_000_000_000_000 <= d as int <= 18_000_000_000_000);
                assert(i as int <= 0xFFFF_FFFF_FFFF_FFFF);
            }
            sum = sum + d as i128;
            i += 1;
        }
        proof {
            assert(users_prs@.take(total as int) =~= users_prs@);
            assert(total as int <= 0xFFFF_FFFF_FFFF_FFFF);
            assert(SECONDS_PER_DAY as int == 86400);
        }
        let den: u128 = (total as u128) * 86400;
        Some(Ratio { num: sum, den })
    }
}

/// The order durations are sorted in before taking the median: ascending
/// seconds.
pub open spec fn duration_order() -> spec_fn(i64, i64) -> bool {
    |a: i64, b: i64| a <= b
}

/// The durations, in seconds, of `prs` under `terminal_state`, in item
/// order, with `now` ending the measurement of still-open items.
pub open spec fn durations_spec(
    prs: Seq<PullRequest>,
    terminal_state: PullRequestTerminatingState,
    now: int,
) -> Seq<i64> {
    prs.map_values(|pr: PullRequest| duration_spec(pr, terminal_state, now) as i64)
}

/// The same durations, sorted ascending.
pub open spec fn sorted_durations_spec(
    prs: Seq<PullRequest>,
    terminal_state: PullRequestTerminatingState,
    now: int,
) -> Seq<i64> {
    durations_spec(prs, terminal_state, now).sort_by(duration_order())
}

/// Ascending order on seconds is a total order.
proof fn lemma_duration_order_total()
    ensures
        total_ordering(duration_order()),
{
    let leq = duration_order();
    assert(vstd::relations::reflexive(leq)) by {
        assert(forall|x: i64| #[trigger] leq(x, x));
    }
    assert(vstd::relations::antisymmetric(leq)) by {
        assert(forall|x: i64, y: i64| #[trigger] leq(x, y) && #[trigger] leq(y, x) ==> x == y);
    }
    assert(vstd::relations::transitive(leq)) by {
        assert(forall|x: i64, y: i64, z: i64|
            #[trigger] leq(x, y) && #[trigger] leq(y, z) ==> leq(x, z));
    }
    assert(vstd::relations::strongly_connected(leq)) by {
        assert(forall|x: i64, y: i64| #[trigger] leq(x, y) || #[trigger] leq(y, x));
    }
}

/// Inserting into a sequence inserts into the multiset of its elements.
proof fn lemma_insert_to_multiset(s: Seq<i64>, i: int, x: i64)
    requires
        0 <= i <= s.len(),
    ensures
        s.insert(i, x).to_multiset() == s.to_multiset().insert(x),
{
    broadcast use vstd::seq_lib::group_to_multiset_ensures;

    let a = s.subrange(0, i);
    let b = s.subrange(i, s.len() as int);
    assert(s.insert(i, x) =~= a.push(x) + b);
    vstd::seq_lib::lemma_multiset_commutative(a.push(x), b);
    assert(s =~= a + b);
    vstd::seq_lib::lemma_multiset_commutative(a, b);
    assert(s.insert(i, x).to_multiset() =~= s.to_multiset().insert(x));
}

/// Inserts `x` into the sorted vector `out`, keeping it sorted.
#[verifier::loop_isolation(false)]
fn insert_sorted(out: &mut Vec<i64>, x: i64)
    requires
        sorted_by(old(out)@, duration_order()),
    ensures
        sorted_by(final(out)@, duration_order()),
        final(out)@.to_multiset() == old(out)@.to_multiset().insert(x),
        final(out)@.len() == old(out)@.len() + 1,
{
    let n: usize = out.len();
    let mut idx: usize = 0;
    while idx < n && out[idx] <= x
        invariant
            idx <= n,
            forall|k: int| 0 <= k < idx ==> out@[k] <= x,
        decreases n - idx,
    {
        idx += 1;
    }
    let ghost s0 = out@;
    proof {
        lemma_insert_to_multiset(s0, idx as int, x);
    }
    out.insert(idx, x);
    proof {
        s0.insert_ensures(idx as int, x);
        let s1 = out@;
        let leq = duration_order();
        assert forall|a: int, b: int| 0 <= a < b < s1.len() implies #[trigger] leq(
            s1[a],
            s1[b],
        ) by {
            if b < idx {
                assert(leq(s0[a], s0[b]));
            } else if b == idx {
                assert(s0[a] <= x);
            } else if a < idx {
                if a < b - 1 {
                    assert(leq(s0[a], s0[b - 1]));
                }
            } else if a == idx {
                assert(x < s0[idx as int]);
                if idx < b - 1 {
                    assert(leq(s0[idx as int], s0[b - 1]));
                }
            } else {
                assert(leq(s0[a - 1], s0[b - 1]));
            }
        }
        assert(sorted_by(s1, leq));
    }
}

/// Returns the elements of `ds` in ascending order.
#[verifier::loop_isolation(false)]
fn sort_durations(ds: &Vec<i64>) -> (r: Vec<i64>)
    ensures
        sorted_by(r@, duration_order()),
        r@.to_multiset() == ds@.to_multiset(),
{
    broadcast use vstd::seq_lib::group_to_multiset_ensures;

    let mut out: Vec<i64> = Vec::new();
    let n: usize = ds.len();
    let mut i: usize = 0;
    proof {
        assert(ds@.take(0) =~= Seq::<i64>::empty());
        assert(out@.to_multiset() =~= ds@.take(0).to_multiset());
    }
    while i < n
        invariant
            i <= n,
            sorted_by(out@, duration_order()),
            out@.to_multiset() == ds@.take(i as int).to_multiset(),
        decreases n - i,
    {
        let x: i64 = ds[i];
        insert_sorted(&mut out, x);
        proof {
            assert(ds@.take(i as int).push(x) =~= ds@.take(i + 1));
            assert(out@.to_multiset() =~= ds@.take(i + 1).to_multiset());
        }
        i += 1;
    }
    proof {
        assert(ds@.take(n as int) =~= ds@);
    }
    out
}

/// Returns the median number of days a pull request of `user` takes to
/// terminate, as an exact ratio of seconds to seconds-per-day: the durations
/// of all the user's items (still-open ones aged as of `now`) are sorted
/// ascending; an odd-sized set yields the element at the exact middle index,
/// an even-sized set the average of the two elements straddling the middle,
/// both 0-based.
///
/// Returns no value iff `user` has no items at all.
#[verifier::loop_isolation(false)]
pub fn median_pr_duration(
    user: &str,
    pull_requests: &Vec<PullRequest>,
    terminal_state: PullRequestTerminatingState,
    now: i64,
) -> (r: Option<Ratio>)
    requires
        forall|i: int| 0 <= i < pull_requests@.len() ==> (#[trigger] pull_requests@[i]).wf(),
        -MAX_TIMESTAMP_SECS <= now <= MAX_TIMESTAMP_SECS,
    ensures
        (r is Some) == (by_author_spec(user@, pull_requests@).len() > 0),
        r matches Some(q) ==> ({
            let u = by_author_spec(user@, pull_requests@);
            let s = sorted_durations_spec(u, terminal_state, now as int);
            let n = u.len() as int;
            &&& s.len() == n
            &&& n % 2 == 1 ==> q.num as int == s[n / 2] as int && q.den == 86400
            &&& n % 2 == 0 ==> q.num as int == s[n / 2 - 1] as int + s[n / 2] as int && q.den
                == 172800
        }),
{
    broadcast use vstd::seq_lib::group_to_multiset_ensures;

    let users_prs: Vec<PullRequest> = pull_requests_by_author(user, pull_requests);
    proof {
        lemma_by_author_preserves_wf(user@, pull_requests@);
    }
    if users_prs.len() == 0 {
        return None;
    }
    let total: usize = users_prs.len();
    let mut ds: Vec<i64> = Vec::new();
    let mut i: usize = 0;
    while i < total
        invariant
            i <= total,
            ds@.len() == i,
            forall|k: int|
                0 <= k < i ==> #[trigger] ds@[k] as int == duration_spec(
                    users_prs@[k],
                    terminal_state,
                    now as int,
                ),
        decreases total - i,
    {
        let d: i64 = pull_request_duration_at(&users_prs[i], terminal_state, now);
        ds.push(d);
        i += 1;
    }
    let ghost dspec = durations_spec(users_prs@, terminal_state, now as int);
    proof {
        assert forall|k: int| 0 <= k < total implies ds@[k] == dspec[k] by {
            lemma_duration_bound(users_prs@[k], terminal_state, now as int);
        }
        assert(ds@ =~= dspec);
    }
    let sorted_ds: Vec<i64> = sort_durations(&ds);
    proof {
        lemma_duration_order_total();
        dspec.lemma_sort_by_ensures(duration_order());
        vstd::seq_lib::lemma_sorted_unique(
            sorted_ds@,
            dspec.sort_by(duration_order()),
            duration_order(),
        );
        assert(sorted_ds@ == sorted_durations_spec(users_prs@, terminal_state, now as int));
    }
    let n: usize = sorted_ds.len();
    proof {
        assert(sorted_ds@.to_multiset().len() == sorted_ds@.len());
        assert(ds@.to_multiset().len() == ds@.len());
        assert(n == total);
    }
    if n % 2 == 1 {
        let m: i64 = sorted_ds[n / 2];
        Some(Ratio { num: m as i128, den: 86400 })
    } else {
        let lo: i64 = sorted_ds[n / 2 - 1];
        let hi: i64 = sorted_ds[n / 2];
        Some(Ratio { num: lo as i128 + hi as i128, den: 172800 })
    }
}

/// Returns the mean net change of the subset of `pull_requests` that are
/// authored by `user`: the net changes of the user's terminated,
/// stats-carrying items are summed, and the sum is divided by the total
/// number of the user's items -- terminated or not, stats or none. Items
/// lacking a computable net change are excluded from the numerator but still
/// counted in the denominator.
///
/// Returns no value iff `user` has no items at all.
#[verifier::loop_isolation(false)]
pub fn mean_net_change(
    user: &str,
    pull_requests: &Vec<PullRequest>,
    terminal_state: PullRequestTerminatingState,
) -> (r: Option<Ratio>)
    ensures
        (r is Some) == (by_author_spec(user@, pull_requests@).len() > 0),
        r matches Some(q) ==> ({
            let users_prs = by_author_spec(user@, pull_requests@);
            &&& q.num as int == net_change_sum_spec(users_prs, terminal_state)
            &&& q.den as int == users_prs.len()
        }),
{
    let users_prs: Vec<PullRequest> = pull_requests_by_author(user, pull_requests);
    if users_prs.len() == 0 {
        None
    } else {
        let total: usize = users_prs.len();
        let mut sum: i128 = 0;
        let mut i: usize = 0;
        while i < total
            invariant
                i <= total,
                sum as int == net_change_sum_spec(users_prs@.take(i as int), terminal_state),
                -0x1_0000_0000 * (i as int) <= sum as int <= 0x1_0000_0000 * (i as int),
            decreases total - i,
        {
            let pr = &users_prs[i];
            if pull_request_terminated(pr, terminal_state) {
                match pull_request_net_change(pr) {
                    Some(n) => {
                        sum = sum + n as i128;
                    },
                    None => (),
                }
            }
            proof {
                let s = users_prs@;
                assert(s.take(i + 1).drop_last() =~= s.take(i as int));
                assert(s.take(i + 1).last() == s[i as int]);
            }
            i += 1;
        }
        proof {
            assert(users_prs@.take(total as int) =~= users_prs@);
        }
        Some(Ratio { num: sum, den: total as u128 })
    }
}

} // verus!
