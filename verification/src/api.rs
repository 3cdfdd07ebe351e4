//! The pull-request record and the paginated retrieval of the full dataset.
//!
//! The actual HTTP traffic is the surrounding program's business. This
//! module holds the item record as plain values, and the traversal logic of
//! an exhaustive, rate-limit-aware fetch: which page to ask for next, when
//! to pay the inter-page delay, and when the dataset is complete.

use vstd::prelude::*;
use vstd::pervasive::arbitrary;
use crate::error::GhProdError;

verus! {

pub const MILLISECONDS_PER_SECOND: u64 = 1000;

pub const SECONDS_PER_MINUTE: u64 = 60;

/// Number of milliseconds to wait after each page that announces a further
/// page, before requesting it.
///
/// The rate limit for unauthenticated requests is 60 requests per hour, one
/// request per minute on average; this default stays under it. Callers with
/// an authenticated, higher-limit client may pass a lower delay.
pub const SLEEP_DURATION_MILLIS: u64 = MILLISECONDS_PER_SECOND * SECONDS_PER_MINUTE;

/// Maximum number of items to receive per page; 100 is the most the API
/// allows.
pub const MAX_NUM_PER_PAGE: u8 = 100;

/// Timestamps are seconds since the Unix epoch, within the range the
/// calendar types of the surrounding program can represent (several hundred
/// thousand years either way). Keeping them bounded keeps every duration and
/// every sum of durations representable.
pub const MAX_TIMESTAMP_SECS: i64 = 9000000000000;

/// One pull request, an immutable record once fetched.
///
/// Every attribute except `created_at` is optional: the author is absent if
/// the originating account was deleted, each terminal timestamp is present
/// only if that event occurred, and the line counts are absent when the API
/// omits detailed stats for the item.
#[derive(Debug, PartialEq, Eq)]
pub struct PullRequest {
    /// The author's identifier, absent if the account was deleted.
    pub author: Option<String>,
    /// When the item was created, in seconds since the Unix epoch.
    pub created_at: i64,
    /// When the item was merged, if it was.
    pub merged_at: Option<i64>,
    /// When the item was closed, if it was. Merging also closes, so a merged
    /// item usually carries both timestamps.
    pub closed_at: Option<i64>,
    /// Lines added, when the API reported detailed stats.
    pub additions: Option<u32>,
    /// Lines deleted, when the API reported detailed stats.
    pub deletions: Option<u32>,
}

impl PullRequest {
    /// Every timestamp of the record lies within the representable calendar
    /// range.
    pub open spec fn wf(self) -> bool {
        &&& -MAX_TIMESTAMP_SECS <= self.created_at <= MAX_TIMESTAMP_SECS
        &&& match self.merged_at {
            Some(t) => -MAX_TIMESTAMP_SECS <= t <= MAX_TIMESTAMP_SECS,
            None => true,
        }
        &&& match self.closed_at {
            Some(t) => -MAX_TIMESTAMP_SECS <= t <= MAX_TIMESTAMP_SECS,
            None => true,
        }
    }
}

impl Clone for PullRequest {
    fn clone(&self) -> (r: Self)
        ensures
            r == *self,
    {
        PullRequest {
            author: match &self.author {
                Some(a) => Some(a.clone()),
                None => None,
            },
            created_at: self.created_at,
            merged_at: self.merged_at,
            closed_at: self.closed_at,
            additions: self.additions,
            deletions: self.deletions,
        }
    }
}

/// The net change of an item: additions minus deletions when both are known;
/// additions alone, or the negation of deletions alone, when only one is
/// known; no value when neither is known.
pub open spec fn net_change_spec(pr: PullRequest) -> Option<int> {
    match (pr.additions, pr.deletions) {
        (Some(a), Some(d)) => Some(a - d),
        (Some(a), None) => Some(a as int),
        (None, Some(d)) => Some(0 - d as int),
        (None, None) => None,
    }
}

/// What the driver of a fetch should do next.
#[derive(Clone, Copy, Debug, PartialEq, Eq)]
pub enum FetchAction {
    /// Wait this many milliseconds, then request the next page by its
    /// cursor.
    Delay { millis: u64 },
    /// No further page was announced: the dataset is complete.
    Done,
}

/// One response of the paginated source, as the traversal sees it: either a
/// page, or a transport/API failure.
#[derive(Debug)]
pub enum PageResponse {
    /// A page: its items, and whether a next-page cursor accompanied it. A
    /// page may be empty and still announce a next page; only the absence of
    /// a cursor means "done".
    Page { items: Vec<PullRequest>, has_next: bool },
    /// The transport or the API failed.
    ApiError(GhProdError),
}

/// The traversal's progress: the dataset accumulated so far, and the page
/// and delay counts incurred.
///
/// The driver requests pages and waits; this state decides. Feed each
/// received page to [`FetchState::on_page`] and perform the action it
/// returns, until the state reports the dataset complete.
#[derive(Debug)]
pub struct FetchState {
    dataset: Vec<PullRequest>,
    num_pages: usize,
    num_delays: usize,
    delay_millis: u64,
    done: bool,
}

impl FetchState {
    /// The items received so far, in page order and within-page order.
    pub closed spec fn spec_dataset(&self) -> Seq<PullRequest> {
        self.dataset@
    }

    /// How many pages have been received.
    pub closed spec fn spec_pages(&self) -> int {
        self.num_pages as int
    }

    /// How many inter-page delays the traversal has demanded.
    pub closed spec fn spec_delays(&self) -> int {
        self.num_delays as int
    }

    /// The configured inter-page delay.
    pub closed spec fn spec_delay_millis(&self) -> u64 {
        self.delay_millis
    }

    /// Whether a page without a next-page cursor has been seen.
    pub closed spec fn spec_done(&self) -> bool {
        self.done
    }

    /// A traversal about to request the first page. `delay_millis` is the
    /// inter-page delay the traversal will demand after every page that
    /// announces a further one; [`SLEEP_DURATION_MILLIS`] suits an
    /// unauthenticated client.
    pub fn new(delay_millis: u64) -> (s: Self)
        ensures
            s.spec_dataset() == Seq::<PullRequest>::empty(),
            s.spec_pages() == 0,
            s.spec_delays() == 0,
            s.spec_delay_millis() == delay_millis,
            !s.spec_done(),
    {
        FetchState {
            dataset: Vec::new(),
            num_pages: 0,
            num_delays: 0,
            delay_millis,
            done: false,
        }
    }

    /// Takes one received page: appends its items, in the order received, to
    /// the accumulating dataset, and decides what to do next. A page that
    /// announces a further page demands one unconditional delay before the
    /// next request, empty or not; a page without a cursor completes the
    /// dataset.
    pub fn on_page(&mut self, items: Vec<PullRequest>, has_next: bool) -> (a: FetchAction)
        requires
            !old(self).spec_done(),
            old(self).spec_pages() < usize::MAX,
            old(self).spec_delays() < usize::MAX,
        ensures
            final(self).spec_dataset() == old(self).spec_dataset() + items@,
            final(self).spec_pages() == old(self).spec_pages() + 1,
            final(self).spec_delay_millis() == old(self).spec_delay_millis(),
            final(self).spec_done() == !has_next,
            has_next ==> final(self).spec_delays() == old(self).spec_delays() + 1 && a == (
            FetchAction::Delay { millis: old(self).spec_delay_millis() }),
            !has_next ==> final(self).spec_delays() == old(self).spec_delays() && a
                == FetchAction::Done,
    {
        let mut items = items;
        self.dataset.append(&mut items);
        self.num_pages = self.num_pages + 1;
        if has_next {
            self.num_delays = self.num_delays + 1;
            FetchAction::Delay { millis: self.delay_millis }
        } else {
            self.done = true;
            FetchAction::Done
        }
    }

    /// Whether the dataset is complete.
    pub fn is_done(&self) -> (b: bool)
        ensures
            b == self.spec_done(),
    {
        self.done
    }

    /// How many pages have been received.
    pub fn num_pages(&self) -> (n: usize)
        ensures
            n == self.spec_pages(),
    {
        self.num_pages
    }

    /// How many inter-page delays the traversal has demanded.
    pub fn num_delays(&self) -> (n: usize)
        ensures
            n == self.spec_delays(),
    {
        self.num_delays
    }

    /// Hands the accumulated dataset out.
    pub fn into_dataset(self) -> (d: Vec<PullRequest>)
        ensures
            d@ == self.spec_dataset(),
    {
        self.dataset
    }
}

/// Whether a scripted traversal over `rs` ends at all: some response, before
/// the script runs out, is either an error or a page without a next-page
/// cursor.
pub open spec fn fetch_terminates(rs: Seq<PageResponse>) -> bool
    decreases rs.len(),
{
    if rs.len() == 0 {
        false
    } else {
        match rs[0] {
            PageResponse::ApiError(_) => true,
            PageResponse::Page { items: _, has_next } => !has_next || fetch_terminates(
                rs.drop_first(),
            ),
        }
    }
}

/// Whether the traversal reaches a page without a cursor before any error.
pub open spec fn fetch_succeeds(rs: Seq<PageResponse>) -> bool
    decreases rs.len(),
{
    if rs.len() == 0 {
        false
    } else {
        match rs[0] {
            PageResponse::ApiError(_) => false,
            PageResponse::Page { items: _, has_next } => !has_next || fetch_succeeds(
                rs.drop_first(),
            ),
        }
    }
}

/// The full dataset of a successful traversal: every consumed page's items,
/// in page order and within-page order.
pub open spec fn fetch_items(rs: Seq<PageResponse>) -> Seq<PullRequest>
    decreases rs.len(),
{
    if rs.len() == 0 {
        Seq::empty()
    } else {
        match rs[0] {
            PageResponse::ApiError(_) => Seq::empty(),
            PageResponse::Page { items, has_next } => if !has_next {
                items@
            } else {
                items@ + fetch_items(rs.drop_first())
            },
        }
    }
}

/// How many pages a successful traversal consumes, the terminal page
/// included.
pub open spec fn fetch_pages(rs: Seq<PageResponse>) -> int
    decreases rs.len(),
{
    if rs.len() == 0 {
        0
    } else {
        match rs[0] {
            PageResponse::ApiError(_) => 0,
            PageResponse::Page { items: _, has_next } => if !has_next {
                1
            } else {
                1 + fetch_pages(rs.drop_first())
            },
        }
    }
}

/// How many inter-page delays a successful traversal pays: one after every
/// page that announces a further one, none after the terminal page.
pub open spec fn fetch_delays(rs: Seq<PageResponse>) -> int
    decreases rs.len(),
{
    if rs.len() == 0 {
        0
    } else {
        match rs[0] {
            PageResponse::ApiError(_) => 0,
            PageResponse::Page { items: _, has_next } => if !has_next {
                0
            } else {
                1 + fetch_delays(rs.drop_first())
            },
        }
    }
}

/// The error a failing traversal surfaces: the first error in the script.
pub open spec fn fetch_error(rs: Seq<PageResponse>) -> GhProdError
    decreases rs.len(),
{
    if rs.len() == 0 {
        arbitrary()
    } else {
        match rs[0] {
            PageResponse::ApiError(e) => e,
            PageResponse::Page { items: _, has_next: _ } => fetch_error(rs.drop_first()),
        }
    }
}

/// The dataset of a completed fetch, with the page and delay counts the
/// traversal incurred, for the caller's informational logging.
#[derive(Debug)]
pub struct FetchReport {
    pub items: Vec<PullRequest>,
    pub num_pages: usize,
    pub num_delays: usize,
}

/// Returns all pull requests that the source's responses carry.
///
/// `responses` holds, in order, what the source answers to the first request
/// and to each follow-up request. The traversal appends each page's items in
/// the order received and follows the "next page" cursor until a page
/// arrives without one; after every page that announces a further page --
/// the final one before the terminating check included, and an empty page
/// just as well -- one unconditional inter-page delay is recorded. Any error
/// aborts the entire fetch: the error is surfaced and no partial dataset is
/// returned, however many items were already buffered.
///
/// The surrounding program performs the actual requests and waits by
/// driving [`FetchState`] the same way; this function is that traversal over
/// a source whose responses are already at hand.
#[verifier::loop_isolation(false)]
pub fn fetch_all_pull_requests(responses: Vec<PageResponse>, delay_millis: u64) -> (r: Result<
    FetchReport,
    GhProdError,
>)
    requires
        fetch_terminates(responses@),
    ensures
        (r is Ok) == fetch_succeeds(responses@),
        r matches Ok(rep) ==> rep.items@ == fetch_items(responses@) && rep.num_pages
            == fetch_pages(responses@) && rep.num_delays == fetch_delays(responses@),
        r matches Err(e) ==> e == fetch_error(responses@),
{
    let ghost orig = responses@;
    let mut rem = responses;
    let mut st = FetchState::new(delay_millis);
    let mut done: bool = false;
    let n0: usize = rem.len();
    proof {
        assert(orig.len() == n0);
    }
    while !done
        invariant
            orig.len() <= usize::MAX,
            !done ==> fetch_terminates(rem@),
            !done ==> !st.spec_done(),
            !done ==> st.spec_pages() == orig.len() - rem@.len(),
            st.spec_delays() <= st.spec_pages(),
            !done ==> fetch_succeeds(orig) == fetch_succeeds(rem@),
            !done ==> (fetch_succeeds(orig) ==> fetch_items(orig) == st.spec_dataset()
                + fetch_items(rem@)),
            !done ==> (fetch_succeeds(orig) ==> fetch_pages(orig) == st.spec_pages()
                + fetch_pages(rem@)),
            !done ==> (fetch_succeeds(orig) ==> fetch_delays(orig) == st.spec_delays()
                + fetch_delays(rem@)),
            !done ==> (!fetch_succeeds(orig) ==> fetch_error(orig) == fetch_error(rem@)),
            done ==> fetch_succeeds(orig) && st.spec_dataset() == fetch_items(orig)
                && st.spec_pages() == fetch_pages(orig) && st.spec_delays() == fetch_delays(
                orig,
            ),
        decreases rem@.len(),
    {
        let ghost prev = rem@;
        let resp = rem.remove(0);
        proof {
            assert(prev.remove(0) =~= prev.drop_first());
        }
        match resp {
            PageResponse::ApiError(e) => {
                return Err(e);
            },
            PageResponse::Page { items, has_next } => {
                let ghost items_view = items@;
                let _action = st.on_page(items, has_next);
                if !has_next {
                    done = true;
                }
                proof {
                    if fetch_succeeds(orig) {
                        if has_next {
                            assert(fetch_items(prev) =~= items_view + fetch_items(prev.drop_first()));
                            assert(st.spec_dataset() + fetch_items(rem@) =~= fetch_items(orig));
                        } else {
                            assert(fetch_items(prev) =~= items_view);
                            assert(st.spec_dataset() =~= fetch_items(orig));
                        }
                    }
                }
            },
        }
    }
    let num_pages: usize = st.num_pages();
    let num_delays: usize = st.num_delays();
    let items: Vec<PullRequest> = st.into_dataset();
    Ok(FetchReport { items, num_pages, num_delays })
}

/// Returns the net change of `pull_request`: the number of lines added minus
/// the number of lines removed, as far as both are known, and no value when
/// neither count is.
pub fn pull_request_net_change(pull_request: &PullRequest) -> (r: Option<i64>)
    ensures
        match net_change_spec(*pull_request) {
            Some(n) => r matches Some(v) && v == n,
            None => r is None,
        },
{
    match (pull_request.additions, pull_request.deletions) {
        (Some(a), Some(d)) => Some(a as i64 - d as i64),
        (Some(a), None) => Some(a as i64),
        (None, Some(d)) => Some(0 - d as i64),
        (None, None) => None,
    }
}

} // verus!
