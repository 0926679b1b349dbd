use vstd::prelude::*;

use crate::error::ApiError;
use crate::query::{build_url, url_of, Category, Filters};

verus! {

/// What became of one request, as the caller that performed it observed it.
/// `B` is the decoded body: a page of records, or a single record.
pub enum Reply<B> {
    /// Status 200 and a body of the expected shape.
    Body(B),
    /// The provider answered with this status other than 200.
    Status(u16),
    /// Status 200, but the body did not decode.
    Malformed,
    /// The request failed below HTTP.
    Unreachable,
    /// The request ran out of time.
    TimedOut,
    /// The caller cancelled while the request was pending.
    Cancelled,
}

/// The error that a reply without a usable body stands for.
pub open spec fn failure_of<B>(reply: Reply<B>) -> ApiError {
    match reply {
        Reply::Status(s) => ApiError::Http(s),
        Reply::Unreachable => ApiError::Transport,
        Reply::TimedOut => ApiError::Timeout,
        Reply::Cancelled => ApiError::Cancelled,
        _ => ApiError::Decode,
    }
}

/// The error of a reply without a usable body.
pub fn reply_error<B>(reply: &Reply<B>) -> (r: ApiError)
    requires
        !(reply is Body),
    ensures
        r == failure_of(*reply),
{
    match reply {
        Reply::Status(s) => ApiError::Http(*s),
        Reply::Unreachable => ApiError::Transport,
        Reply::TimedOut => ApiError::Timeout,
        Reply::Cancelled => ApiError::Cancelled,
        _ => ApiError::Decode,
    }
}

/// The one-shot retrieval: the record of a usable reply, or the reply's error.
pub fn settle_single<B>(reply: Reply<B>) -> (r: Result<B, ApiError>)
    ensures
        reply matches Reply::Body(b) ==> r == Ok::<B, ApiError>(b),
        !(reply is Body) ==> r == Err::<B, ApiError>(failure_of(reply)),
{
    match reply {
        Reply::Body(b) => Ok(b),
        other => Err(reply_error(&other)),
    }
}

/// The state of a paginated retrieval, as mathematical values.
pub struct FetchView<R> {
    pub category: Category,
    pub sport_id: Seq<char>,
    pub token: Seq<char>,
    pub filters: Filters,
    /// The page that the next request asks for.
    pub page: nat,
    /// The most requests the retrieval may make.
    pub max_pages: nat,
    /// The records of the pages received so far, in order.
    pub records: Seq<R>,
}

impl<R> FetchView<R> {
    /// The address of the next request.
    pub open spec fn url(self) -> Seq<char> {
        url_of(self.category, self.sport_id, self.token, self.filters, self.page)
    }
}

/// Where a retrieval stands after a reply.
pub enum Outcome<R> {
    /// Another request is due, from this state.
    Continue(FetchView<R>),
    /// The provider signalled the end; these are all the records.
    Done(Seq<R>),
    /// The retrieval failed; nothing received is returned.
    Failed(ApiError),
}

/// The decision on one reply: an empty page ends the retrieval, a non-empty one
/// is kept and the next page asked for, unless the bound on requests is reached.
pub open spec fn step_spec<R>(s: FetchView<R>, reply: Reply<Vec<R>>) -> Outcome<R> {
    match reply {
        Reply::Body(page) => {
            if page@.len() == 0 {
                Outcome::Done(s.records)
            } else if s.page >= s.max_pages {
                Outcome::Failed(ApiError::PageLimitExceeded)
            } else {
                Outcome::Continue(FetchView { page: s.page + 1, records: s.records + page@, ..s })
            }
        },
        _ => Outcome::Failed(failure_of(reply)),
    }
}

/// A whole retrieval from state `s` against a provider that answers each
/// address with `upstream`: the final outcome and the number of requests made.
pub open spec fn run<R>(s: FetchView<R>, upstream: spec_fn(Seq<char>) -> Reply<Vec<R>>) -> (Outcome<R>, nat)
    decreases s.max_pages - s.page when s.page <= s.max_pages
{
    match step_spec(s, upstream(s.url())) {
        Outcome::Continue(next) => {
            let (o, n) = run(next, upstream);
            (o, n + 1)
        },
        o => (o, 1),
    }
}

/// The state in which a retrieval starts.
pub open spec fn start_view<R>(category: Category, sport_id: Seq<char>, token: Seq<char>, filters: Filters, max_pages: nat) -> FetchView<R> {
    FetchView { category, sport_id, token, filters, page: 1, max_pages, records: Seq::empty() }
}

/// A whole retrieval from its start; a bound of zero allows no request at all.
pub open spec fn fetch_spec<R>(
    category: Category,
    sport_id: Seq<char>,
    token: Seq<char>,
    filters: Filters,
    max_pages: nat,
    upstream: spec_fn(Seq<char>) -> Reply<Vec<R>>,
) -> (Outcome<R>, nat) {
    if max_pages == 0 {
        (Outcome::Failed(ApiError::PageLimitExceeded), 0)
    } else {
        run(start_view(category, sport_id, token, filters, max_pages), upstream)
    }
}

/// A paginated retrieval in progress. The caller asks for `url`, performs the
/// request, and hands what came back to `on_reply`.
pub struct PageFetch<R> {
    pub category: Category,
    pub sport_id: String,
    pub token: String,
    pub filters: Filters,
    pub page: u32,
    pub max_pages: u32,
    pub records: Vec<R>,
}

/// What a retrieval asks of its caller next.
pub enum Step<R> {
    /// Request `url()` of this state and hand the reply to `on_reply`.
    Request(PageFetch<R>),
    /// All records, in provider order.
    Done(Vec<R>),
    /// The retrieval failed; nothing received is returned.
    Failed(ApiError),
}

impl<R> Step<R> {
    /// The step as mathematical values.
    pub open spec fn outcome(self) -> Outcome<R> {
        match self {
            Step::Request(f) => Outcome::Continue(f.view()),
            Step::Done(v) => Outcome::Done(v@),
            Step::Failed(e) => Outcome::Failed(e),
        }
    }

    /// A pending request comes from a well-formed state.
    pub open spec fn wf(self) -> bool {
        self matches Step::Request(f) ==> f.wf()
    }
}

impl<R> PageFetch<R> {
    pub open spec fn view(&self) -> FetchView<R> {
        FetchView {
            category: self.category,
            sport_id: self.sport_id@,
            token: self.token@,
            filters: self.filters,
            page: self.page as nat,
            max_pages: self.max_pages as nat,
            records: self.records@,
        }
    }

    /// A paginated category, a real date filter, and a page within the bound.
    pub open spec fn wf(&self) -> bool {
        &&& !(self.category is InPlay)
        &&& self.filters.wf()
        &&& 1 <= self.page <= self.max_pages
    }

    /// Starts a retrieval of the `category` listing of `sport_id`, making at most
    /// `max_pages` requests. With a bound of zero it fails at once.
    pub fn start(category: Category, sport_id: String, token: String, filters: Filters, max_pages: u32) -> (r: Step<R>)
        requires
            !(category is InPlay),
            filters.wf(),
        ensures
            r.wf(),
            max_pages == 0 ==> r.outcome() == Outcome::<R>::Failed(ApiError::PageLimitExceeded),
            max_pages > 0 ==> r.outcome() == Outcome::Continue(
                start_view::<R>(category, sport_id@, token@, filters, max_pages as nat),
            ),
    {
        if max_pages == 0 {
            return Step::Failed(ApiError::PageLimitExceeded);
        }
        let f = PageFetch { category, sport_id, token, filters, page: 1, max_pages, records: Vec::new() };
        assert(f.view().records =~= Seq::<R>::empty());
        Step::Request(f)
    }

    /// The address of the next request.
    pub fn url(&self) -> (r: String)
        requires
            self.wf(),
        ensures
            r@ == self.view().url(),
    {
        build_url(self.category, self.sport_id.as_str(), self.token.as_str(), &self.filters, self.page)
    }

    /// Takes the reply to the request for `url()` and decides what comes next.
    pub fn on_reply(self, reply: Reply<Vec<R>>) -> (r: Step<R>)
        requires
            self.wf(),
        ensures
            r.wf(),
            r.outcome() == step_spec(self.view(), reply),
    {
        match reply {
            Reply::Body(mut page) => {
                if page.len() == 0 {
                    Step::Done(self.records)
                } else if self.page >= self.max_pages {
                    Step::Failed(ApiError::PageLimitExceeded)
                } else {
                    let mut records = self.records;
                    let ghost old_records = records@;
                    let ghost got = page@;
                    records.append(&mut page);
                    let next = PageFetch {
                        category: self.category,
                        sport_id: self.sport_id,
                        token: self.token,
                        filters: self.filters,
                        page: self.page + 1,
                        max_pages: self.max_pages,
                        records,
                    };
                    assert(next.view().records =~= old_records + got);
                    Step::Request(next)
                }
            },
            other => Step::Failed(reply_error(&other)),
        }
    }
}

/// From any page on, a retrieval against a provider whose pages end after `pages`.
proof fn lemma_run_through_pages<R>(s: FetchView<R>, upstream: spec_fn(Seq<char>) -> Reply<Vec<R>>, pages: Seq<Seq<R>>)
    requires
        1 <= s.page <= pages.len() + 1 <= s.max_pages,
        forall|i: int| 0 <= i < pages.len() ==> {
            let reply = upstream(url_of(s.category, s.sport_id, s.token, s.filters, (i + 1) as nat));
            &&& (#[trigger] pages[i]).len() > 0
            &&& reply is Body
            &&& reply->Body_0@ == pages[i]
        },
        upstream(url_of(s.category, s.sport_id, s.token, s.filters, pages.len() + 1)) is Body,
        upstream(url_of(s.category, s.sport_id, s.token, s.filters, pages.len() + 1))->Body_0@.len() == 0,
    ensures
        run(s, upstream) == (
            Outcome::Done(s.records + pages.subrange(s.page - 1, pages.len() as int).flatten()),
            (pages.len() + 2 - s.page) as nat,
        ),
    decreases pages.len() + 1 - s.page,
{
    let k = s.page - 1;
    let n = pages.len() as int;
    if k == n {
        assert(pages.subrange(k, n) =~= Seq::<Seq<R>>::empty());
        assert(s.records + Seq::<R>::empty() =~= s.records);
    } else {
        assert(pages[k].len() > 0);
        let next = FetchView { page: s.page + 1, records: s.records + pages[k], ..s };
        lemma_run_through_pages(next, upstream, pages);
        let rest = pages.subrange(k, n);
        assert(rest.first() == pages[k]);
        assert(rest.drop_first() =~= pages.subrange(k + 1, n));
        assert(rest.flatten() == pages[k] + pages.subrange(k + 1, n).flatten());
        assert(s.records + pages[k] + pages.subrange(k + 1, n).flatten() =~= s.records + rest.flatten());
    }
}

/// Against a provider that answers pages 1 to N with non-empty pages and page
/// N + 1 with an empty one, a retrieval whose bound allows N + 1 requests
/// returns the N pages' records concatenated in order, after N + 1 requests.
pub proof fn lemma_fetch_returns_all_pages<R>(
    category: Category,
    sport_id: Seq<char>,
    token: Seq<char>,
    filters: Filters,
    max_pages: nat,
    upstream: spec_fn(Seq<char>) -> Reply<Vec<R>>,
    pages: Seq<Seq<R>>,
)
    requires
        pages.len() + 1 <= max_pages,
        forall|i: int| 0 <= i < pages.len() ==> {
            let reply = upstream(url_of(category, sport_id, token, filters, (i + 1) as nat));
            &&& (#[trigger] pages[i]).len() > 0
            &&& reply is Body
            &&& reply->Body_0@ == pages[i]
        },
        upstream(url_of(category, sport_id, token, filters, pages.len() + 1)) is Body,
        upstream(url_of(category, sport_id, token, filters, pages.len() + 1))->Body_0@.len() == 0,
    ensures
        fetch_spec(category, sport_id, token, filters, max_pages, upstream) == (
            Outcome::Done(pages.flatten()),
            pages.len() + 1,
        ),
{
    let s = start_view::<R>(category, sport_id, token, filters, max_pages);
    lemma_run_through_pages(s, upstream, pages);
    assert(pages.subrange(0, pages.len() as int) =~= pages);
    assert(Seq::<R>::empty() + pages.flatten() =~= pages.flatten());
}

/// A retrieval against a provider whose pages never run out, page by page.
proof fn lemma_run_to_limit<R>(s: FetchView<R>, upstream: spec_fn(Seq<char>) -> Reply<Vec<R>>)
    requires
        1 <= s.page <= s.max_pages,
        forall|p: nat| s.page <= p <= s.max_pages ==> {
            let reply = #[trigger] upstream(url_of(s.category, s.sport_id, s.token, s.filters, p));
            reply is Body && reply->Body_0@.len() > 0
        },
    ensures
        run(s, upstream) == (Outcome::<R>::Failed(ApiError::PageLimitExceeded), (s.max_pages - s.page + 1) as nat),
    decreases s.max_pages - s.page,
{
    let reply = upstream(url_of(s.category, s.sport_id, s.token, s.filters, s.page));
    assert(reply is Body && reply->Body_0@.len() > 0);
    if s.page < s.max_pages {
        let next = FetchView { page: s.page + 1, records: s.records + reply->Body_0@, ..s };
        lemma_run_to_limit(next, upstream);
    }
}

/// Against a provider that never returns an empty page, a retrieval fails with
/// `PageLimitExceeded` after exactly its bound of requests.
pub proof fn lemma_fetch_stops_at_limit<R>(
    category: Category,
    sport_id: Seq<char>,
    token: Seq<char>,
    filters: Filters,
    max_pages: nat,
    upstream: spec_fn(Seq<char>) -> Reply<Vec<R>>,
)
    requires
        forall|p: nat| 1 <= p <= max_pages ==> {
            let reply = #[trigger] upstream(url_of(category, sport_id, token, filters, p));
            reply is Body && reply->Body_0@.len() > 0
        },
    ensures
        fetch_spec(category, sport_id, token, filters, max_pages, upstream) == (
            Outcome::<R>::Failed(ApiError::PageLimitExceeded),
            max_pages,
        ),
{
    if max_pages > 0 {
        lemma_run_to_limit(start_view::<R>(category, sport_id, token, filters, max_pages), upstream);
    }
}

/// A retrieval depends only on its arguments and on the provider's answers:
/// repeating it against a provider that answers every address as before gives
/// the same outcome, the same records in the same order, after as many requests.
pub proof fn lemma_fetch_repeatable<R>(
    category: Category,
    sport_id: Seq<char>,
    token: Seq<char>,
    filters: Filters,
    max_pages: nat,
    first: spec_fn(Seq<char>) -> Reply<Vec<R>>,
    second: spec_fn(Seq<char>) -> Reply<Vec<R>>,
)
    requires
        forall|url: Seq<char>| #[trigger] first(url) == second(url),
    ensures
        fetch_spec(category, sport_id, token, filters, max_pages, first)
            == fetch_spec(category, sport_id, token, filters, max_pages, second),
{
    assert(first =~= second);
}

} // verus!
