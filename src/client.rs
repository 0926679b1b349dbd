use vstd::prelude::*;

use crate::error::ApiError;
use crate::fetch::{start_view, Outcome, PageFetch, Step};
use crate::query::{build_url, url_of, Category, Filters, EVENTS_BASE};

verus! {

/// Declares `reqwest::Client` so that `BetsApi` can hold the HTTP client it was
/// built with; nothing is assumed of what is inside it.
#[verifier::external_type_specification]
#[verifier::external_body]
pub struct ExHttpClient(reqwest::Client);

/// The sport that the construction probe asks for.
pub const PROBE_SPORT_ID: &'static str = "92";

/// The address of the construction probe: the upcoming listing of one sport.
pub open spec fn probe_url_of(token: Seq<char>) -> Seq<char> {
    EVENTS_BASE@ + "upcoming"@ + "?sport_id="@ + PROBE_SPORT_ID@ + "&token="@ + token
}

/// The filters of an in-play request: at most a league.
pub open spec fn in_play_filters(league_id: Option<String>) -> Filters {
    Filters { league_id, team_id: None, cc: None, day: None, skip_esports: None }
}

/// A connection to the provider whose access token was accepted when it was made.
pub struct BetsApi {
    token: String,
    http: reqwest::Client,
}

impl BetsApi {
    /// The access token.
    pub closed spec fn token_spec(&self) -> Seq<char> {
        self.token@
    }

    /// The HTTP client.
    pub closed spec fn http_spec(&self) -> reqwest::Client {
        self.http
    }

    /// The address of the one request that a construction makes to test `token`.
    pub fn probe_url(token: &str) -> (r: String)
        ensures
            r@ == probe_url_of(token@),
    {
        let mut s = String::from_str(EVENTS_BASE);
        s.append("upcoming");
        s.append("?sport_id=");
        s.append(PROBE_SPORT_ID);
        s.append("&token=");
        s.append(token);
        s
    }

    /// Completes a construction from the status with which the provider answered
    /// the probe: a client on status 200, `Auth` with the status on any other.
    pub fn from_probe(token: String, http: reqwest::Client, status: u16) -> (r: Result<BetsApi, ApiError>)
        ensures
            r is Ok <==> status == 200,
            r matches Ok(c) ==> c.token_spec() == token@,
            r matches Err(e) ==> e == ApiError::Auth(status),
    {
        if status == 200 {
            Ok(BetsApi { token, http })
        } else {
            Err(ApiError::Auth(status))
        }
    }

    /// The access token.
    pub fn token(&self) -> (r: &str)
        ensures
            r@ == self.token_spec(),
    {
        self.token.as_str()
    }

    /// The HTTP client through which requests are made.
    pub fn http(&self) -> (r: &reqwest::Client)
        ensures
            *r == self.http_spec(),
    {
        &self.http
    }

    /// Starts a paginated retrieval of a listing with this client's token.
    fn fetch<R>(&self, category: Category, sport_id: &str, filters: Filters, max_pages: u32) -> (r: Step<R>)
        requires
            !(category is InPlay),
            filters.wf(),
        ensures
            r.wf(),
            max_pages == 0 ==> r.outcome() == Outcome::<R>::Failed(ApiError::PageLimitExceeded),
            max_pages > 0 ==> r.outcome() == Outcome::Continue(
                start_view::<R>(category, sport_id@, self.token_spec(), filters, max_pages as nat),
            ),
    {
        PageFetch::start(category, String::from_str(sport_id), self.token.clone(), filters, max_pages)
    }

    /// Starts retrieving the upcoming fixtures of `sport_id`, in at most `max_pages` requests.
    pub fn fetch_upcoming<R>(&self, sport_id: &str, filters: Filters, max_pages: u32) -> (r: Step<R>)
        requires
            filters.wf(),
        ensures
            r.wf(),
            max_pages == 0 ==> r.outcome() == Outcome::<R>::Failed(ApiError::PageLimitExceeded),
            max_pages > 0 ==> r.outcome() == Outcome::Continue(
                start_view::<R>(Category::Upcoming, sport_id@, self.token_spec(), filters, max_pages as nat),
            ),
    {
        self.fetch(Category::Upcoming, sport_id, filters, max_pages)
    }

    /// Starts retrieving the finished matches of `sport_id`, in at most `max_pages` requests.
    pub fn fetch_ended<R>(&self, sport_id: &str, filters: Filters, max_pages: u32) -> (r: Step<R>)
        requires
            filters.wf(),
        ensures
            r.wf(),
            max_pages == 0 ==> r.outcome() == Outcome::<R>::Failed(ApiError::PageLimitExceeded),
            max_pages > 0 ==> r.outcome() == Outcome::Continue(
                start_view::<R>(Category::Ended, sport_id@, self.token_spec(), filters, max_pages as nat),
            ),
    {
        self.fetch(Category::Ended, sport_id, filters, max_pages)
    }

    /// The address of the snapshot of matches of `sport_id` being played now,
    /// optionally of one league.
    pub fn in_play_url(&self, sport_id: &str, league_id: Option<String>) -> (r: String)
        ensures
            r@ == url_of(Category::InPlay, sport_id@, self.token_spec(), in_play_filters(league_id), 1),
    {
        let filters = Filters { league_id, team_id: None, cc: None, day: None, skip_esports: None };
        build_url(Category::InPlay, sport_id, self.token.as_str(), &filters, 1)
    }
}

} // verus!
