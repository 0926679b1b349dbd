use vstd::prelude::*;

use crate::date::{digit_char, digit_str, two_digits, Date};

verus! {

/// The provider's address up to the category of events.
pub const EVENTS_BASE: &'static str = "https://api.b365api.com/v3/events/";

/// Which listing of the provider a request addresses.
#[derive(Debug, Clone, Copy, PartialEq, Eq, Structural)]
pub enum Category {
    /// Fixtures not started yet; paginated.
    Upcoming,
    /// Finished matches; paginated.
    Ended,
    /// Matches being played now; one snapshot, no pages.
    InPlay,
}

/// Optional refinements of a listing. A field left `None` is left out of the query.
#[derive(Debug, Clone)]
pub struct Filters {
    pub league_id: Option<String>,
    pub team_id: Option<String>,
    pub cc: Option<String>,
    pub day: Option<Date>,
    pub skip_esports: Option<String>,
}

impl Filters {
    /// No refinement at all.
    pub fn none() -> (r: Filters)
        ensures
            r.is_empty(),
    {
        Filters { league_id: None, team_id: None, cc: None, day: None, skip_esports: None }
    }

    /// Every field is unset.
    pub open spec fn is_empty(&self) -> bool {
        &&& self.league_id is None
        &&& self.team_id is None
        &&& self.cc is None
        &&& self.day is None
        &&& self.skip_esports is None
    }

    /// The date filter, where set, is a real calendar day.
    pub open spec fn wf(&self) -> bool {
        self.day matches Some(d) ==> d.wf()
    }
}

/// The path segment of a category.
pub open spec fn path_of(c: Category) -> Seq<char> {
    match c {
        Category::Upcoming => "upcoming"@,
        Category::Ended => "ended"@,
        Category::InPlay => "inplay"@,
    }
}

/// `n` in decimal, without leading zeros.
pub open spec fn decimal(n: nat) -> Seq<char>
    decreases n,
{
    if n < 10 {
        seq![digit_char(n as int)]
    } else {
        decimal(n / 10) + seq![digit_char(n as int % 10)]
    }
}

/// One further query parameter `&name=value`.
pub open spec fn param(name: Seq<char>, value: Seq<char>) -> Seq<char> {
    "&"@ + name + "="@ + value
}

/// The parameter where the value is set, nothing where it is not.
pub open spec fn opt_param(name: Seq<char>, value: Option<String>) -> Seq<char> {
    match value {
        Some(v) => param(name, v@),
        None => Seq::empty(),
    }
}

/// The `day` parameter where a date is set, nothing where it is not.
pub open spec fn day_part(day: Option<Date>) -> Seq<char> {
    match day {
        Some(d) => param("day"@, d.day_param_spec()),
        None => Seq::empty(),
    }
}

/// What follows the token: the filters that the category takes, then the page.
pub open spec fn filter_part(c: Category, f: Filters, page: nat) -> Seq<char> {
    if c is InPlay {
        opt_param("league_id"@, f.league_id)
    } else {
        opt_param("league_id"@, f.league_id) + opt_param("team_id"@, f.team_id)
            + opt_param("cc"@, f.cc) + opt_param("skip_esports"@, f.skip_esports)
            + param("page"@, decimal(page)) + day_part(f.day)
    }
}

/// The address of one request: the category's endpoint, the sport, the token,
/// then the set filters and, for a paginated category, the page.
pub open spec fn url_of(c: Category, sport_id: Seq<char>, token: Seq<char>, f: Filters, page: nat) -> Seq<char> {
    EVENTS_BASE@ + path_of(c) + "?sport_id="@ + sport_id + "&token="@ + token + filter_part(c, f, page)
}

/// Appends `n` in decimal.
pub fn push_decimal(s: &mut String, n: u32)
    ensures
        final(s)@ == old(s)@ + decimal(n as nat),
    decreases n,
{
    if n >= 10 {
        push_decimal(s, n / 10);
    }
    s.append(digit_str(n % 10));
    assert(final(s)@ =~= old(s)@ + decimal(n as nat));
}

/// Appends `&name=value`.
pub fn push_param(s: &mut String, name: &str, value: &str)
    ensures
        final(s)@ == old(s)@ + param(name@, value@),
{
    s.append("&");
    s.append(name);
    s.append("=");
    s.append(value);
    assert(final(s)@ =~= old(s)@ + param(name@, value@));
}

/// Appends `&name=value` where the value is set.
pub fn push_opt_param(s: &mut String, name: &str, value: &Option<String>)
    ensures
        final(s)@ == old(s)@ + opt_param(name@, *value),
{
    match value {
        Some(v) => push_param(s, name, v.as_str()),
        None => {
            assert(final(s)@ =~= old(s)@ + opt_param(name@, *value));
        },
    }
}

/// The address of a request for `page` of the `category` listing of `sport_id`.
pub fn build_url(category: Category, sport_id: &str, token: &str, filters: &Filters, page: u32) -> (r: String)
    requires
        filters.wf(),
    ensures
        r@ == url_of(category, sport_id@, token@, *filters, page as nat),
{
    let mut s = String::from_str(EVENTS_BASE);
    match category {
        Category::Upcoming => s.append("upcoming"),
        Category::Ended => s.append("ended"),
        Category::InPlay => s.append("inplay"),
    }
    s.append("?sport_id=");
    s.append(sport_id);
    s.append("&token=");
    s.append(token);
    let ghost head = s@;
    push_opt_param(&mut s, "league_id", &filters.league_id);
    if category != Category::InPlay {
        push_opt_param(&mut s, "team_id", &filters.team_id);
        push_opt_param(&mut s, "cc", &filters.cc);
        push_opt_param(&mut s, "skip_esports", &filters.skip_esports);
        let ghost before_page = s@;
        s.append("&");
        s.append("page");
        s.append("=");
        push_decimal(&mut s, page);
        assert(s@ =~= before_page + param("page"@, decimal(page as nat)));
        match &filters.day {
            Some(d) => {
                let v = d.day_param();
                push_param(&mut s, "day", v.as_str());
            },
            None => {},
        }
    }
    assert(s@ =~= head + filter_part(category, *filters, page as nat));
    assert(s@ =~= url_of(category, sport_id@, token@, *filters, page as nat));
    s
}

/// With no filter set, the address carries no query parameter but the sport,
/// the token and, for a paginated category, the page.
pub proof fn lemma_unfiltered_url(c: Category, sport_id: Seq<char>, token: Seq<char>, f: Filters, page: nat)
    requires
        f.is_empty(),
    ensures
        url_of(c, sport_id, token, f, page) == EVENTS_BASE@ + path_of(c) + "?sport_id="@ + sport_id + "&token="@ + token
            + if c is InPlay { Seq::empty() } else { param("page"@, decimal(page)) },
{
    let head = EVENTS_BASE@ + path_of(c) + "?sport_id="@ + sport_id + "&token="@ + token;
    if c is InPlay {
        assert(url_of(c, sport_id, token, f, page) =~= head + Seq::<char>::empty());
    } else {
        assert(url_of(c, sport_id, token, f, page) =~= head + param("page"@, decimal(page)));
    }
}

/// With a date set, the address of a paginated listing ends in `&day=` and the
/// date as `20`, the year's last two digits, the month and the day, two digits each.
pub proof fn lemma_day_filter_url(c: Category, sport_id: Seq<char>, token: Seq<char>, f: Filters, page: nat, d: Date)
    requires
        !(c is InPlay),
        f.day == Some(d),
        d.wf(),
    ensures
        ({
            let url = url_of(c, sport_id, token, f, page);
            &&& url.len() >= 13
            &&& url.subrange(url.len() - 13, url.len() as int) == "&day="@ + seq!['2', '0']
                + two_digits(d.year as int % 100) + two_digits(d.month as int) + two_digits(d.day as int)
        }),
{
    reveal_strlit("&");
    reveal_strlit("=");
    reveal_strlit("day");
    reveal_strlit("&day=");
    let url = url_of(c, sport_id, token, f, page);
    let tail = param("day"@, d.day_param_spec());
    let front = EVENTS_BASE@ + path_of(c) + "?sport_id="@ + sport_id + "&token="@ + token
        + opt_param("league_id"@, f.league_id) + opt_param("team_id"@, f.team_id)
        + opt_param("cc"@, f.cc) + opt_param("skip_esports"@, f.skip_esports)
        + param("page"@, decimal(page));
    assert(url =~= front + tail);
    assert(tail.len() == 13);
    assert(url.subrange(url.len() - 13, url.len() as int) =~= tail);
    assert(tail =~= "&day="@ + seq!['2', '0'] + two_digits(d.year as int % 100) + two_digits(d.month as int)
        + two_digits(d.day as int));
}

} // verus!
