use betsapi::error::ApiError;
use betsapi::fetch::{settle_single, PageFetch, Reply, Step};
use betsapi::query::{Category, Filters};

/// Runs a retrieval to its end; `upstream` answers the n-th request (from 0)
/// given its address. Returns the result and the number of requests made.
fn drive(start: Step<u32>, upstream: impl Fn(usize, &str) -> Reply<Vec<u32>>) -> (Result<Vec<u32>, ApiError>, usize) {
    let mut step = start;
    let mut requests = 0;
    loop {
        match step {
            Step::Request(f) => {
                let url = f.url();
                let reply = upstream(requests, &url);
                requests += 1;
                step = f.on_reply(reply);
            }
            Step::Done(v) => return (Ok(v), requests),
            Step::Failed(e) => return (Err(e), requests),
        }
    }
}

fn start(max_pages: u32) -> Step<u32> {
    PageFetch::start(Category::Upcoming, "1".to_string(), "tok".to_string(), Filters::none(), max_pages)
}

fn three_pages(n: usize, url: &str) -> Reply<Vec<u32>> {
    assert!(url.ends_with(&format!("&page={}", n + 1)));
    match n {
        0 => Reply::Body(vec![1, 2]),
        1 => Reply::Body(vec![3]),
        2 => Reply::Body(vec![4, 5, 6]),
        _ => Reply::Body(vec![]),
    }
}

#[test]
fn pages_are_concatenated_until_an_empty_one() {
    let (r, requests) = drive(start(10), three_pages);
    assert_eq!(r, Ok(vec![1, 2, 3, 4, 5, 6]));
    assert_eq!(requests, 4);
}

#[test]
fn bound_just_large_enough() {
    let (r, requests) = drive(start(4), three_pages);
    assert_eq!(r, Ok(vec![1, 2, 3, 4, 5, 6]));
    assert_eq!(requests, 4);
}

#[test]
fn empty_first_page_gives_no_records() {
    let (r, requests) = drive(start(3), |_, _| Reply::Body(vec![]));
    assert_eq!(r, Ok(vec![]));
    assert_eq!(requests, 1);
}

#[test]
fn endless_pages_hit_the_limit_after_exactly_the_bound() {
    let (r, requests) = drive(start(5), |n, _| Reply::Body(vec![n as u32]));
    assert_eq!(r, Err(ApiError::PageLimitExceeded));
    assert_eq!(requests, 5);
}

#[test]
fn bound_one_short_fails() {
    let (r, requests) = drive(start(3), three_pages);
    assert_eq!(r, Err(ApiError::PageLimitExceeded));
    assert_eq!(requests, 3);
}

#[test]
fn zero_bound_makes_no_request() {
    let (r, requests) = drive(start(0), three_pages);
    assert_eq!(r, Err(ApiError::PageLimitExceeded));
    assert_eq!(requests, 0);
}

#[test]
fn repeated_retrieval_gives_the_same_records() {
    let first = drive(start(10), three_pages);
    let second = drive(start(10), three_pages);
    assert_eq!(first, second);
}

fn fail_on_second(reply: fn() -> Reply<Vec<u32>>) -> (Result<Vec<u32>, ApiError>, usize) {
    drive(start(10), move |n, _| if n == 0 { Reply::Body(vec![7, 8]) } else { reply() })
}

#[test]
fn error_status_discards_received_pages() {
    assert_eq!(fail_on_second(|| Reply::Status(500)), (Err(ApiError::Http(500)), 2));
    assert_eq!(fail_on_second(|| Reply::Status(401)), (Err(ApiError::Http(401)), 2));
}

#[test]
fn each_failed_reply_maps_to_its_error() {
    assert_eq!(fail_on_second(|| Reply::Malformed), (Err(ApiError::Decode), 2));
    assert_eq!(fail_on_second(|| Reply::Unreachable), (Err(ApiError::Transport), 2));
    assert_eq!(fail_on_second(|| Reply::TimedOut), (Err(ApiError::Timeout), 2));
    assert_eq!(fail_on_second(|| Reply::Cancelled), (Err(ApiError::Cancelled), 2));
}

#[test]
fn single_reply_settles() {
    assert_eq!(settle_single(Reply::Body(3u32)), Ok(3));
    assert_eq!(settle_single::<u32>(Reply::Status(404)), Err(ApiError::Http(404)));
    assert_eq!(settle_single::<u32>(Reply::Malformed), Err(ApiError::Decode));
    assert_eq!(settle_single::<u32>(Reply::TimedOut), Err(ApiError::Timeout));
}

#[test]
fn requests_ask_for_successive_pages() {
    let (r, _) = drive(start(10), |n, url| {
        assert!(url.starts_with("https://api.b365api.com/v3/events/upcoming?sport_id=1&token=tok"));
        assert!(url.ends_with(&format!("&page={}", n + 1)));
        if n < 2 { Reply::Body(vec![n as u32]) } else { Reply::Body(vec![]) }
    });
    assert_eq!(r, Ok(vec![0, 1]));
}
