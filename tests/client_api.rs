use betsapi::client::BetsApi;
use betsapi::error::ApiError;
use betsapi::fetch::{Reply, Step};
use betsapi::query::Filters;

fn connected() -> BetsApi {
    match BetsApi::from_probe("secret".to_string(), reqwest::Client::new(), 200) {
        Ok(api) => api,
        Err(e) => panic!("construction failed: {:?}", e),
    }
}

#[test]
fn probe_url_asks_for_upcoming_events() {
    assert_eq!(
        BetsApi::probe_url("abc"),
        "https://api.b365api.com/v3/events/upcoming?sport_id=92&token=abc"
    );
}

#[test]
fn rejected_probe_fails_with_auth_error() {
    let r = BetsApi::from_probe("bad".to_string(), reqwest::Client::new(), 401);
    assert!(matches!(r, Err(ApiError::Auth(401))));
    let r = BetsApi::from_probe("bad".to_string(), reqwest::Client::new(), 500);
    assert!(matches!(r, Err(ApiError::Auth(500))));
}

#[test]
fn accepted_probe_keeps_the_token() {
    assert_eq!(connected().token(), "secret");
}

#[test]
fn upcoming_retrieval_starts_at_page_one() {
    let api = connected();
    match api.fetch_upcoming::<u32>("1", Filters::none(), 3) {
        Step::Request(f) => {
            assert_eq!(f.url(), "https://api.b365api.com/v3/events/upcoming?sport_id=1&token=secret&page=1");
            match f.on_reply(Reply::Body(vec![])) {
                Step::Done(v) => assert!(v.is_empty()),
                _ => panic!("expected the end"),
            }
        }
        _ => panic!("expected a request"),
    }
}

#[test]
fn ended_retrieval_uses_the_ended_listing() {
    let api = connected();
    match api.fetch_ended::<u32>("3", Filters::none(), 1) {
        Step::Request(f) => {
            assert_eq!(f.url(), "https://api.b365api.com/v3/events/ended?sport_id=3&token=secret&page=1");
        }
        _ => panic!("expected a request"),
    }
    assert!(matches!(api.fetch_ended::<u32>("3", Filters::none(), 0), Step::Failed(ApiError::PageLimitExceeded)));
}

#[test]
fn in_play_url_has_league_only_when_given() {
    let api = connected();
    assert_eq!(
        api.in_play_url("1", None),
        "https://api.b365api.com/v3/events/inplay?sport_id=1&token=secret"
    );
    assert_eq!(
        api.in_play_url("1", Some("77".to_string())),
        "https://api.b365api.com/v3/events/inplay?sport_id=1&token=secret&league_id=77"
    );
}

#[test]
fn every_error_has_a_message() {
    for e in [
        ApiError::Auth(401),
        ApiError::Transport,
        ApiError::Decode,
        ApiError::Http(500),
        ApiError::PageLimitExceeded,
        ApiError::Timeout,
        ApiError::Cancelled,
    ] {
        assert!(!e.message().is_empty());
    }
}
