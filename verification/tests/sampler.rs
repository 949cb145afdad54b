use gb_rs::error::{AppError, ErrorKind, FetchFailure, SamplerError};
use gb_rs::model::{Characteristic, DetailUrl, Envelope, Game, GameImage, Payload};
use gb_rs::request::Request;
use gb_rs::sampler::{pick_index, start, step, step_with, Event, SamplerState};

fn envelope(total: i64, results: Payload) -> Envelope {
    Envelope {
        error: String::from("OK"),
        version: String::from("1.0"),
        limit: 1,
        offset: 0,
        number_of_page_results: 1,
        number_of_total_results: total,
        status_code: 1,
        results,
    }
}

fn list(total: i64, locators: &[&str]) -> Event {
    let references = locators
        .iter()
        .map(|l| DetailUrl { api_detail_url: String::from(*l) })
        .collect();
    Event::Fetched(envelope(total, Payload::References(references)))
}

fn test_game() -> Game {
    Game {
        id: 1,
        guid: String::from("3030-1"),
        image: None,
        name: String::from("Test Game"),
        deck: None,
        description: None,
        original_release_date: None,
        site_detail_url: None,
        expected_release_day: None,
        expected_release_month: None,
        expected_release_year: None,
        expected_release_quarter: None,
        platforms: None,
        concepts: None,
        developers: None,
        characters: None,
        themes: None,
    }
}

fn detail(game: Game) -> Event {
    Event::Fetched(envelope(1, Payload::Item(game)))
}

fn transport(text: &str) -> Event {
    Event::FetchFailed(FetchFailure::Transport(String::from(text)))
}

fn decode(text: &str) -> Event {
    Event::FetchFailed(FetchFailure::Decode(String::from(text)))
}

fn waiting_states() -> Vec<SamplerState> {
    vec![
        SamplerState::Idle,
        SamplerState::ProbeDone { total: 10, idx: 3 },
        SamplerState::ResolverDone { locator: String::from("https://remote/api/game/123-1/") },
    ]
}

#[test]
fn drawn_index_lies_inside_the_catalog() {
    for total in [1i64, 2, 3, 10, 500, i64::MAX] {
        for _ in 0..200 {
            let idx = pick_index(total).unwrap();
            assert!(0 <= idx && idx < total);
        }
    }
}

#[test]
fn drawn_index_of_a_single_game_is_zero() {
    for _ in 0..50 {
        assert_eq!(pick_index(1), Ok(0));
    }
}

#[test]
fn drawn_index_reaches_every_game() {
    let mut seen = [false; 4];
    for _ in 0..2000 {
        seen[pick_index(4).unwrap() as usize] = true;
    }
    assert_eq!(seen, [true; 4]);
}

#[test]
fn no_index_is_drawn_from_an_empty_catalog() {
    assert_eq!(pick_index(0), Err(SamplerError::EmptyCatalog));
    assert_eq!(pick_index(-1), Err(SamplerError::EmptyCatalog));
    assert_eq!(pick_index(i64::MIN), Err(SamplerError::EmptyCatalog));
}

#[test]
fn run_begins_idle_with_the_probe() {
    let (state, request) = start();
    assert_eq!(state, SamplerState::Idle);
    assert_eq!(request, Some(Request::Probe));
    assert_eq!(state.request(), Some(Request::Probe));
}

#[test]
fn resolver_offset_is_below_the_reported_total() {
    for total in [1i64, 2, 10, 500] {
        for _ in 0..200 {
            let (state, request) = step(SamplerState::Idle, list(total, &["x"]));
            match (state, request) {
                (SamplerState::ProbeDone { total: t, idx }, Some(Request::Resolve { offset })) => {
                    assert_eq!(t, total);
                    assert_eq!(idx, offset);
                    assert!(0 <= offset && offset < total);
                }
                other => panic!("unexpected step: {:?}", other),
            }
        }
    }
}

#[test]
fn probe_does_not_read_the_references() {
    let (state, request) = step_with(SamplerState::Idle, list(500, &[]), 499);
    assert_eq!(state, SamplerState::ProbeDone { total: 500, idx: 499 });
    assert_eq!(request, Some(Request::Resolve { offset: 499 }));
}

#[test]
fn step_with_takes_the_given_index() {
    let (state, request) = step_with(SamplerState::Idle, list(500, &["x"]), 123);
    assert_eq!(state, SamplerState::ProbeDone { total: 500, idx: 123 });
    assert_eq!(request, Some(Request::Resolve { offset: 123 }));
}

#[test]
fn empty_catalog_ends_the_run() {
    for total in [0i64, -1, i64::MIN] {
        let (state, request) = step(SamplerState::Idle, list(total, &[]));
        assert_eq!(state, SamplerState::Failed(SamplerError::EmptyCatalog));
        assert_eq!(request, None);
        let (state, request) = step_with(SamplerState::Idle, list(total, &["x"]), 0);
        assert_eq!(state, SamplerState::Failed(SamplerError::EmptyCatalog));
        assert_eq!(request, None);
    }
}

#[test]
fn first_reference_becomes_the_locator() {
    let probe_done = SamplerState::ProbeDone { total: 500, idx: 7 };
    let (state, request) = step(probe_done, list(500, &["https://remote/a/", "https://remote/b/"]));
    assert_eq!(state, SamplerState::ResolverDone { locator: String::from("https://remote/a/") });
    assert_eq!(request, Some(Request::Detail { locator: String::from("https://remote/a/") }));
}

#[test]
fn empty_list_surfaces_a_remote_error() {
    let probe_done = SamplerState::ProbeDone { total: 10, idx: 3 };
    let (state, request) = step(probe_done, list(10, &[]));
    assert_eq!(request, None);
    match state.into_outcome() {
        Some(Err(err)) => {
            assert_eq!(err.kind(), ErrorKind::Remote);
            assert_ne!(err.kind(), ErrorKind::Decode);
            assert_eq!(err, SamplerError::Remote(String::from("no result at offset")));
        }
        other => panic!("unexpected outcome: {:?}", other),
    }
}

#[test]
fn undecodable_detail_surfaces_a_decode_error() {
    let resolver_done = SamplerState::ResolverDone { locator: String::from("https://remote/a/") };
    let (state, request) = step(resolver_done, decode("missing field `name`"));
    assert_eq!(request, None);
    assert_eq!(
        state.into_outcome(),
        Some(Err(SamplerError::Decode(String::from("missing field `name`"))))
    );
}

#[test]
fn detail_completes_the_run() {
    let resolver_done = SamplerState::ResolverDone { locator: String::from("https://remote/a/") };
    let (state, request) = step(resolver_done, detail(test_game()));
    assert_eq!(request, None);
    assert_eq!(state, SamplerState::Complete(test_game()));
    assert_eq!(state.into_outcome(), Some(Ok(test_game())));
}

#[test]
fn detail_is_handed_out_whole() {
    let mut game = test_game();
    game.image = Some(GameImage {
        original_url: Some(String::from("https://img/original.png")),
        super_url: None,
        screen_url: None,
        screen_large_url: None,
        medium_url: None,
        small_url: Some(String::new()),
        thumb_url: None,
        icon_url: None,
        tiny_url: None,
    });
    game.expected_release_year = Some(2031);
    game.expected_release_quarter = Some(2);
    game.platforms = Some(vec![Characteristic {
        api_detail_url: String::from("https://remote/api/platform/3045-94/"),
        id: 94,
        name: String::from("PC"),
        site_detail_url: String::from("https://remote/pc/3045-94/"),
        abbreviation: Some(String::from("PC")),
    }]);
    game.themes = Some(vec![]);
    let resolver_done = SamplerState::ResolverDone { locator: String::from("https://remote/a/") };
    let (state, _) = step(resolver_done, detail(game.clone()));
    assert_eq!(state.into_outcome(), Some(Ok(game)));
}

#[test]
fn transport_failure_ends_the_run_at_every_query() {
    for state in waiting_states() {
        let (next, request) = step(state, transport("connection refused"));
        assert_eq!(request, None);
        assert_eq!(
            next,
            SamplerState::Failed(SamplerError::Transport(String::from("connection refused")))
        );
    }
}

#[test]
fn decode_failure_ends_the_run_at_every_query() {
    for state in waiting_states() {
        let (next, request) = step(state, decode("expected value at line 1"));
        assert_eq!(request, None);
        assert_eq!(
            next,
            SamplerState::Failed(SamplerError::Decode(String::from("expected value at line 1")))
        );
    }
}

#[test]
fn payload_of_the_other_query_is_a_decode_failure() {
    let unexpected = SamplerState::Failed(SamplerError::unexpected_payload());
    let (next, request) = step(SamplerState::Idle, detail(test_game()));
    assert_eq!(next, unexpected);
    assert_eq!(request, None);
    let (next, _) = step(SamplerState::ProbeDone { total: 10, idx: 3 }, detail(test_game()));
    assert_eq!(next, unexpected);
    let resolver_done = SamplerState::ResolverDone { locator: String::from("https://remote/a/") };
    let (next, _) = step(resolver_done, list(10, &["https://remote/a/"]));
    assert_eq!(next, unexpected);
}

#[test]
fn ended_run_stays_as_it_ended() {
    let events = || vec![list(10, &["x"]), detail(test_game()), transport("t"), decode("d")];
    for event in events() {
        let complete = SamplerState::Complete(test_game());
        let (next, request) = step(complete.clone(), event);
        assert_eq!(next, complete);
        assert_eq!(request, None);
    }
    for event in events() {
        let failed = SamplerState::Failed(SamplerError::no_result_at_offset());
        let (next, request) = step(failed.clone(), event);
        assert_eq!(next, failed);
        assert_eq!(request, None);
    }
}

#[test]
fn waiting_run_has_no_outcome() {
    for state in waiting_states() {
        assert!(state.request().is_some());
        assert_eq!(state.into_outcome(), None);
    }
}

#[test]
fn awaited_request_follows_the_state() {
    assert_eq!(
        SamplerState::ProbeDone { total: 10, idx: 3 }.request(),
        Some(Request::Resolve { offset: 3 })
    );
    assert_eq!(
        SamplerState::ResolverDone { locator: String::from("https://remote/a/") }.request(),
        Some(Request::Detail { locator: String::from("https://remote/a/") })
    );
    assert_eq!(SamplerState::Complete(test_game()).request(), None);
    assert_eq!(SamplerState::Failed(SamplerError::EmptyCatalog).request(), None);
}

#[test]
fn run_of_three_replies_returns_the_game() {
    let token = "secret";
    let locator = "https://remote/api/game/123-1/";

    let (state, request) = start();
    assert_eq!(request.unwrap().url(token), gb_rs::request::max_games_url(token));

    let (state, request) = step(state, list(500, &["https://remote/api/game/1-1/"]));
    let offset = match request {
        Some(Request::Resolve { offset }) => offset,
        other => panic!("unexpected request: {:?}", other),
    };
    assert!(0 <= offset && offset < 500);
    assert_eq!(state, SamplerState::ProbeDone { total: 500, idx: offset });

    let (state, request) = step(state, list(500, &[locator]));
    let request = request.unwrap();
    assert_eq!(request, Request::Detail { locator: String::from(locator) });
    assert!(request.url(token).starts_with("https://remote/api/game/123-1/?api_key=secret&"));

    let (state, request) = step(state, detail(test_game()));
    assert_eq!(request, None);
    let game = state.into_outcome().unwrap().unwrap();
    assert_eq!(game.name, "Test Game");
    assert_eq!(game.id, 1);
    assert_eq!(game.guid, "3030-1");
}

#[test]
fn run_with_an_empty_list_is_answered_with_bad_gateway() {
    let (state, _) = start();
    let (state, request) = step(state, list(10, &["https://remote/api/game/1-1/"]));
    assert!(matches!(request, Some(Request::Resolve { offset }) if 0 <= offset && offset < 10));

    let (state, request) = step(state, list(10, &[]));
    assert_eq!(request, None);
    let err = state.into_outcome().unwrap().unwrap_err();
    assert_eq!(err.kind(), ErrorKind::Remote);

    let app = AppError::bad_gateway(&err);
    assert_eq!(app.status, 502);
    let body = serde_json::from_str::<serde_json::Value>(&app.error_body()).unwrap();
    let message = body.as_object().unwrap().get("error").unwrap();
    assert_eq!(message.as_str(), Some("no result at offset"));
}
