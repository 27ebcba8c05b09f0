use matrix_goose::delay::NANOS_PER_SEC;
use matrix_goose::dispatch::{
    admits_scheme, clamp_wait, classify, decide, map_harness_error, server_error, Action, ApiError,
    AuthScheme, Dispatcher, ErrorKind, Event, HarnessError, HttpClient, HttpError, Next, Phase,
    RequestConfig, TokenUse, Verdict, DEFAULT_REQUEST_TIMEOUT,
};

fn status(code: u16) -> HttpError {
    HttpError::Api(ApiError::ClientApi { status: code, kind: ErrorKind::Other })
}

fn rate_limit(retry_after: Option<u64>) -> HttpError {
    HttpError::Api(ApiError::ClientApi {
        status: 429,
        kind: ErrorKind::LimitExceeded { retry_after },
    })
}

/// Drives a dispatcher against a transport that answers attempt `k` with
/// `script[k]` (`None` is a response). Returns whether the request
/// succeeded, the number of attempts and the waits between them.
fn run(dispatcher: &mut Dispatcher, script: &[Option<HttpError>]) -> (bool, u64, Vec<u64>) {
    let mut waits = Vec::new();
    let mut attempts = 0;
    let mut action = dispatcher.step(&Event::Start);
    loop {
        match action {
            Action::Send { attempt } => {
                attempts += 1;
                assert_eq!(attempt, attempts);
                let answer = script[(attempt - 1) as usize];
                action = match answer {
                    None => dispatcher.step(&Event::Succeeded),
                    Some(error) => dispatcher.step(&Event::Failed(error)),
                };
            }
            Action::Wait { nanos } => {
                waits.push(nanos);
                action = dispatcher.step(&Event::Waited);
            }
            Action::Return => return (true, attempts, waits),
            Action::Fail => return (false, attempts, waits),
            Action::Rejected => panic!("the dispatcher rejected an event of its own loop"),
        }
    }
}

#[test]
fn default_config_is_sixty_seconds_without_limits() {
    let config = RequestConfig::default();
    assert_eq!(DEFAULT_REQUEST_TIMEOUT, 60 * NANOS_PER_SEC);
    assert_eq!(config.timeout, 60_000_000_000);
    assert_eq!(config.retry_limit, None);
    assert_eq!(config.retry_timeout, None);
    assert!(!config.force_auth);
    assert!(!config.assert_identity);
}

#[test]
fn three_server_errors_then_success_take_four_attempts() {
    let mut dispatcher = Dispatcher::new(&RequestConfig::default());
    let script = [Some(status(500)), Some(status(503)), Some(status(502)), None];
    let (ok, attempts, waits) = run(&mut dispatcher, &script);
    assert!(ok);
    assert_eq!(attempts, 4);
    assert_eq!(dispatcher.attempts(), 4);
    assert_eq!(waits.len(), 3);
    assert_eq!(dispatcher.phase(), Phase::Done);
}

#[test]
fn backoff_waits_grow_from_half_a_second() {
    let mut dispatcher = Dispatcher::new(&RequestConfig::default());
    let script = [Some(status(500)), Some(HttpError::Transport), Some(status(599)), None];
    let (_, _, waits) = run(&mut dispatcher, &script);
    let ms = 1_000_000;
    assert!(waits[0] >= 250 * ms && waits[0] <= 751 * ms, "first wait {}", waits[0]);
    assert!(waits[1] >= 375 * ms && waits[1] <= 1_126 * ms, "second wait {}", waits[1]);
    assert!(waits[2] >= 562 * ms && waits[2] <= 1_689 * ms, "third wait {}", waits[2]);
}

#[test]
fn rate_limit_waits_as_long_as_the_server_says() {
    let mut dispatcher = Dispatcher::new(&RequestConfig::default());
    assert_eq!(dispatcher.step(&Event::Start), Action::Send { attempt: 1 });
    let two_seconds = 2 * NANOS_PER_SEC;
    assert_eq!(
        dispatcher.step(&Event::Failed(rate_limit(Some(two_seconds)))),
        Action::Wait { nanos: two_seconds }
    );
    assert_eq!(dispatcher.phase(), Phase::Waiting);
    assert_eq!(dispatcher.step(&Event::Waited), Action::Send { attempt: 2 });
}

#[test]
fn rate_limit_without_a_wait_follows_the_backoff() {
    let mut dispatcher = Dispatcher::new(&RequestConfig::default());
    dispatcher.step(&Event::Start);
    match dispatcher.step(&Event::Failed(rate_limit(None))) {
        Action::Wait { nanos } => assert!(nanos >= 250_000_000 && nanos <= 751_000_000),
        other => panic!("expected a wait, got {:?}", other),
    }
}

#[test]
fn forbidden_fails_after_one_attempt() {
    let mut dispatcher = Dispatcher::new(&RequestConfig::default());
    let (ok, attempts, waits) = run(&mut dispatcher, &[Some(status(403))]);
    assert!(!ok);
    assert_eq!(attempts, 1);
    assert!(waits.is_empty());
    assert_eq!(dispatcher.phase(), Phase::Done);
}

#[test]
fn success_returns_at_once() {
    let mut dispatcher = Dispatcher::new(&RequestConfig::default());
    let (ok, attempts, waits) = run(&mut dispatcher, &[None]);
    assert!(ok);
    assert_eq!(attempts, 1);
    assert!(waits.is_empty());
}

#[test]
fn retry_limit_caps_the_attempts() {
    let config = RequestConfig { retry_limit: Some(3), ..RequestConfig::default() };
    let mut dispatcher = Dispatcher::new(&config);
    let script = [Some(status(500)); 10];
    let (ok, attempts, waits) = run(&mut dispatcher, &script);
    assert!(!ok);
    assert_eq!(attempts, 3);
    assert_eq!(waits.len(), 2);
    assert!(dispatcher.limit_reached());
}

#[test]
fn retry_limit_of_zero_still_sends_once() {
    let config = RequestConfig { retry_limit: Some(0), ..RequestConfig::default() };
    let mut dispatcher = Dispatcher::new(&config);
    let (ok, attempts, _) = run(&mut dispatcher, &[Some(HttpError::Transport)]);
    assert!(!ok);
    assert_eq!(attempts, 1);
}

#[test]
fn retry_limit_holds_for_rate_limits_too() {
    let config = RequestConfig { retry_limit: Some(2), ..RequestConfig::default() };
    let mut dispatcher = Dispatcher::new(&config);
    let script = [Some(rate_limit(Some(5))); 4];
    let (ok, attempts, waits) = run(&mut dispatcher, &script);
    assert!(!ok);
    assert_eq!(attempts, 2);
    assert_eq!(waits, vec![5]);
}

#[test]
fn used_up_retry_timeout_ends_the_retries() {
    let config = RequestConfig { retry_timeout: Some(0), ..RequestConfig::default() };
    let mut dispatcher = Dispatcher::new(&config);
    let (ok, attempts, waits) = run(&mut dispatcher, &[Some(status(500)), None]);
    assert!(!ok);
    assert_eq!(attempts, 1);
    assert!(waits.is_empty());
}

#[test]
fn events_out_of_turn_are_rejected() {
    let mut dispatcher = Dispatcher::new(&RequestConfig::default());
    assert_eq!(dispatcher.phase(), Phase::Idle);
    assert_eq!(dispatcher.step(&Event::Succeeded), Action::Rejected);
    assert_eq!(dispatcher.step(&Event::Waited), Action::Rejected);
    assert_eq!(dispatcher.step(&Event::Failed(HttpError::Transport)), Action::Rejected);
    assert_eq!(dispatcher.attempts(), 0);
    assert_eq!(dispatcher.step(&Event::Start), Action::Send { attempt: 1 });
    assert_eq!(dispatcher.step(&Event::Start), Action::Rejected);
    assert_eq!(dispatcher.step(&Event::Waited), Action::Rejected);
    assert_eq!(dispatcher.phase(), Phase::InFlight);
    assert_eq!(dispatcher.step(&Event::Succeeded), Action::Return);
    assert_eq!(dispatcher.step(&Event::Start), Action::Rejected);
    assert_eq!(dispatcher.step(&Event::Succeeded), Action::Rejected);
    assert_eq!(dispatcher.phase(), Phase::Done);
    assert_eq!(dispatcher.attempts(), 1);
}

#[test]
fn resolve_takes_the_backoff_as_given() {
    let mut dispatcher = Dispatcher::new(&RequestConfig::default());
    assert_eq!(dispatcher.resolve(&Event::Start, None), Action::Send { attempt: 1 });
    assert_eq!(
        dispatcher.resolve(&Event::Failed(HttpError::Transport), Some(77)),
        Action::Wait { nanos: 77 }
    );
    assert_eq!(dispatcher.resolve(&Event::Waited, Some(1)), Action::Send { attempt: 2 });
    assert_eq!(dispatcher.resolve(&Event::Failed(status(500)), None), Action::Fail);
    assert_eq!(dispatcher.phase(), Phase::Done);
}

#[test]
fn classify_follows_the_kind_of_failure() {
    assert_eq!(classify(&status(500)), Verdict::Transient { retry_after: None });
    assert_eq!(classify(&status(599)), Verdict::Transient { retry_after: None });
    assert_eq!(classify(&status(600)), Verdict::Permanent);
    assert_eq!(classify(&status(499)), Verdict::Permanent);
    assert_eq!(classify(&status(404)), Verdict::Permanent);
    assert_eq!(classify(&status(429)), Verdict::Permanent);
    assert_eq!(
        classify(&HttpError::Api(ApiError::Other { status: 502 })),
        Verdict::Transient { retry_after: None }
    );
    assert_eq!(classify(&HttpError::Api(ApiError::Other { status: 400 })), Verdict::Permanent);
    assert_eq!(classify(&HttpError::Api(ApiError::Uiaa)), Verdict::Permanent);
    assert_eq!(classify(&HttpError::Transport), Verdict::Transient { retry_after: None });
    assert_eq!(classify(&HttpError::NotClientRequest), Verdict::Permanent);
    assert_eq!(classify(&HttpError::AuthenticationRequired), Verdict::Permanent);
    assert_eq!(classify(&HttpError::Malformed), Verdict::Permanent);
    assert_eq!(
        classify(&rate_limit(Some(2_000))),
        Verdict::Transient { retry_after: Some(2_000) }
    );
    assert_eq!(classify(&rate_limit(None)), Verdict::Transient { retry_after: None });
}

#[test]
fn server_errors_are_the_five_hundreds() {
    assert!(!server_error(0));
    assert!(!server_error(99));
    assert!(!server_error(200));
    assert!(!server_error(499));
    assert!(server_error(500));
    assert!(server_error(503));
    assert!(server_error(599));
    assert!(!server_error(600));
    assert!(!server_error(999));
    assert!(!server_error(1000));
    assert!(!server_error(u16::MAX));
}

#[test]
fn decide_weighs_limit_verdict_and_backoff() {
    let transient = Verdict::Transient { retry_after: None };
    let told = Verdict::Transient { retry_after: Some(9) };
    assert_eq!(decide(true, transient, Some(5)), Next::GiveUp);
    assert_eq!(decide(true, told, Some(5)), Next::GiveUp);
    assert_eq!(decide(false, Verdict::Permanent, Some(5)), Next::GiveUp);
    assert_eq!(decide(false, transient, Some(5)), Next::Retry { wait: 5 });
    assert_eq!(decide(false, transient, None), Next::GiveUp);
    assert_eq!(decide(false, told, Some(5)), Next::Retry { wait: 9 });
    assert_eq!(decide(false, told, None), Next::Retry { wait: 9 });
}

#[test]
fn clamp_wait_saturates() {
    assert_eq!(clamp_wait(None), None);
    assert_eq!(clamp_wait(Some(0)), Some(0));
    assert_eq!(clamp_wait(Some(u64::MAX as u128)), Some(u64::MAX));
    assert_eq!(clamp_wait(Some(u64::MAX as u128 + 1)), Some(u64::MAX));
    assert_eq!(clamp_wait(Some(u128::MAX)), Some(u64::MAX));
}

#[test]
fn harness_errors_map_to_failures() {
    assert_eq!(map_harness_error(HarnessError::Reqwest), HttpError::Transport);
    assert_eq!(map_harness_error(HarnessError::Url), HttpError::NotClientRequest);
    assert_eq!(map_harness_error(HarnessError::RequestFailed), HttpError::NotClientRequest);
    assert_eq!(map_harness_error(HarnessError::RequestCanceled), HttpError::NotClientRequest);
    assert_eq!(map_harness_error(HarnessError::MetricsFailed), HttpError::NotClientRequest);
    assert_eq!(map_harness_error(HarnessError::LoggerFailed), HttpError::NotClientRequest);
    assert_eq!(map_harness_error(HarnessError::InvalidMethod), HttpError::NotClientRequest);
}

#[test]
fn token_use_follows_the_config() {
    let plain = RequestConfig::default();
    let forced = RequestConfig { force_auth: true, ..plain };
    let asserting = RequestConfig { assert_identity: true, ..plain };
    let both = RequestConfig { assert_identity: true, force_auth: true, ..plain };
    assert_eq!(HttpClient::serialize_request(&plain, false, false), TokenUse::Absent);
    assert_eq!(HttpClient::serialize_request(&plain, false, true), TokenUse::Absent);
    assert_eq!(HttpClient::serialize_request(&forced, false, true), TokenUse::Absent);
    assert_eq!(HttpClient::serialize_request(&asserting, false, true), TokenUse::Absent);
    assert_eq!(HttpClient::serialize_request(&plain, true, true), TokenUse::IfRequired);
    assert_eq!(HttpClient::serialize_request(&plain, true, false), TokenUse::IfRequired);
    assert_eq!(HttpClient::serialize_request(&forced, true, false), TokenUse::Always);
    assert_eq!(HttpClient::serialize_request(&forced, true, true), TokenUse::Always);
    assert_eq!(HttpClient::serialize_request(&asserting, true, true), TokenUse::AlwaysWithUserId);
    assert_eq!(HttpClient::serialize_request(&asserting, true, false), TokenUse::IfRequired);
    assert_eq!(HttpClient::serialize_request(&both, true, true), TokenUse::AlwaysWithUserId);
    assert_eq!(HttpClient::serialize_request(&both, true, false), TokenUse::Always);
}

#[test]
fn client_endpoints_are_admitted() {
    assert!(admits_scheme(AuthScheme::AccessToken));
    assert!(admits_scheme(AuthScheme::Unauthenticated));
    assert!(!admits_scheme(AuthScheme::ServerSignatures));
}

#[test]
fn send_refuses_what_is_not_for_clients() {
    let mut client = HttpClient::new(RequestConfig::default());
    match client.send(AuthScheme::ServerSignatures, None, true, true) {
        Err(e) => assert_eq!(e, HttpError::NotClientRequest),
        Ok(_) => panic!("a server endpoint was taken on"),
    }
    match client.send(AuthScheme::AccessToken, None, true, true) {
        Ok(out) => assert_eq!(out.request_id, 1),
        Err(e) => panic!("refused: {:?}", e),
    }
}

#[test]
fn send_numbers_requests_and_picks_the_config() {
    let own = RequestConfig { retry_limit: Some(7), ..RequestConfig::default() };
    let mut client = HttpClient::new(own);
    let first = client.send(AuthScheme::AccessToken, None, true, false).ok().unwrap();
    assert_eq!(first.request_id, 0);
    assert_eq!(first.config, own);
    assert_eq!(first.token_use, TokenUse::IfRequired);
    assert_eq!(first.dispatcher.phase(), Phase::Idle);
    assert_eq!(first.dispatcher.attempts(), 0);

    let given = RequestConfig { force_auth: true, retry_limit: Some(1), ..RequestConfig::default() };
    let mut second = client.send(AuthScheme::Unauthenticated, Some(given), true, false).ok().unwrap();
    assert_eq!(second.request_id, 1);
    assert_eq!(second.config, given);
    assert_eq!(second.token_use, TokenUse::Always);
    let (ok, attempts, _) = run(&mut second.dispatcher, &[Some(HttpError::Transport), None]);
    assert!(!ok);
    assert_eq!(attempts, 1);

    assert_eq!(client.get_request_id(), 2);
    assert_eq!(client.get_request_id(), 3);
}

#[test]
fn without_a_retry_timeout_a_passing_failure_always_gets_a_wait() {
    let mut dispatcher = Dispatcher::new(&RequestConfig::default());
    let mut action = dispatcher.step(&Event::Start);
    for attempt in 1..=40u64 {
        assert_eq!(action, Action::Send { attempt });
        match dispatcher.step(&Event::Failed(HttpError::Transport)) {
            Action::Wait { .. } => {}
            other => panic!("attempt {}: expected a wait, got {:?}", attempt, other),
        }
        action = dispatcher.step(&Event::Waited);
    }
}

#[test]
fn retry_timeout_reaches_the_schedule() {
    let long = RequestConfig { retry_timeout: Some(3_600_000_000_000), ..RequestConfig::default() };
    let mut dispatcher = Dispatcher::new(&long);
    dispatcher.step(&Event::Start);
    assert!(matches!(dispatcher.step(&Event::Failed(HttpError::Transport)), Action::Wait { .. }));

    let none = RequestConfig { retry_timeout: Some(0), ..RequestConfig::default() };
    let mut dispatcher = Dispatcher::new(&none);
    dispatcher.step(&Event::Start);
    assert_eq!(dispatcher.step(&Event::Failed(HttpError::Transport)), Action::Fail);
}
