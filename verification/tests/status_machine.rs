use libtranslate::catalog::ServiceKind;
use libtranslate::dispatcher::{Dispatcher, Service, ServiceStatus};
use libtranslate::health::{
    CEILING_BLOCK_DELAY, DEBOUNCE_WINDOW, FIRST_BLOCK_DELAY, LAST_INSTANT, RETRY_DELAY, SECOND,
    SECOND_BLOCK_DELAY, THIRD_BLOCK_DELAY,
};
use libtranslate::Error;

fn failure() -> Result<(), Error> {
    Err(Error::ReturnedEmptyResult)
}

fn success() -> Result<(), Error> {
    Ok(())
}

fn any_dispatcher() -> Dispatcher {
    Dispatcher::default(ServiceKind::Translator).unwrap()
}

#[test]
fn test_status_machine() {
    let mut service = Service::new(100);
    assert_eq!(service.status(), ServiceStatus::Ready);
    assert!(service.last_error().is_none());
    assert_eq!(service.last_error_time(), None);
    assert_eq!(service.total_req_times(), 0);

    // The first failure opens the streak and leaves the status alone.
    let began = 5 * SECOND;
    Dispatcher::handle_result(&mut service, &failure(), began);
    assert_eq!(service.status(), ServiceStatus::Ready);
    assert_eq!(service.last_error_time(), Some(began));
    assert!(matches!(service.last_error(), Some(Error::ReturnedEmptyResult)));

    // From then on each failure that is late enough escalates by one step.
    let expected = [
        ServiceStatus::Retry(3, 0),
        ServiceStatus::Retry(2, 0),
        ServiceStatus::Retry(1, 0),
        ServiceStatus::Blocking(1, 0),
        ServiceStatus::Blocking(2, 0),
        ServiceStatus::Blocking(3, 0),
        ServiceStatus::Blocking(3, 0),
        ServiceStatus::Blocking(3, 0),
    ];
    let windows = [
        SECOND,
        SECOND,
        SECOND,
        3 * SECOND,
        60 * SECOND,
        300 * SECOND,
        3600 * SECOND,
        3600 * SECOND,
    ];
    let mut now = began + SECOND + 1;
    for step in 0..expected.len() {
        Dispatcher::handle_result(&mut service, &failure(), now);
        let status = service.status();
        match (expected[step], status) {
            (ServiceStatus::Retry(want, _), ServiceStatus::Retry(left, until)) => {
                assert_eq!(left, want);
                assert_eq!(until, now + windows[step]);
            }
            (ServiceStatus::Blocking(want, _), ServiceStatus::Blocking(level, until)) => {
                assert_eq!(level, want);
                assert_eq!(until, now + windows[step]);
            }
            other => panic!("step {}: {:?}", step, other),
        }
        assert_eq!(service.last_error_time(), Some(began));
        now += 7;
    }
    assert_eq!(service.total_req_times(), 9);
    assert_eq!(service.succ_req_times(), 0);

    // One success resets everything but the counters.
    Dispatcher::handle_result(&mut service, &success(), now);
    assert_eq!(service.status(), ServiceStatus::Ready);
    assert!(service.last_error().is_none());
    assert_eq!(service.last_error_time(), None);
    assert_eq!(service.total_req_times(), 10);
    assert_eq!(service.succ_req_times(), 1);
    assert_eq!(service.consecutive_succ_req_times(), 1);
}

#[test]
fn windows_have_their_lengths() {
    assert_eq!(SECOND, 1_000_000_000);
    assert_eq!(DEBOUNCE_WINDOW, SECOND);
    assert_eq!(RETRY_DELAY, SECOND);
    assert_eq!(FIRST_BLOCK_DELAY, 3 * SECOND);
    assert_eq!(SECOND_BLOCK_DELAY, 60 * SECOND);
    assert_eq!(THIRD_BLOCK_DELAY, 300 * SECOND);
    assert_eq!(CEILING_BLOCK_DELAY, 3600 * SECOND);
    assert_eq!(LAST_INSTANT, u64::MAX - 3600 * SECOND);
}

#[test]
fn two_failures_within_a_second_do_not_escalate() {
    let mut service = Service::new(7);
    Dispatcher::handle_result(&mut service, &failure(), 10 * SECOND);
    Dispatcher::handle_result(&mut service, &failure(), 10 * SECOND + SECOND / 2);
    assert_eq!(service.status(), ServiceStatus::Ready);
    assert_eq!(service.last_error_time(), Some(10 * SECOND));
    assert_eq!(service.total_req_times(), 2);
}

#[test]
fn a_failure_exactly_one_second_late_does_not_escalate() {
    let mut service = Service::new(7);
    Dispatcher::handle_result(&mut service, &failure(), 10 * SECOND);
    Dispatcher::handle_result(&mut service, &failure(), 11 * SECOND);
    assert_eq!(service.status(), ServiceStatus::Ready);
    Dispatcher::handle_result(&mut service, &failure(), 11 * SECOND + 1);
    assert_eq!(service.status(), ServiceStatus::Retry(3, 12 * SECOND + 1));
}

#[test]
fn ready_is_left_once_by_two_late_failures() {
    let mut service = Service::new(7);
    Dispatcher::handle_result(&mut service, &failure(), 0);
    Dispatcher::handle_result(&mut service, &failure(), 2 * SECOND);
    assert_eq!(service.status(), ServiceStatus::Retry(3, 3 * SECOND));
    // Half a second later: far from the first failure of the streak, so it
    // escalates again, from three retries left to two.
    Dispatcher::handle_result(&mut service, &failure(), 2 * SECOND + SECOND / 2);
    assert_eq!(service.status(), ServiceStatus::Retry(2, 3 * SECOND + SECOND / 2));
}

#[test]
fn an_earlier_clock_reading_does_not_escalate() {
    let mut service = Service::new(7);
    Dispatcher::handle_result(&mut service, &failure(), 50 * SECOND);
    Dispatcher::handle_result(&mut service, &failure(), 20 * SECOND);
    assert_eq!(service.status(), ServiceStatus::Ready);
    assert_eq!(service.last_error_time(), Some(50 * SECOND));
}

#[test]
fn success_resets_a_blocked_backend() {
    let mut service = Service::new(7);
    let mut now = 0;
    for _ in 0..6 {
        Dispatcher::handle_result(&mut service, &failure(), now);
        now += 2 * SECOND;
    }
    assert_eq!(service.status(), ServiceStatus::Blocking(2, 10 * SECOND + 60 * SECOND));
    Dispatcher::handle_result(&mut service, &success(), now);
    assert_eq!(service.status(), ServiceStatus::Ready);
    assert!(service.last_error().is_none());
    assert_eq!(service.last_error_time(), None);
    assert_eq!(service.consecutive_succ_req_times(), 1);
    assert_eq!(any_dispatcher().calc_weight(&service, now), 7);
    // The next failure opens a new streak.
    Dispatcher::handle_result(&mut service, &failure(), now + 5 * SECOND);
    assert_eq!(service.status(), ServiceStatus::Ready);
    assert_eq!(service.last_error_time(), Some(now + 5 * SECOND));
    assert_eq!(service.consecutive_succ_req_times(), 0);
}

#[test]
fn the_last_error_is_the_latest() {
    let mut service = Service::new(7);
    let first: Result<(), Error> = Err(Error::Status("503 unavailable".to_string()));
    let second: Result<(), Error> = Err(Error::JSONParsingError("eof".to_string()));
    Dispatcher::handle_result(&mut service, &first, 1);
    match service.last_error() {
        Some(Error::Status(text)) => assert_eq!(text, "503 unavailable"),
        other => panic!("{:?}", other),
    }
    Dispatcher::handle_result(&mut service, &second, 2);
    match service.last_error() {
        Some(Error::JSONParsingError(text)) => assert_eq!(text, "eof"),
        other => panic!("{:?}", other),
    }
}

#[test]
fn weight_is_zero_inside_the_window_and_static_after() {
    let dispatcher = any_dispatcher();
    let mut service = Service::new(250);
    assert_eq!(dispatcher.calc_weight(&service, 0), 250);
    Dispatcher::handle_result(&mut service, &failure(), 0);
    assert_eq!(dispatcher.calc_weight(&service, 1), 250);
    Dispatcher::handle_result(&mut service, &failure(), 2 * SECOND);
    assert_eq!(service.status(), ServiceStatus::Retry(3, 3 * SECOND));
    assert_eq!(dispatcher.calc_weight(&service, 2 * SECOND), 0);
    assert_eq!(dispatcher.calc_weight(&service, 3 * SECOND - 1), 0);
    assert_eq!(dispatcher.calc_weight(&service, 3 * SECOND), 250);
    assert_eq!(dispatcher.calc_weight(&service, 4 * SECOND), 250);
}

#[test]
fn a_poor_success_rate_does_not_lower_the_weight() {
    let dispatcher = any_dispatcher();
    let mut service = Service::new(1000);
    // 60 successes, then 140 failures within one debounce window: a rate
    // of three in ten on a sample of two hundred, and no backoff.
    for _ in 0..60 {
        Dispatcher::handle_result(&mut service, &success(), 0);
    }
    for _ in 0..140 {
        Dispatcher::handle_result(&mut service, &failure(), 10);
    }
    assert_eq!(service.total_req_times(), 200);
    assert_eq!(service.succ_req_times(), 60);
    assert_eq!(service.consecutive_succ_req_times(), 0);
    assert_eq!(service.status(), ServiceStatus::Ready);
    assert_eq!(dispatcher.calc_weight(&service, 20), 1000);
}

#[test]
fn a_run_of_successes_keeps_the_weight() {
    let dispatcher = any_dispatcher();
    let mut service = Service::new(1000);
    for _ in 0..150 {
        Dispatcher::handle_result(&mut service, &success(), 0);
    }
    assert_eq!(service.consecutive_succ_req_times(), 150);
    assert_eq!(dispatcher.calc_weight(&service, 20), 1000);
}

#[test]
fn a_failure_at_the_last_instant_is_recorded() {
    let mut service = Service::new(1);
    Dispatcher::handle_result(&mut service, &failure(), 0);
    for _ in 0..8 {
        Dispatcher::handle_result(&mut service, &failure(), LAST_INSTANT);
    }
    assert_eq!(service.status(), ServiceStatus::Blocking(3, u64::MAX));
    assert_eq!(any_dispatcher().calc_weight(&service, u64::MAX - 1), 0);
    assert_eq!(any_dispatcher().calc_weight(&service, u64::MAX), 1);
}
