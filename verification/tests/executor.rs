use request_core::bridge::{await_while_open, startup_report, Client, Race, Timeout};
use request_core::error::{request, Cause, Error, Kind};
use request_core::executor::{
    execute_blocking_flatten_timeout, ParkingExecutor, Permit, TimedOut, Verdict, Wait,
};
use request_core::headers::HeaderMap;
use request_core::request::RequestBuilder;
use request_core::task::{Accepts, Response};
use request_core::body::Body;
use request_core::time::Span;
use request_core::url::Url;

fn at(millis: u64) -> Span {
    Span::from_millis(millis)
}

#[test]
fn unbounded_wait_parks_until_ready() {
    let executor = ParkingExecutor::start(at(5), None, false);
    assert_eq!(executor.deadline, None);
    assert!(matches!(executor.after_attempt(None::<u8>, at(5)), Verdict::Park(Wait::Forever)));
    assert!(matches!(executor.after_attempt(None::<u8>, at(5_000_000)), Verdict::Park(Wait::Forever)));
    assert!(matches!(executor.after_attempt(Some(7u8), at(6)), Verdict::Finished(7)));
}

#[test]
fn ten_millisecond_deadline_times_out_a_task_that_never_resolves() {
    let executor = ParkingExecutor::start(at(1_000), Some(at(10)), false);
    assert_eq!(executor.deadline, Some(Span { secs: 1, nanos: 10_000_000 }));
    let mut now = at(1_000);
    let mut parks = 0;
    loop {
        match executor.after_attempt(None::<()>, now) {
            Verdict::Park(Wait::UpTo(left)) => {
                assert_eq!(left, Span { secs: 0, nanos: 10_000_000 - parks * 3_000_000 });
                parks += 1;
                now = now.checked_add(&at(3)).unwrap();
            }
            Verdict::TimedOut => break,
            other => panic!("{:?}", other),
        }
    }
    assert_eq!(parks, 4);
    assert!(now.at_least(&executor.deadline.unwrap()));
    assert!(!now.at_least(&at(1_100)));
    assert!(matches!(executor.after_attempt(None::<()>, at(1_010)), Verdict::TimedOut));
    assert!(matches!(
        executor.after_attempt(None::<()>, Span { secs: 1, nanos: 9_999_999 }),
        Verdict::Park(Wait::UpTo(Span { secs: 0, nanos: 1 }))
    ));
}

#[test]
fn ready_task_wins_over_a_passed_deadline() {
    let executor = ParkingExecutor::start(at(0), Some(at(10)), false);
    assert!(matches!(executor.after_attempt(Some("done"), at(99)), Verdict::Finished("done")));
}

#[test]
fn deadline_that_cannot_be_counted_is_the_last_point() {
    let far = Span { secs: u64::MAX, nanos: 999_999_999 };
    let executor = ParkingExecutor::start(at(1), Some(far), false);
    assert_eq!(executor.deadline, Some(far));
    match executor.after_attempt(None::<()>, at(1)) {
        Verdict::Park(Wait::UpTo(left)) => assert_eq!(left, Span { secs: u64::MAX, nanos: 998_999_999 }),
        other => panic!("{:?}", other),
    }
}

#[test]
fn unpark_before_park_is_kept_once() {
    let mut permit = Permit::new();
    assert!(permit.park());
    permit.unpark();
    permit.unpark();
    assert!(!permit.park());
    assert!(permit.park());
    assert!(!permit.available);
}

#[test]
fn flatten_timeout_maps_the_three_outcomes() {
    let fine: Result<Result<u8, String>, TimedOut> = Ok(Ok(3));
    assert_eq!(execute_blocking_flatten_timeout(fine, |_t: TimedOut| "late".to_string()), Ok(3));
    let failed: Result<Result<u8, String>, TimedOut> = Ok(Err("broken".to_string()));
    assert_eq!(
        execute_blocking_flatten_timeout(failed, |_t: TimedOut| "late".to_string()),
        Err("broken".to_string())
    );
    let late: Result<Result<u8, String>, TimedOut> = Err(TimedOut);
    assert_eq!(
        execute_blocking_flatten_timeout(late, |_t: TimedOut| "late".to_string()),
        Err("late".to_string())
    );
}

#[test]
fn request_timeout_overrides_the_client_default() {
    let client = Client::with_timeout(Timeout::default());
    assert_eq!(client.timeout, Timeout(Some(Span::from_secs(30))));
    let plain = RequestBuilder::get("https://a.example/").build().unwrap();
    assert_eq!(client.timeout_for(&plain), Some(Span::from_secs(30)));
    let own = RequestBuilder::get("https://a.example/").timeout(at(10)).build().unwrap();
    assert_eq!(client.timeout_for(&own), Some(at(10)));
    let longer = RequestBuilder::get("https://a.example/").timeout(Span::from_secs(90)).build().unwrap();
    assert_eq!(client.timeout_for(&longer), Some(Span::from_secs(90)));
    let patient = Client::with_timeout(Timeout(None));
    assert_eq!(patient.timeout_for(&plain), None);
    assert_eq!(patient.timeout_for(&own), Some(at(10)));
}

fn response() -> Response {
    Response {
        status: 200,
        headers: HeaderMap::new(),
        url: Url::parse("https://a.example/final").unwrap(),
        accepts: Accepts { gzip: true },
        body: Body::response(false),
    }
}

#[test]
fn conclude_binds_failures_to_the_url() {
    let client = Client::with_timeout(Timeout::default());
    let sent_to = || Url::parse("https://a.example/sent").unwrap();

    let ok = client.conclude(Ok(Ok(response())), sent_to()).unwrap();
    assert_eq!(ok.status, 200);
    assert_eq!(ok.url.as_str(), "https://a.example/final");

    let failed: Error = request(Cause::Other("reset".to_string()));
    let err = client.conclude(Ok(Err(failed)), sent_to()).unwrap_err();
    assert_eq!(err.kind, Kind::Request);
    assert!(matches!(err.cause, Cause::Other(ref m) if m == "reset"));
    assert_eq!(err.url().unwrap().as_str(), "https://a.example/sent");

    let err = client.conclude(Err(TimedOut), sent_to()).unwrap_err();
    assert!(err.is_request() && err.is_timeout());
    assert_eq!(err.url().unwrap().as_str(), "https://a.example/sent");
}

#[test]
fn dropped_caller_is_sent_nothing() {
    assert!(matches!(await_while_open(None::<u8>, true), Race::Cancelled));
    assert!(matches!(await_while_open(None::<u8>, false), Race::Pending));
    assert!(matches!(await_while_open(Some(1u8), false), Race::Send(1)));
    assert!(matches!(await_while_open(Some(1u8), true), Race::Cancelled));
    let mut looks = 0;
    while let Race::Pending = await_while_open(None::<u8>, looks == 3) {
        looks += 1;
    }
    assert_eq!(looks, 3);
}

#[test]
fn startup_failure_is_a_builder_error() {
    assert!(startup_report(None).is_ok());
    let err = startup_report(Some("no reactor".to_string())).unwrap_err();
    assert!(err.is_builder());
    assert!(matches!(err.cause, Cause::Other(ref m) if m == "no reactor"));
    assert!(err.url().is_none());
}

#[test]
fn spans_add_subtract_and_compare() {
    assert_eq!(Span::from_millis(1_500), Span { secs: 1, nanos: 500_000_000 });
    assert_eq!(Span::from_secs(2), Span { secs: 2, nanos: 0 });
    let a = Span { secs: 1, nanos: 900_000_000 };
    let b = Span { secs: 0, nanos: 200_000_000 };
    assert_eq!(a.checked_add(&b), Some(Span { secs: 2, nanos: 100_000_000 }));
    assert_eq!(a.saturating_sub(&b), Span { secs: 1, nanos: 700_000_000 });
    assert_eq!(Span { secs: 2, nanos: 0 }.saturating_sub(&b), Span { secs: 1, nanos: 800_000_000 });
    assert_eq!(b.saturating_sub(&a), Span { secs: 0, nanos: 0 });
    assert!(a.at_least(&b) && a.at_least(&a) && !b.at_least(&a));
    assert!(Span { secs: 2, nanos: 0 }.at_least(&a));
    assert_eq!(Span { secs: u64::MAX, nanos: 999_999_999 }.checked_add(&Span { secs: 0, nanos: 1 }), None);
    assert_eq!(
        Span { secs: u64::MAX, nanos: 0 }.checked_add(&Span { secs: 0, nanos: 999_999_999 }),
        Some(Span { secs: u64::MAX, nanos: 999_999_999 })
    );
}
