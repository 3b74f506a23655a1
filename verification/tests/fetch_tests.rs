use nuget::errors::DownloadCause;
use nuget::errors::Error;
use nuget::fetch::collect_downloads;
use nuget::fetch::DownloadedDependency;
use nuget::fetch::FetchEvent;
use nuget::fetch::FetchState;
use nuget::fetch::FetchStep;
use nuget::manifest::Dependency;

fn redirect_to(url: &str) -> FetchEvent {
    FetchEvent::Response { status: 302, location: Some(url.to_string()), body: Vec::new() }
}

fn success(body: &[u8]) -> FetchEvent {
    FetchEvent::Response { status: 200, location: None, body: body.to_vec() }
}

#[test]
fn start_has_full_budget_and_registry_url() {
    let d = Dependency::new("Acme.Widgets".to_string(), "1.2.3".to_string());
    let s = FetchState::start(&d);
    assert_eq!(s.url, "https://www.nuget.org/api/v2/package/Acme.Widgets/1.2.3");
    assert_eq!(s.redirects_left, 5);
}

#[test]
fn five_redirects_then_success_yields_payload() {
    let d = Dependency::new("Acme.Widgets".to_string(), "1.2.3".to_string());
    let mut state = FetchState::start(&d);
    for hop in 0..5 {
        let next = format!("https://mirror.example/{}", hop);
        match state.step(redirect_to(&next)) {
            FetchStep::Continue(s) => {
                assert_eq!(s.url, next);
                state = s;
            }
            _ => panic!("redirect {} should continue", hop),
        }
    }
    assert_eq!(state.redirects_left, 0);
    match state.step(success(&[7, 8, 9])) {
        FetchStep::Fetched(body) => assert_eq!(body, vec![7, 8, 9]),
        _ => panic!("the final 200 should yield the payload"),
    }
}

#[test]
fn six_redirects_fail_with_too_many_redirects() {
    let d = Dependency::new("Acme.Widgets".to_string(), "1.2.3".to_string());
    let mut state = FetchState::start(&d);
    for hop in 0..5 {
        let next = format!("https://mirror.example/{}", hop);
        match state.step(redirect_to(&next)) {
            FetchStep::Continue(s) => state = s,
            _ => panic!("redirect {} should continue", hop),
        }
    }
    match state.step(redirect_to("https://mirror.example/final")) {
        FetchStep::Failed(DownloadCause::TooManyRedirects) => {}
        _ => panic!("the sixth redirect should exhaust the budget"),
    }
}

#[test]
fn non_success_status_fails_with_that_status() {
    let d = Dependency::new("A".to_string(), "1".to_string());
    let state = FetchState::start(&d);
    let event = FetchEvent::Response { status: 500, location: None, body: Vec::new() };
    match state.step(event) {
        FetchStep::Failed(DownloadCause::Status(500)) => {}
        _ => panic!("a 500 should fail with its status code"),
    }
}

#[test]
fn redirect_without_location_fails() {
    let d = Dependency::new("A".to_string(), "1".to_string());
    let state = FetchState::start(&d);
    let event = FetchEvent::Response { status: 302, location: None, body: Vec::new() };
    match state.step(event) {
        FetchStep::Failed(DownloadCause::MissingLocation) => {}
        _ => panic!("a redirect without a Location header should fail"),
    }
}

#[test]
fn transport_failure_carries_the_underlying_cause() {
    let d = Dependency::new("A".to_string(), "1".to_string());
    let state = FetchState::start(&d);
    match state.step(FetchEvent::TransportFailure("connection reset".to_string())) {
        FetchStep::Failed(DownloadCause::Transport(cause)) => {
            assert_eq!(cause, "connection reset");
        }
        _ => panic!("a transport failure should carry the transport cause"),
    }
}

fn payload(name: &str, bytes: &[u8]) -> Result<DownloadedDependency, Error> {
    Ok(DownloadedDependency {
        dependency: Dependency::new(name.to_string(), "1.0".to_string()),
        bytes: bytes.to_vec(),
    })
}

#[test]
fn all_successes_yield_every_payload_in_order() {
    let results = vec![payload("a", &[1]), payload("b", &[2]), payload("c", &[3])];
    let v = collect_downloads(results).unwrap();
    assert_eq!(v.len(), 3);
    assert_eq!(v[0].dependency.name, "a");
    assert_eq!(v[1].dependency.name, "b");
    assert_eq!(v[2].dependency.name, "c");
    assert_eq!(v[2].bytes, vec![3]);
}

#[test]
fn middle_failure_wins_and_names_its_dependency() {
    let n = 6;
    let mut results = Vec::new();
    for i in 0..n {
        if i == n / 2 {
            results.push(Err(Error::DownloadError(
                format!("dep{}", i),
                DownloadCause::Status(500),
            )));
        } else {
            results.push(payload(&format!("dep{}", i), &[i as u8]));
        }
    }
    match collect_downloads(results) {
        Err(Error::DownloadError(name, DownloadCause::Status(500))) => {
            assert_eq!(name, "dep3");
        }
        _ => panic!("the batch must fail with the 500 of dep3"),
    }
}

#[test]
fn first_of_two_failures_wins() {
    let results = vec![
        payload("a", &[1]),
        Err(Error::DownloadError("b".to_string(), DownloadCause::TooManyRedirects)),
        Err(Error::DownloadError("c".to_string(), DownloadCause::Transport("timeout".to_string()))),
    ];
    match collect_downloads(results) {
        Err(Error::DownloadError(name, DownloadCause::TooManyRedirects)) => {
            assert_eq!(name, "b");
        }
        _ => panic!("the earliest failure must decide the batch"),
    }
}

#[test]
fn empty_batch_succeeds_with_nothing() {
    let v = collect_downloads(Vec::new()).unwrap();
    assert_eq!(v.len(), 0);
}
