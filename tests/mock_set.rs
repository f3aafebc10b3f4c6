use mock_registry::active_mock::ActiveMock;
use mock_registry::mock_set::{ActiveMockSet, MockIdError};
use mock_registry::request::{Matcher, Mock, Request, ResponseTemplate};
use mock_registry::verification::{VerificationOutcome, VerificationReport};

fn path_mock(path: &str, status: u16, body: &[u8], min: u64, max: Option<u64>) -> Mock {
    Mock {
        matcher: Matcher { method: None, path: Some(path.to_string()) },
        response: ResponseTemplate { status, body: body.to_vec(), delay_ms: None },
        expected_min: min,
        expected_max: max,
    }
}

fn get(path: &str) -> Request {
    Request { method: "GET".to_string(), path: path.to_string(), body: Vec::new() }
}

#[test]
fn generation_is_incremented_for_every_reset() {
    let mut set = ActiveMockSet::new();
    assert_eq!(set.generation(), 0);

    for i in 1..10 {
        set.reset();
        assert_eq!(set.generation(), i);
    }
}

#[test]
fn first_registered_match_wins() {
    let mut set = ActiveMockSet::new();
    set.register(path_mock("/other", 500, b"", 0, None));
    let first = set.register(path_mock("/a", 200, b"first", 0, None));
    let second = set.register(path_mock("/a", 201, b"second", 0, None));
    let (response, delay) = set.handle_request(&get("/a"));
    assert_eq!(response.status, 200);
    assert_eq!(response.body, b"first".to_vec());
    assert_eq!(delay, None);
    assert_eq!(set.verify(first).unwrap().n_matched_requests, 1);
    assert_eq!(set.verify(second).unwrap().n_matched_requests, 0);
}

#[test]
fn two_stubs_verified_as_requests_arrive() {
    let mut set = ActiveMockSet::new();
    let a = set.register(path_mock("/a", 200, b"a", 1, Some(1)));
    let b = set.register(path_mock("/b", 200, b"b", 1, Some(1)));
    let (response, _) = set.handle_request(&get("/a"));
    assert_eq!(response.status, 200);
    assert_eq!(response.body, b"a".to_vec());
    assert_eq!(set.verify(a).unwrap().n_matched_requests, 1);
    match set.verify_all() {
        VerificationOutcome::Failure(failed) => {
            assert_eq!(
                failed,
                vec![VerificationReport {
                    position: 1,
                    n_matched_requests: 0,
                    expected_min: 1,
                    expected_max: Some(1),
                }]
            );
        }
        VerificationOutcome::Success => panic!("stub b was never called"),
    }
    assert_eq!(set.verify(b).unwrap().n_matched_requests, 0);
    set.handle_request(&get("/b"));
    assert!(matches!(set.verify_all(), VerificationOutcome::Success));
}

#[test]
fn deactivated_stub_no_longer_matches_but_is_verified() {
    let mut set = ActiveMockSet::new();
    let c = set.register(path_mock("/x", 200, b"x", 1, None));
    assert_eq!(set.deactivate(c), Ok(()));
    let (response, delay) = set.handle_request(&get("/x"));
    assert_eq!(response.status, 404);
    assert!(response.body.is_empty());
    assert_eq!(delay, None);
    let report = set.verify(c).unwrap();
    assert_eq!(report.n_matched_requests, 0);
    assert!(!report.is_satisfied());
    match set.verify_all() {
        VerificationOutcome::Failure(failed) => assert_eq!(failed, vec![report]),
        VerificationOutcome::Success => panic!("the deactivated stub is unsatisfied"),
    }
}

#[test]
fn stale_handle_is_refused_after_reset() {
    let mut set = ActiveMockSet::new();
    let old = set.register(path_mock("/a", 200, b"", 0, None));
    set.reset();
    assert_eq!(set.deactivate(old), Err(MockIdError::Stale));
    let fresh = set.register(path_mock("/a", 200, b"", 0, None));
    assert_eq!(fresh.index(), old.index());
    assert_eq!(set.deactivate(old), Err(MockIdError::Stale));
    assert_eq!(set.verify(old), Err(MockIdError::Stale));
    assert_eq!(set.verify(fresh).unwrap().position, 0);
}

#[test]
fn handle_from_another_registry_is_refused() {
    let mut big = ActiveMockSet::new();
    big.register(path_mock("/a", 200, b"", 0, None));
    let foreign = big.register(path_mock("/b", 200, b"", 0, None));
    let mut small = ActiveMockSet::new();
    assert_eq!(small.verify(foreign), Err(MockIdError::UnknownIndex));
    assert_eq!(small.deactivate(foreign), Err(MockIdError::UnknownIndex));
}

#[test]
fn unmatched_request_gets_not_found() {
    let mut set = ActiveMockSet::new();
    let a = set.register(path_mock("/a", 200, b"a", 0, None));
    let (response, delay) = set.handle_request(&get("/nowhere"));
    assert_eq!(response.status, 404);
    assert_eq!(delay, None);
    assert_eq!(set.verify(a).unwrap().n_matched_requests, 0);
}

#[test]
fn delay_of_the_matched_template_is_returned() {
    let mut set = ActiveMockSet::new();
    let mut mock = path_mock("/slow", 200, b"late", 0, None);
    mock.response.delay_ms = Some(250);
    set.register(mock);
    let (response, delay) = set.handle_request(&get("/slow"));
    assert_eq!(response.body, b"late".to_vec());
    assert_eq!(delay, Some(250));
}

#[test]
fn method_and_path_must_both_match() {
    let mut set = ActiveMockSet::new();
    let post = set.register(Mock {
        matcher: Matcher { method: Some("POST".to_string()), path: Some("/a".to_string()) },
        response: ResponseTemplate { status: 201, body: Vec::new(), delay_ms: None },
        expected_min: 0,
        expected_max: None,
    });
    let (response, _) = set.handle_request(&get("/a"));
    assert_eq!(response.status, 404);
    let mut request = get("/a");
    request.method = "POST".to_string();
    let (response, _) = set.handle_request(&request);
    assert_eq!(response.status, 201);
    assert_eq!(set.verify(post).unwrap().n_matched_requests, 1);
}

#[test]
fn any_matcher_takes_every_request() {
    let mut set = ActiveMockSet::new();
    set.register(Mock {
        matcher: Matcher::any(),
        response: ResponseTemplate { status: 204, body: Vec::new(), delay_ms: None },
        expected_min: 0,
        expected_max: None,
    });
    assert_eq!(set.handle_request(&get("/anything")).0.status, 204);
}

#[test]
fn verify_all_lists_failures_in_registration_order() {
    let mut set = ActiveMockSet::new();
    set.register(path_mock("/a", 200, b"", 1, None));
    set.register(path_mock("/b", 200, b"", 0, None));
    set.register(path_mock("/c", 200, b"", 0, Some(0)));
    set.handle_request(&get("/c"));
    match set.verify_all() {
        VerificationOutcome::Failure(failed) => {
            let positions: Vec<usize> = failed.iter().map(|r| r.position).collect();
            assert_eq!(positions, vec![0, 2]);
            assert_eq!(failed[1].n_matched_requests, 1);
            assert_eq!(failed[1].expected_max, Some(0));
        }
        VerificationOutcome::Success => panic!("two stubs are unsatisfied"),
    }
}

#[test]
fn empty_registry_verifies() {
    let set = ActiveMockSet::new();
    assert_eq!(set.len(), 0);
    assert!(matches!(set.verify_all(), VerificationOutcome::Success));
}

#[test]
fn stub_record_counts_calls() {
    let mut stub = ActiveMock::new(path_mock("/a", 200, b"", 2, Some(3)), 4);
    assert!(stub.matches(&get("/a")));
    stub.response_template();
    stub.response_template();
    let report = stub.verify();
    assert_eq!(report.position, 4);
    assert_eq!(report.n_matched_requests, 2);
    assert!(report.is_satisfied());
    stub.deactivate();
    assert!(!stub.matches(&get("/a")));
}
