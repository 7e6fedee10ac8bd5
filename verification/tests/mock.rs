use mocktentacle::Mock;

const F: u64 = 2;

/// Host-side lifecycle guard: discarding a registry that still holds live
/// mocks without verifying it first is a usage error and fatal.
struct Harness {
    mock: Mock<i32>,
}

impl Drop for Harness {
    fn drop(&mut self) {
        if self.mock.pending() {
            panic!("Forgot to call Mock::verify()");
        }
    }
}

#[test]
#[should_panic]
fn when_no_verify_should_panic() {
    let mut harness = Harness { mock: Mock::new() };
    harness.mock.expect(F).answer(1);
    let outcome = harness.mock.call(F);
    assert_eq!(outcome, Ok(1));
}

#[test]
fn drop_after_verify_is_clean() {
    let mut harness = Harness { mock: Mock::new() };
    harness.mock.expect(F).answer(1);
    let outcome = harness.mock.call(F);
    assert_eq!(outcome, Ok(1));
    let report = harness.mock.verify();
    assert!(report.is_empty());
    assert!(!harness.mock.pending());
}

#[test]
fn registry_is_reusable_after_verify() {
    let mut mock: Mock<i32> = Mock::new();
    mock.expect(F).answer(1);
    assert_eq!(mock.call(F), Ok(1));
    assert!(mock.verify().is_empty());
    mock.expect(F).answer(9);
    assert_eq!(mock.call(F), Ok(9));
    assert!(mock.verify().is_empty());
}

#[test]
fn queues_of_distinct_functions_are_independent() {
    let mut mock: Mock<i32> = Mock::new();
    mock.expect(3).answer(30);
    mock.expect(4).answer(40).times(2);
    assert_eq!(mock.call(4), Ok(40));
    assert_eq!(mock.call(3), Ok(30));
    assert_eq!(mock.call(4), Ok(40));
    assert!(mock.verify().is_empty());
}

#[test]
fn is_mocked_tracks_registration_and_release() {
    let mut mock: Mock<i32> = Mock::new();
    assert!(!mock.is_mocked(F));
    mock.expect(F).answer(1).times(0);
    assert!(mock.is_mocked(F));
    assert!(!mock.is_mocked(9));
    assert!(mock.verify().is_empty());
    assert!(!mock.is_mocked(F));
}
