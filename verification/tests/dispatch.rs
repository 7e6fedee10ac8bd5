use mocktentacle::{CallError, Mismatch, Mock};

const F: u64 = 5;

#[test]
fn two_then_one_consumes_in_declaration_order() {
    let mut mock: Mock<i32> = Mock::new();
    mock.expect(F).answer(10).times(2);
    mock.expect(F).answer(20).times(1);
    assert_eq!(mock.call(F), Ok(10));
    assert_eq!(mock.call(F), Ok(10));
    assert_eq!(mock.call(F), Ok(20));
    assert!(mock.verify().is_empty());
}

#[test]
fn one_then_two_consumes_in_declaration_order() {
    let mut mock: Mock<i32> = Mock::new();
    mock.expect(F).answer(20).times(1);
    mock.expect(F).answer(10).times(2);
    assert_eq!(mock.call(F), Ok(20));
    assert_eq!(mock.call(F), Ok(10));
    assert_eq!(mock.call(F), Ok(10));
    assert!(mock.verify().is_empty());
}

#[test]
fn call_without_answer_is_fatal_before_verify() {
    let mut mock: Mock<i32> = Mock::new();
    mock.expect(F);
    assert_eq!(mock.call(F), Err(CallError::NoAnswer));
}

#[test]
fn call_with_exhausted_queue_is_fatal() {
    let mut mock: Mock<i32> = Mock::new();
    mock.expect(F).answer(1).times(1);
    assert_eq!(mock.call(F), Ok(1));
    assert_eq!(mock.call(F), Err(CallError::Exhausted));
}

#[test]
fn call_with_no_expectation_is_fatal() {
    let mut mock: Mock<i32> = Mock::new();
    assert_eq!(mock.call(F), Err(CallError::Exhausted));
}

#[test]
fn call_with_only_zero_bound_expectations_is_fatal() {
    let mut mock: Mock<i32> = Mock::new();
    mock.expect(F).answer(1).times(0);
    assert_eq!(mock.call(F), Err(CallError::Exhausted));
    let report = mock.verify();
    assert!(report.is_empty());
}

#[test]
fn verify_reports_too_few_with_counts() {
    let mut mock: Mock<i32> = Mock::new();
    mock.expect(F).answer(1).times(2);
    assert_eq!(mock.call(F), Ok(1));
    let report = mock.verify();
    assert_eq!(report, vec![Mismatch { expected: 2, actual: 1 }]);
    assert!(report[0].too_few());
}

#[test]
fn verify_reports_every_mismatch_in_order() {
    let mut mock: Mock<i32> = Mock::new();
    mock.expect(F).answer(1).times(2);
    mock.expect(F).answer(2).times(1);
    mock.expect(8).answer(3).times(1);
    assert_eq!(mock.call(F), Ok(1));
    let report = mock.verify();
    assert_eq!(
        report,
        vec![
            Mismatch { expected: 2, actual: 1 },
            Mismatch { expected: 1, actual: 0 },
            Mismatch { expected: 1, actual: 0 },
        ]
    );
}

#[test]
fn verify_reports_too_many_for_overrun_expectation() {
    let mut mock: Mock<i32> = Mock::new();
    let call = mock.expect(F);
    call.answer(1);
    call.invoke();
    call.times(0);
    let report = mock.verify();
    assert_eq!(report, vec![Mismatch { expected: 0, actual: 1 }]);
    assert!(!report[0].too_few());
}

#[test]
fn verify_passes_only_on_exact_counts() {
    let mut mock: Mock<i32> = Mock::new();
    mock.expect(F).answer(1).times(2);
    mock.expect(F).answer(2).times(1);
    assert_eq!(mock.call(F), Ok(1));
    assert_eq!(mock.call(F), Ok(1));
    assert_eq!(mock.call(F), Ok(2));
    assert!(mock.verify().is_empty());
}
