use helpful::{
    not, BacktraceSnapshot, BacktraceStatus, CallHistory, Error, MainResult, Report,
};

fn failing_error() -> Error {
    Error {
        source: "it broke".to_string(),
        span_trace: CallHistory { frames: vec![] },
        backtrace: BacktraceSnapshot { status: BacktraceStatus::Disabled, text: String::new() },
    }
}

#[test]
fn report_success_defers_to_the_value() {
    let outcome: MainResult<u8, Error> = MainResult::Success(3);
    match outcome.report() {
        Report::Succeed(value) => assert_eq!(value, 3),
        Report::Fail(_) => panic!("a success must not report a failure"),
    }
}

#[test]
fn report_failure_writes_full_rendering_with_newline() {
    let e = failing_error();
    let expected = format!("{}\n", e.render_full());
    let outcome: MainResult<u8, Error> = MainResult::Failure(e);
    match outcome.report() {
        Report::Succeed(_) => panic!("a failure must not report a success"),
        Report::Fail(text) => {
            assert_eq!(text, expected);
            assert!(text.ends_with('\n'));
        }
    }
}

#[test]
fn main_result_converts_from_a_result() {
    let ok: MainResult<u8, Error> = MainResult::from(Ok::<u8, Error>(9));
    assert!(matches!(ok, MainResult::Success(9)));
    let err: MainResult<u8, Error> = MainResult::from(Err::<u8, Error>(failing_error()));
    assert!(matches!(err, MainResult::Failure(_)));
}

#[test]
fn must_use_hands_the_error_back() {
    let e = failing_error();
    let expected = e.render_full();
    assert_eq!(helpful::adhoc::must_use(e).render_full(), expected);
}

#[test]
fn not_negates_booleans_and_references() {
    assert!(not(false));
    assert!(!not(true));
    assert!(not(&false));
    assert!(!not(&true));
}
