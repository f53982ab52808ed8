use monitord::varlink_fallback::{report_varlink_failure, NoFallbackError};

#[test]
fn test_fallback_allowed_by_default() {
    assert!(report_varlink_failure(false, "units", "D-Bus", "boom".to_string()).is_ok());
}

#[test]
fn test_no_fallback_forbids_fallback_with_context() {
    let err = report_varlink_failure(true, "container demo units", "D-Bus", "boom".to_string())
        .expect_err("no_fallback must forbid the fallback");
    let rendered = err.message();
    assert!(rendered.contains("container demo units"), "error names the collector: {rendered}");
    assert!(rendered.contains("D-Bus"), "error names the forbidden fallback: {rendered}");
}

#[test]
fn the_refusal_message_in_full() {
    let err = report_varlink_failure(true, "units", "D-Bus", "boom".to_string()).unwrap_err();
    assert_eq!(
        err.message(),
        "varlink units failed and [varlink] no_fallback=true forbids the D-Bus fallback: boom"
    );
    let NoFallbackError::FallbackForbidden { collector, fallback, source } = err;
    assert_eq!((collector.as_str(), fallback.as_str(), source.as_str()), ("units", "D-Bus", "boom"));
}
