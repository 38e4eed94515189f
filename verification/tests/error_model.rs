use spipe::error::{Error, ErrorKind};

#[test]
fn classification_follows_the_table() {
    // A timeout or would-block condition is classified TimedOut.
    let e = Error::from_failure(true, "Connection timed out (os error 110)".to_string());
    assert_eq!(e.kind, ErrorKind::TimedOut);
    // Any other runtime failure is classified InOutError.
    let e = Error::from_failure(false, "Input/output error (os error 5)".to_string());
    assert_eq!(e.kind, ErrorKind::InOutError);
    // Runtime classification never yields InvalidValue.
    assert_ne!(Error::from_failure(true, String::new()).kind, ErrorKind::InvalidValue);
    assert_ne!(Error::from_failure(false, String::new()).kind, ErrorKind::InvalidValue);
}

#[test]
fn classification_is_deterministic() {
    // The same reported condition always yields the same kind.
    let a = Error::from_failure(true, "x".to_string());
    let b = Error::from_failure(true, "y".to_string());
    assert_eq!(a.kind, b.kind);
    let c = Error::from_failure(false, "x".to_string());
    let d = Error::from_failure(false, "y".to_string());
    assert_eq!(c.kind, d.kind);
}

#[test]
fn constructors_set_kind_and_cause() {
    let e = Error::invalid_value("bad".to_string());
    assert_eq!(e.kind, ErrorKind::InvalidValue);
    assert_eq!(e.cause, "bad");
    let e = Error::timed_out("slow".to_string());
    assert_eq!(e.kind, ErrorKind::TimedOut);
    assert_eq!(e.cause, "slow");
    let e = Error::in_out_error("broken".to_string());
    assert_eq!(e.kind, ErrorKind::InOutError);
    assert_eq!(e.cause, "broken");
    let e = Error::new(ErrorKind::TimedOut, "late".to_string());
    assert_eq!(e.kind, ErrorKind::TimedOut);
    assert_eq!(e.cause, "late");
}

#[test]
fn kind_descriptions() {
    assert_eq!(ErrorKind::InvalidValue.describe(), "A value is invalid");
    assert_eq!(ErrorKind::TimedOut.describe(), "An operation timed out");
    assert_eq!(ErrorKind::InOutError.describe(), "An I/O-error occurred");
}
