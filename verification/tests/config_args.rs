use spipe::config::{parse_bauds, resolve_args, DEFAULT_BAUDS};
use spipe::error::ErrorKind;

#[test]
fn baud_literals_parse_to_their_value() {
    assert_eq!(parse_bauds("9600"), Some(9600));
    assert_eq!(parse_bauds("115200"), Some(115200));
    assert_eq!(parse_bauds("0"), Some(0));
    // A leading plus sign is accepted, as a decimal literal allows.
    assert_eq!(parse_bauds("+9600"), Some(9600));
    // The largest value that fits in 32 bits.
    assert_eq!(parse_bauds("4294967295"), Some(u32::MAX));
}

#[test]
fn bad_baud_literals_are_rejected() {
    assert_eq!(parse_bauds("abc"), None);
    assert_eq!(parse_bauds(""), None);
    assert_eq!(parse_bauds("+"), None);
    assert_eq!(parse_bauds("96a0"), None);
    assert_eq!(parse_bauds("-9600"), None);
    assert_eq!(parse_bauds("9600 "), None);
    assert_eq!(parse_bauds("++1"), None);
    // One past the largest value that fits in 32 bits.
    assert_eq!(parse_bauds("4294967296"), None);
    assert_eq!(parse_bauds("99999999999999999999"), None);
}

#[test]
fn missing_path_is_invalid_value() {
    let e = resolve_args(None, None).unwrap_err();
    assert_eq!(e.kind, ErrorKind::InvalidValue);
}

#[test]
fn missing_bauds_defaults() {
    let c = resolve_args(Some("/dev/ttyUSB0".to_string()), None).unwrap();
    assert_eq!(c.path, "/dev/ttyUSB0");
    assert_eq!(c.bauds, 115200);
    assert_eq!(c.bauds, DEFAULT_BAUDS);
}

#[test]
fn given_bauds_are_used() {
    let c = resolve_args(Some("/dev/ttyS0".to_string()), Some("57600".to_string())).unwrap();
    assert_eq!(c.path, "/dev/ttyS0");
    assert_eq!(c.bauds, 57600);
}

#[test]
fn invalid_baud_fails_before_any_open() {
    // Resolution works on the command-line values alone — no device is
    // involved — so a bad literal fails without the adapter's open ever
    // being reachable, and the process exits with status one.
    let e = resolve_args(Some("/dev/ttyS0".to_string()), Some("abc".to_string())).unwrap_err();
    assert_eq!(e.kind, ErrorKind::InvalidValue);
    assert_eq!(spipe::duplex::exit_code(&Some(e)), 1);
}
