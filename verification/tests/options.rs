//! Option mirror tests: byte-size value parsing and the set/get round
//! trip, including the error class of each failure.

use libdtrace_rs::utils::{parse_size, ErrorKind, ERRNO_BADOPTNAME};
use libdtrace_rs::wrapper::{dtrace_hdl, EngineReply};
use libdtrace_rs::DTRACE_VERSION;

fn ok() -> EngineReply {
    EngineReply { ok: true, errno: 0, message: String::new() }
}

fn fail(errno: i32, message: &str) -> EngineReply {
    EngineReply { ok: false, errno, message: message.to_string() }
}

#[test]
fn parse_size_suffixes() {
    assert_eq!(parse_size("4m"), Some(4 * 1024 * 1024));
    assert_eq!(parse_size("4M"), Some(4 * 1024 * 1024));
    assert_eq!(parse_size("512k"), Some(512 * 1024));
    assert_eq!(parse_size("512K"), Some(512 * 1024));
    assert_eq!(parse_size("1g"), Some(1024 * 1024 * 1024));
    assert_eq!(parse_size("2t"), Some(2u64 * 1024 * 1024 * 1024 * 1024));
}

#[test]
fn parse_size_plain_numbers() {
    assert_eq!(parse_size("0"), Some(0));
    assert_eq!(parse_size("1048576"), Some(1048576));
    assert_eq!(parse_size("18446744073709551615"), Some(u64::MAX));
}

#[test]
fn parse_size_rejects_malformed_values() {
    assert_eq!(parse_size(""), None);
    assert_eq!(parse_size("m"), None);
    assert_eq!(parse_size("4x"), None);
    assert_eq!(parse_size("4 m"), None);
    assert_eq!(parse_size("12m3"), None);
    assert_eq!(parse_size("-4m"), None);
    assert_eq!(parse_size("k4"), None);
}

#[test]
fn parse_size_rejects_overflow() {
    assert_eq!(parse_size("18446744073709551616"), None);
    assert_eq!(parse_size("99999999999999999m"), None);
    assert_eq!(parse_size("17179869184g"), None);
}

#[test]
fn setopt_then_getopt_returns_numeric_value() {
    let mut h = dtrace_hdl::dtrace_open(DTRACE_VERSION, 0, ok()).unwrap();
    h.dtrace_setopt("bufsize", "4m", ok()).unwrap();
    h.dtrace_setopt("aggsize", "512k", ok()).unwrap();
    assert_eq!(h.dtrace_getopt("bufsize").unwrap(), 4 * 1024 * 1024);
    assert_eq!(h.dtrace_getopt("aggsize").unwrap(), 512 * 1024);
}

#[test]
fn setopt_later_value_overrides_earlier() {
    let mut h = dtrace_hdl::dtrace_open(DTRACE_VERSION, 0, ok()).unwrap();
    h.dtrace_setopt("bufsize", "4m", ok()).unwrap();
    h.dtrace_setopt("bufsize", "1k", ok()).unwrap();
    assert_eq!(h.dtrace_getopt("bufsize").unwrap(), 1024);
}

#[test]
fn setopt_non_size_value_is_not_mirrored() {
    let mut h = dtrace_hdl::dtrace_open(DTRACE_VERSION, 0, ok()).unwrap();
    h.dtrace_setopt("flowindent", "true", ok()).unwrap();
    let e = h.dtrace_getopt("flowindent").err().unwrap();
    assert_eq!(e.kind, ErrorKind::OptionFailure);
    assert_eq!(e.errno, ERRNO_BADOPTNAME);
}

#[test]
fn setopt_engine_failure_is_option_error() {
    let mut h = dtrace_hdl::dtrace_open(DTRACE_VERSION, 0, ok()).unwrap();
    let e = h.dtrace_setopt("bufsize", "4m", fail(3, "failed to set bufsize")).err().unwrap();
    assert_eq!(e.kind, ErrorKind::OptionFailure);
    assert_eq!(e.errno, 3);
    assert_eq!(e.message, "failed to set bufsize");
    assert_eq!(h.dtrace_errno(), 3);
    // the failing set recorded nothing
    assert!(h.dtrace_getopt("bufsize").is_err());
}

#[test]
fn getopt_unknown_option_fails() {
    let h = dtrace_hdl::dtrace_open(DTRACE_VERSION, 0, ok()).unwrap();
    let e = h.dtrace_getopt("bufsize").err().unwrap();
    assert_eq!(e.kind, ErrorKind::OptionFailure);
    assert_eq!(e.errno, ERRNO_BADOPTNAME);
    // no engine message accompanies a mirror miss: fallback message
    assert_eq!(e.message, "invalid option name");
}

#[test]
fn errmsg_is_stable_and_nonempty() {
    assert_eq!(dtrace_hdl::dtrace_errmsg(None, 0), "no error");
    assert_eq!(dtrace_hdl::dtrace_errmsg(None, 9999), "unknown error");
    let h = dtrace_hdl::dtrace_open(DTRACE_VERSION, 0, ok()).unwrap();
    for errno in -3..10 {
        assert!(!dtrace_hdl::dtrace_errmsg(Some(&h), errno).is_empty());
    }
}
