//! Session lifecycle tests: opening, configuring, registering handlers,
//! compiling, loading, and the error classes each failing operation yields.

use libdtrace_rs::types::{dtrace_handler, dtrace_probespec, dtrace_status};
use libdtrace_rs::utils::{ErrorKind, ERRNO_VERSION};
use libdtrace_rs::wrapper::{dtrace_hdl, EngineReply, HandlerKind, SessionState};
use libdtrace_rs::{DTRACE_C_ZDEFS, DTRACE_VERSION};

fn ok() -> EngineReply {
    EngineReply { ok: true, errno: 0, message: String::new() }
}

fn fail(errno: i32, message: &str) -> EngineReply {
    EngineReply { ok: false, errno, message: message.to_string() }
}

#[test]
fn dtrace_get_handle() {
    let h = dtrace_hdl::dtrace_open(DTRACE_VERSION, 0, ok()).unwrap();
    assert_eq!(h.state(), SessionState::Open);
}

#[test]
fn dtrace_set_option() {
    let mut h = dtrace_hdl::dtrace_open(DTRACE_VERSION, 0, ok()).unwrap();
    h.dtrace_setopt("bufsize", "4m", ok()).unwrap();
    assert_eq!(h.dtrace_getopt("bufsize").unwrap(), 4194304);
}

#[test]
fn dtrace_handle_buffered() {
    let mut h = dtrace_hdl::dtrace_open(DTRACE_VERSION, 0, ok()).unwrap();
    h.dtrace_register_handler(dtrace_handler::Buffered(1), None, ok())
        .unwrap();
    assert_eq!(h.handler_token(HandlerKind::Buffered), Some(1));
}

#[test]
fn dtrace_compile_and_exec() {
    let mut handle = dtrace_hdl::dtrace_open(DTRACE_VERSION, 0, ok()).unwrap();
    let prog = handle
        .dtrace_program_strcompile(
            "dtrace:::BEGIN {trace(\"Hello World\");} syscall:::entry { @num[execname] = count(); }",
            dtrace_probespec::DTRACE_PROBESPEC_NAME,
            DTRACE_C_ZDEFS,
            None,
            ok(),
        )
        .unwrap();
    handle.dtrace_program_exec(prog, ok()).unwrap();
    assert_eq!(handle.state(), SessionState::Executing);
}

#[test]
fn open_wrong_version_fails() {
    let r = dtrace_hdl::dtrace_open(DTRACE_VERSION + 1, 0, ok());
    let e = r.err().unwrap();
    assert_eq!(e.kind, ErrorKind::EngineOpenFailure);
    assert_eq!(e.errno, ERRNO_VERSION);
    // the version gate fails before the engine is consulted: fallback message
    assert_eq!(e.message, "requested interface version is not supported");
}

#[test]
fn open_engine_failure_surfaces_errno() {
    let e = dtrace_hdl::dtrace_open(DTRACE_VERSION, 0, fail(2, "tracing device is busy")).err().unwrap();
    assert_eq!(e.kind, ErrorKind::EngineOpenFailure);
    assert_eq!(e.errno, 2);
    // the engine-resolved message is carried through unchanged
    assert_eq!(e.message, "tracing device is busy");
}

#[test]
fn compile_failure_is_compile_error_with_message() {
    // an invalid source: the engine reports a compile diagnostic
    let mut h = dtrace_hdl::dtrace_open(DTRACE_VERSION, 0, ok()).unwrap();
    let r = h.dtrace_program_strcompile(
        "syscall::nosuchprobe:entry { trace(1); }",
        dtrace_probespec::DTRACE_PROBESPEC_NAME,
        0,
        None,
        fail(5, "probe description syscall::nosuchprobe:entry does not match any probes"),
    );
    let e = r.err().unwrap();
    assert_eq!(e.kind, ErrorKind::CompileFailure);
    assert_eq!(e.errno, 5);
    // the compile diagnostic the engine resolved survives the translation
    assert_eq!(
        e.message,
        "probe description syscall::nosuchprobe:entry does not match any probes"
    );
    assert_eq!(h.dtrace_errno(), 5);
}

#[test]
fn exec_failure_is_exec_error() {
    let mut h = dtrace_hdl::dtrace_open(DTRACE_VERSION, 0, ok()).unwrap();
    let prog = h
        .dtrace_program_strcompile(
            "BEGIN { trace(1); }",
            dtrace_probespec::DTRACE_PROBESPEC_NAME,
            0,
            None,
            ok(),
        )
        .unwrap();
    let e = h.dtrace_program_exec(prog, fail(6, "DIF program content is invalid")).err().unwrap();
    assert_eq!(e.kind, ErrorKind::ExecFailure);
    assert_eq!(e.errno, 6);
    assert_eq!(e.message, "DIF program content is invalid");
}

#[test]
fn go_failure_is_runtime_error() {
    let mut h = dtrace_hdl::dtrace_open(DTRACE_VERSION, 0, ok()).unwrap();
    let prog = h
        .dtrace_program_strcompile(
            "BEGIN { trace(1); }",
            dtrace_probespec::DTRACE_PROBESPEC_NAME,
            0,
            None,
            ok(),
        )
        .unwrap();
    h.dtrace_program_exec(prog, ok()).unwrap();
    let e = h.dtrace_go(fail(7, "failed to enable probes")).err().unwrap();
    assert_eq!(e.kind, ErrorKind::RuntimeFailure);
    assert_eq!(e.errno, 7);
    assert_eq!(e.message, "failed to enable probes");
    assert_eq!(h.state(), SessionState::Executing);
}

#[test]
fn go_and_stop_move_the_state() {
    let mut h = dtrace_hdl::dtrace_open(DTRACE_VERSION, 0, ok()).unwrap();
    let prog = h
        .dtrace_program_strcompile(
            "BEGIN { trace(1); }",
            dtrace_probespec::DTRACE_PROBESPEC_NAME,
            0,
            None,
            ok(),
        )
        .unwrap();
    h.dtrace_program_exec(prog, ok()).unwrap();
    h.dtrace_go(ok()).unwrap();
    assert_eq!(h.state(), SessionState::Running);
    h.dtrace_stop(ok()).unwrap();
    assert_eq!(h.state(), SessionState::Stopped);
    h.dtrace_close();
    assert_eq!(h.state(), SessionState::Closed);
}

#[test]
fn register_twice_keeps_only_second() {
    let mut h = dtrace_hdl::dtrace_open(DTRACE_VERSION, 0, ok()).unwrap();
    h.dtrace_register_handler(dtrace_handler::Buffered(1), None, ok())
        .unwrap();
    h.dtrace_register_handler(dtrace_handler::Buffered(2), None, ok())
        .unwrap();
    assert_eq!(h.handler_token(HandlerKind::Buffered), Some(2));
    // other kinds are untouched by the replacement
    assert_eq!(h.handler_token(HandlerKind::Drop), None);
    assert_eq!(h.handler_token(HandlerKind::Error), None);
    assert_eq!(h.handler_token(HandlerKind::Proc), None);
    assert_eq!(h.handler_token(HandlerKind::SetOpt), None);
}

#[test]
fn register_different_kinds_coexist() {
    let mut h = dtrace_hdl::dtrace_open(DTRACE_VERSION, 0, ok()).unwrap();
    h.dtrace_register_handler(dtrace_handler::Buffered(10), None, ok())
        .unwrap();
    h.dtrace_register_handler(dtrace_handler::Drop(11), None, ok())
        .unwrap();
    h.dtrace_register_handler(dtrace_handler::Error(12), None, ok())
        .unwrap();
    h.dtrace_register_handler(dtrace_handler::Proc(13), None, ok())
        .unwrap();
    h.dtrace_register_handler(dtrace_handler::SetOpt(14), None, ok())
        .unwrap();
    assert_eq!(h.handler_token(HandlerKind::Buffered), Some(10));
    assert_eq!(h.handler_token(HandlerKind::Drop), Some(11));
    assert_eq!(h.handler_token(HandlerKind::Error), Some(12));
    assert_eq!(h.handler_token(HandlerKind::Proc), Some(13));
    assert_eq!(h.handler_token(HandlerKind::SetOpt), Some(14));
}

#[test]
fn status_maps_every_raw_code() {
    let mut h = dtrace_hdl::dtrace_open(DTRACE_VERSION, 0, ok()).unwrap();
    assert_eq!(h.dtrace_status(0, 0, String::new()).unwrap(), dtrace_status::NoStatus);
    assert_eq!(h.dtrace_status(1, 0, String::new()).unwrap(), dtrace_status::Okay);
    assert_eq!(h.dtrace_status(2, 0, String::new()).unwrap(), dtrace_status::Exited);
    assert_eq!(h.dtrace_status(3, 0, String::new()).unwrap(), dtrace_status::Filled);
    assert_eq!(h.dtrace_status(4, 0, String::new()).unwrap(), dtrace_status::Stopped);
}

#[test]
fn status_failure_is_runtime_error() {
    let mut h = dtrace_hdl::dtrace_open(DTRACE_VERSION, 0, ok()).unwrap();
    let e = h.dtrace_status(-1, 7, "status query failed".to_string()).err().unwrap();
    assert_eq!(e.kind, ErrorKind::RuntimeFailure);
    assert_eq!(e.errno, 7);
    assert_eq!(e.message, "status query failed");
    assert_eq!(h.dtrace_errno(), 7);
}

#[test]
fn stmt_iter_reports_engine_outcome() {
    let mut h = dtrace_hdl::dtrace_open(DTRACE_VERSION, 0, ok()).unwrap();
    let prog = h
        .dtrace_program_strcompile(
            "BEGIN { trace(1); }",
            dtrace_probespec::DTRACE_PROBESPEC_NAME,
            0,
            None,
            ok(),
        )
        .unwrap();
    assert!(h.dtrace_stmt_iter(prog, ok()).is_ok());
    let e = h.dtrace_stmt_iter(prog, fail(7, "statement walk failed")).err().unwrap();
    assert_eq!(e.kind, ErrorKind::RuntimeFailure);
}
