//! Safety wrapper around a native dynamic-tracing engine.
//!
//! The engine itself (probe installation, the tracing-language compiler, the
//! kernel buffers) lives behind a foreign interface and is driven by the
//! embedding program.  This crate holds everything that can be stated and
//! proved about the wrapper: the session lifecycle state machine, the
//! callback-dispatch protocol for draining trace data, the aggregation walk
//! ordering policy, and the error model.  One logical owner thread drives a
//! session; the wrapper adds no internal locking of its own.
#![allow(non_camel_case_types)]

pub mod aggregate;
pub mod callbacks;
pub mod types;
pub mod utils;
pub mod wrapper;

use vstd::prelude::*;

verus! {

/// Interface version this wrapper expects; `dtrace_hdl::dtrace_open` fails
/// when the caller names any other version.
pub const DTRACE_VERSION: i32 = 3;

/// Open flag: do not attempt to open any tracing devices.
pub const DTRACE_O_NODEV: i32 = 0x01;
/// Open flag: do not attempt to enable any providers.
pub const DTRACE_O_NOSYS: i32 = 0x02;
/// Open flag: force the engine to operate in 64-bit mode.
pub const DTRACE_O_LP64: i32 = 0x04;
/// Open flag: force the engine to operate in 32-bit mode.
pub const DTRACE_O_ILP32: i32 = 0x08;

/// Control code a buffered-output handler returns when it consumed a chunk.
pub const DTRACE_HANDLE_OK: i32 = 0;
/// Control code a buffered-output handler returns to abort delivery.
pub const DTRACE_HANDLE_ABORT: i32 = -1;

/// Probe/record handler control: consume this record's data.
pub const DTRACE_CONSUME_THIS: i32 = 0;
/// Probe/record handler control: skip to the next probe.
pub const DTRACE_CONSUME_NEXT: i32 = 1;
/// Probe/record handler control: abort consumption.
pub const DTRACE_CONSUME_ABORT: i32 = 2;
/// Probe/record handler control: an error occurred inside the handler.
pub const DTRACE_CONSUME_ERROR: i32 = -1;

/// Aggregate-walk handler control: continue with the next bucket.
pub const DTRACE_AGGWALK_NEXT: i32 = 0;
/// Aggregate-walk handler control: abort the walk.
pub const DTRACE_AGGWALK_ABORT: i32 = 1;
/// Aggregate-walk handler control: an error occurred inside the handler.
pub const DTRACE_AGGWALK_ERROR: i32 = -1;

/// Action tag of an `exit()` record; such records carry no displayable
/// payload and end the processing of their probe's output.
pub const DTRACEACT_EXIT: u16 = 2;

/// Compile flag: show the intermediate representation the compilation
/// produced.
pub const DTRACE_C_DIFV: u32 = 0x0001;
/// Compile flag: permit probes whose definitions do not match existing
/// probes.
pub const DTRACE_C_ZDEFS: u32 = 0x0004;
/// Compile flag: run the C preprocessor over the source first.
pub const DTRACE_C_CPP: u32 = 0x0010;

} // verus!
