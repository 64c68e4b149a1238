//! The engine-defined enumerations the wrapper re-declares as closed Rust
//! enums: the snapshot status of a session, the ten aggregation walk
//! orderings, and the five registrable handler kinds.

use vstd::prelude::*;

verus! {

/// Raw status code: no status is available.
pub const DTRACE_STATUS_NONE: u32 = 0;
/// Raw status code: the session is tracing normally.
pub const DTRACE_STATUS_OKAY: u32 = 1;
/// Raw status code: `exit()` was called, tracing stopped.
pub const DTRACE_STATUS_EXITED: u32 = 2;
/// Raw status code: a fill buffer is full, tracing stopped.
pub const DTRACE_STATUS_FILLED: u32 = 3;
/// Raw status code: tracing was already stopped.
pub const DTRACE_STATUS_STOPPED: u32 = 4;

/// Ordering of an aggregation walk, always a two-level sort: a primary key
/// and a tie-break.  The engine exposes one entry point per ordering; the
/// wrapper only selects among them.
#[derive(Clone, Copy, PartialEq, Eq, Structural, Debug)]
pub enum dtrace_aggwalk_order {
    /// No sorting, use the engine's default order.
    Unsorted,
    /// First sort by variable name, then for multiple aggregations sort by
    /// ascending value.
    Sorted,
    /// First sort by variable name, then for multiple aggregations sort by key.
    KeySorted,
    /// First sort by variable name, then for multiple aggregations sort by
    /// value (same as `Sorted`).
    ValSorted,
    /// First sort by key, then for multiple aggregations sort by variable
    /// (aggregation ID).
    KeyVarSorted,
    /// First sort by value, then for multiple aggregations sort by variable
    /// (aggregation ID).
    ValVarSorted,
    /// Same as `KeySorted` but in reverse order.
    KeyRevSorted,
    /// Same as `ValSorted` but in reverse order.
    ValRevSorted,
    /// Same as `KeyVarSorted` but in reverse order.
    KeyVarRevSorted,
    /// Same as `ValVarSorted` but in reverse order.
    ValVarRevSorted,
}

/// Snapshot of a tracing session's condition, derived fresh on each query
/// and never cached.
#[derive(Clone, Copy, PartialEq, Eq, Structural, Debug)]
pub enum dtrace_status {
    /// No status.
    NoStatus,
    /// Status OK.
    Okay,
    /// `exit()` was called, tracing stopped.
    Exited,
    /// Fill buffer full, tracing stopped.
    Filled,
    /// Tracing already stopped.
    Stopped,
}

/// Whether `value` is one of the raw status codes the engine defines.
pub open spec fn valid_status_code(value: u32) -> bool {
    value == DTRACE_STATUS_NONE || value == DTRACE_STATUS_OKAY || value == DTRACE_STATUS_EXITED
        || value == DTRACE_STATUS_FILLED || value == DTRACE_STATUS_STOPPED
}

impl dtrace_status {
    /// The status that the raw code `value` denotes.
    pub open spec fn spec_from(value: u32) -> dtrace_status {
        if value == DTRACE_STATUS_OKAY {
            dtrace_status::Okay
        } else if value == DTRACE_STATUS_EXITED {
            dtrace_status::Exited
        } else if value == DTRACE_STATUS_FILLED {
            dtrace_status::Filled
        } else if value == DTRACE_STATUS_STOPPED {
            dtrace_status::Stopped
        } else {
            dtrace_status::NoStatus
        }
    }

    /// Exhaustive mapping from the raw integer domain.  A code outside the
    /// engine's documented set is genuinely unreachable and excluded here,
    /// so this mapping never aborts.
    pub fn from(value: u32) -> (s: dtrace_status)
        requires
            valid_status_code(value),
        ensures
            s == dtrace_status::spec_from(value),
    {
        if value == DTRACE_STATUS_OKAY {
            dtrace_status::Okay
        } else if value == DTRACE_STATUS_EXITED {
            dtrace_status::Exited
        } else if value == DTRACE_STATUS_FILLED {
            dtrace_status::Filled
        } else if value == DTRACE_STATUS_STOPPED {
            dtrace_status::Stopped
        } else {
            dtrace_status::NoStatus
        }
    }

    /// The raw code of this status.
    pub open spec fn spec_code(self) -> u32 {
        match self {
            dtrace_status::NoStatus => DTRACE_STATUS_NONE,
            dtrace_status::Okay => DTRACE_STATUS_OKAY,
            dtrace_status::Exited => DTRACE_STATUS_EXITED,
            dtrace_status::Filled => DTRACE_STATUS_FILLED,
            dtrace_status::Stopped => DTRACE_STATUS_STOPPED,
        }
    }

    /// Returns the raw code; inverse of `from` on the valid codes.
    pub fn code(self) -> (c: u32)
        ensures
            c == self.spec_code(),
            valid_status_code(c),
            dtrace_status::spec_from(c) == self,
    {
        match self {
            dtrace_status::NoStatus => DTRACE_STATUS_NONE,
            dtrace_status::Okay => DTRACE_STATUS_OKAY,
            dtrace_status::Exited => DTRACE_STATUS_EXITED,
            dtrace_status::Filled => DTRACE_STATUS_FILLED,
            dtrace_status::Stopped => DTRACE_STATUS_STOPPED,
        }
    }
}

/// The probe-name part an unqualified tracing-language probe reference
/// resolves against at compile time.
#[derive(Clone, Copy, PartialEq, Eq, Structural, Debug)]
pub enum dtrace_probespec {
    /// No context: only fully qualified references resolve.
    DTRACE_PROBESPEC_NONE,
    /// Resolve against the provider part.
    DTRACE_PROBESPEC_PROVIDER,
    /// Resolve against the module part.
    DTRACE_PROBESPEC_MOD,
    /// Resolve against the function part.
    DTRACE_PROBESPEC_FUNC,
    /// Resolve against the name part.
    DTRACE_PROBESPEC_NAME,
}

/// A handler registration: one of the five kinds the engine can call back
/// into user code, together with a token naming the registered function.
/// The token stands for the function reference the embedding program keeps;
/// the wrapper only tracks which registration is active.
#[derive(Clone, Copy, PartialEq, Eq, Structural, Debug)]
pub enum dtrace_handler {
    /// Buffered-output handler: called once per buffered text chunk.
    Buffered(u64),
    /// Probe-drop handler: called when the engine reports dropped data.
    Drop(u64),
    /// Error handler: called on an error reported during tracing.
    Error(u64),
    /// Process handler: called on process state changes.
    Proc(u64),
    /// Set-option handler: called when an option changes during tracing.
    SetOpt(u64),
}

impl dtrace_handler {
    /// The token of the registered function, whatever the kind.
    pub open spec fn spec_token(self) -> u64 {
        match self {
            dtrace_handler::Buffered(t) => t,
            dtrace_handler::Drop(t) => t,
            dtrace_handler::Error(t) => t,
            dtrace_handler::Proc(t) => t,
            dtrace_handler::SetOpt(t) => t,
        }
    }

    /// Returns the token of the registered function.
    pub fn token(self) -> (t: u64)
        ensures
            t == self.spec_token(),
    {
        match self {
            dtrace_handler::Buffered(t) => t,
            dtrace_handler::Drop(t) => t,
            dtrace_handler::Error(t) => t,
            dtrace_handler::Proc(t) => t,
            dtrace_handler::SetOpt(t) => t,
        }
    }
}

} // verus!
