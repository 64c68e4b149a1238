//! The session lifecycle state machine.  A `dtrace_hdl` is the exclusive
//! owner of one native tracing context; this module tracks the session's
//! lifecycle state, the options set, the handlers registered, and the last
//! aggregation snapshot, and states exactly how every operation moves that
//! state and when it fails.  The engine's own outcome for each foreign call
//! is handed in by the embedding program as an `EngineReply`; the wrapper
//! decides everything else and never recovers on its own.

use vstd::prelude::*;
use vstd::string::StringSliceAdditionalSpecFns;
use crate::DTRACE_VERSION;
use crate::aggregate::AggBucket;
use crate::aggregate::walk_order_model;
use crate::aggregate::walk_ordered;
use crate::callbacks::ProbeData;
use crate::callbacks::consume_payloads;
use crate::callbacks::consume_probe;
use crate::callbacks::probes_view;
use crate::types::dtrace_aggwalk_order;
use crate::types::dtrace_handler;
use crate::types::dtrace_probespec;
use crate::types::valid_status_code;
use crate::utils::ERRNO_BADOPTNAME;
use crate::utils::ERRNO_NONE;
use crate::utils::ERRNO_VERSION;
use crate::utils::Error;
use crate::utils::ErrorKind;
use crate::utils::fallback_msg;
use crate::utils::fallback_msg_spec;
use crate::utils::parse_size;
use crate::utils::parse_size_spec;

pub use crate::types::dtrace_status;

verus! {

/// Lifecycle state of a session: opened, configured, compiled, loaded,
/// tracing, stopped, or closed.  Configuration may repeat before and after
/// compilation; draining re-enters `Running` until a terminal status.
#[derive(Clone, Copy, PartialEq, Eq, Structural, Debug)]
pub enum SessionState {
    /// The native context has been released.
    Closed,
    /// The native context is acquired and nothing else happened yet.
    Open,
    /// At least one option was set or handler registered.
    Configured,
    /// A program has been compiled.
    Compiled,
    /// A compiled program has been loaded into the engine.
    Executing,
    /// Probes are enabled and generate data.
    Running,
    /// Probes are disabled again.
    Stopped,
}

/// Outcome the engine reported for one foreign call: success, or failure
/// together with the error code the engine set and the message its
/// message-lookup facility resolved for that code (empty when the engine
/// gave none).
#[derive(Clone, Debug)]
pub struct EngineReply {
    /// Whether the engine call succeeded.
    pub ok: bool,
    /// The engine's error code when it did not.
    pub errno: i32,
    /// The engine-resolved message for `errno`.
    pub message: String,
}

/// A compiled tracing program.  The engine owns the compiled representation;
/// the wrapper references it only by the compile that produced it, counted
/// per session.
#[derive(Clone, Copy, PartialEq, Eq, Structural, Debug)]
pub struct Program {
    /// Which compile of this session produced the program.
    pub token: u64,
}

/// One of the three consumer cadences the engine tracks: when it last fired
/// and how often it is due.
#[derive(Clone, Copy, PartialEq, Eq, Structural, Debug)]
pub struct Cadence {
    /// When this cadence last fired.
    pub last: u64,
    /// How much time must pass between firings.
    pub rate: u64,
}

impl Cadence {
    /// The next time this cadence is due.
    pub open spec fn due(self) -> int {
        self.last + self.rate
    }
}

/// The five handler kinds, without their registration payload.
#[derive(Clone, Copy, PartialEq, Eq, Structural, Debug)]
pub enum HandlerKind {
    /// Buffered-output handler.
    Buffered,
    /// Probe-drop handler.
    Drop,
    /// Error handler.
    Error,
    /// Process handler.
    Proc,
    /// Set-option handler.
    SetOpt,
}

/// The kind a registration is for.
pub open spec fn handler_kind(h: dtrace_handler) -> HandlerKind {
    match h {
        dtrace_handler::Buffered(_) => HandlerKind::Buffered,
        dtrace_handler::Drop(_) => HandlerKind::Drop,
        dtrace_handler::Error(_) => HandlerKind::Error,
        dtrace_handler::Proc(_) => HandlerKind::Proc,
        dtrace_handler::SetOpt(_) => HandlerKind::SetOpt,
    }
}

/// Mathematical view of a session: its lifecycle state, the numeric options
/// successfully set, the active handler of each kind, the last aggregation
/// snapshot, and the bookkeeping of compiled and loaded programs.
#[verifier::ext_equal]
pub ghost struct SessionView {
    /// The lifecycle state.
    pub state: SessionState,
    /// The flags the session was opened with.
    pub flags: i32,
    /// The error code of the last failed operation, 0 before any failure.
    pub last_errno: i32,
    /// The byte-size options the engine accepted, by name.
    pub options: Map<Seq<char>, u64>,
    /// The active buffered-output handler's token, if any.
    pub h_buffered: Option<u64>,
    /// The active probe-drop handler's token, if any.
    pub h_drop: Option<u64>,
    /// The active error handler's token, if any.
    pub h_error: Option<u64>,
    /// The active process handler's token, if any.
    pub h_proc: Option<u64>,
    /// The active set-option handler's token, if any.
    pub h_setopt: Option<u64>,
    /// The buckets of the last aggregation snapshot.
    pub snapshot: Seq<AggBucket>,
    /// How many programs this session has compiled.
    pub next_prog: u64,
    /// The programs already loaded into the engine.
    pub executed: Set<u64>,
}

impl SessionView {
    /// States in which options may still be set and handlers registered:
    /// everything before `Running`.
    pub open spec fn before_running(self) -> bool {
        match self.state {
            SessionState::Open => true,
            SessionState::Configured => true,
            SessionState::Compiled => true,
            SessionState::Executing => true,
            _ => false,
        }
    }

    /// States in which a program may be compiled.
    pub open spec fn can_compile(self) -> bool {
        match self.state {
            SessionState::Open => true,
            SessionState::Configured => true,
            SessionState::Compiled => true,
            _ => false,
        }
    }
}

/// The view of a session freshly opened with `flags`.
pub open spec fn open_view(flags: i32) -> SessionView {
    SessionView {
        state: SessionState::Open,
        flags: flags,
        last_errno: ERRNO_NONE,
        options: Map::empty(),
        h_buffered: Option::None,
        h_drop: Option::None,
        h_error: Option::None,
        h_proc: Option::None,
        h_setopt: Option::None,
        snapshot: Seq::empty(),
        next_prog: 0,
        executed: Set::empty(),
    }
}

/// The first configuring operation moves `Open` to `Configured`; later ones
/// keep the state.
pub open spec fn configure_step(s: SessionState) -> SessionState {
    if s == SessionState::Open {
        SessionState::Configured
    } else {
        s
    }
}

/// The session after a successful `setOption`: the state advances to
/// `Configured` if needed, and a value that parses as a byte size is
/// recorded in the option mirror under its name.
pub open spec fn setopt_model(v: SessionView, name: Seq<char>, value: Seq<u8>) -> SessionView {
    let stepped = SessionView { state: configure_step(v.state), ..v };
    match parse_size_spec(value) {
        Option::Some(n) => SessionView { options: stepped.options.insert(name, n), ..stepped },
        Option::None => stepped,
    }
}

/// What the matching getter answers: the mirrored value of the option, or
/// nothing when no successful `setOption` recorded one.
pub open spec fn getopt_model(v: SessionView, name: Seq<char>) -> Option<u64> {
    if v.options.contains_key(name) {
        Option::Some(v.options[name])
    } else {
        Option::None
    }
}

/// The active registration of kind `k`.
pub open spec fn active_handler(v: SessionView, k: HandlerKind) -> Option<u64> {
    match k {
        HandlerKind::Buffered => v.h_buffered,
        HandlerKind::Drop => v.h_drop,
        HandlerKind::Error => v.h_error,
        HandlerKind::Proc => v.h_proc,
        HandlerKind::SetOpt => v.h_setopt,
    }
}

/// The session after a successful registration: the handler of `h`'s kind
/// is replaced, every other kind keeps its registration, and the state
/// advances to `Configured` if needed.
pub open spec fn register_model(v: SessionView, h: dtrace_handler) -> SessionView {
    let stepped = SessionView { state: configure_step(v.state), ..v };
    match h {
        dtrace_handler::Buffered(t) => SessionView { h_buffered: Option::Some(t), ..stepped },
        dtrace_handler::Drop(t) => SessionView { h_drop: Option::Some(t), ..stepped },
        dtrace_handler::Error(t) => SessionView { h_error: Option::Some(t), ..stepped },
        dtrace_handler::Proc(t) => SessionView { h_proc: Option::Some(t), ..stepped },
        dtrace_handler::SetOpt(t) => SessionView { h_setopt: Option::Some(t), ..stepped },
    }
}

/// Registering a handler of a given kind twice leaves exactly the second
/// registration active: the session is as if only the second registration
/// had happened, so the first is never consulted again.
pub proof fn lemma_register_twice_keeps_second(
    v: SessionView,
    h1: dtrace_handler,
    h2: dtrace_handler,
)
    requires
        handler_kind(h1) == handler_kind(h2),
    ensures
        register_model(register_model(v, h1), h2) == register_model(v, h2),
        active_handler(register_model(register_model(v, h1), h2), handler_kind(h1))
            == Option::Some(h2.spec_token()),
{
    assert(register_model(register_model(v, h1), h2) =~= register_model(v, h2));
}

/// A value set as a byte-size option is what the matching getter then
/// returns: setting a value that parses to `n` and reading the same option
/// back yields exactly `n`.
pub proof fn lemma_setopt_getopt_consistent(
    v: SessionView,
    name: Seq<char>,
    value: Seq<u8>,
    n: u64,
)
    requires
        parse_size_spec(value) == Option::Some(n),
    ensures
        getopt_model(setopt_model(v, name, value), name) == Option::Some(n),
{
}

/// The option mirror a list of accepted `(name, value)` pairs denotes:
/// later entries override earlier ones.
pub open spec fn options_map(s: Seq<(String, u64)>) -> Map<Seq<char>, u64>
    decreases s.len(),
{
    if s.len() == 0 {
        Map::empty()
    } else {
        options_map(s.drop_last()).insert(s.last().0@, s.last().1)
    }
}

/// The mirror maps `key` to the value of its last entry for `key`.
proof fn lemma_options_map_at(s: Seq<(String, u64)>, key: Seq<char>, i: int)
    requires
        0 <= i < s.len(),
        s[i].0@ == key,
        forall|j: int| i < j < s.len() ==> s[j].0@ != key,
    ensures
        options_map(s).contains_key(key),
        options_map(s)[key] == s[i].1,
    decreases s.len(),
{
    if i < s.len() - 1 {
        lemma_options_map_at(s.drop_last(), key, i);
    }
}

/// The mirror has no entry for a key no pair carries.
proof fn lemma_options_map_absent(s: Seq<(String, u64)>, key: Seq<char>)
    requires
        forall|j: int| 0 <= j < s.len() ==> s[j].0@ != key,
    ensures
        !options_map(s).contains_key(key),
    decreases s.len(),
{
    if s.len() > 0 {
        lemma_options_map_absent(s.drop_last(), key);
    }
}

/// The tri-state outcome of one steady-state `work` step.
#[derive(Clone, Copy, PartialEq, Eq, Structural, Debug)]
pub enum dtrace_workstatus {
    /// A failure occurred while performing the work.
    Error,
    /// The step completed and more work is expected.
    Okay,
    /// Tracing reached a terminal status; no more work is expected.
    Done,
}

/// The work outcome a session status dictates: a terminal status ends the
/// drain loop, anything else continues it.
pub open spec fn workstatus_of(s: dtrace_status) -> dtrace_workstatus {
    match s {
        dtrace_status::NoStatus => dtrace_workstatus::Okay,
        dtrace_status::Okay => dtrace_workstatus::Okay,
        dtrace_status::Exited => dtrace_workstatus::Done,
        dtrace_status::Filled => dtrace_workstatus::Done,
        dtrace_status::Stopped => dtrace_workstatus::Done,
    }
}

/// The earliest time one of the three cadences is next due.
pub open spec fn earliest_wake(switch: Cadence, status: Cadence, aggregate: Cadence) -> int {
    let a = switch.due();
    let b = status.due();
    let c = aggregate.due();
    if a <= b && a <= c {
        a
    } else if b <= c {
        b
    } else {
        c
    }
}

/// A handle to one tracing session: the exclusive owner of one native
/// engine context.  One logical owner thread drives the session; the handle
/// carries no locking of its own.
#[derive(Debug)]
pub struct dtrace_hdl {
    state: SessionState,
    flags: i32,
    last_errno: i32,
    opts: Vec<(String, u64)>,
    h_buffered: Option<u64>,
    h_drop: Option<u64>,
    h_error: Option<u64>,
    h_proc: Option<u64>,
    h_setopt: Option<u64>,
    snapshot: Vec<AggBucket>,
    next_prog: u64,
    executed: Vec<u64>,
}

impl View for dtrace_hdl {
    type V = SessionView;

    closed spec fn view(&self) -> SessionView {
        SessionView {
            state: self.state,
            flags: self.flags,
            last_errno: self.last_errno,
            options: options_map(self.opts@),
            h_buffered: self.h_buffered,
            h_drop: self.h_drop,
            h_error: self.h_error,
            h_proc: self.h_proc,
            h_setopt: self.h_setopt,
            snapshot: self.snapshot@,
            next_prog: self.next_prog,
            executed: self.executed@.to_set(),
        }
    }
}

impl dtrace_hdl {
    /// The session's current lifecycle state.
    pub fn state(&self) -> (s: SessionState)
        ensures
            s == self@.state,
    {
        self.state
    }

    /// The token of the active registration of kind `kind`, if any.
    pub fn handler_token(&self, kind: HandlerKind) -> (r: Option<u64>)
        ensures
            r == active_handler(self@, kind),
    {
        match kind {
            HandlerKind::Buffered => self.h_buffered,
            HandlerKind::Drop => self.h_drop,
            HandlerKind::Error => self.h_error,
            HandlerKind::Proc => self.h_proc,
            HandlerKind::SetOpt => self.h_setopt,
        }
    }

    /// How many programs this session has compiled; a `Program` of this
    /// session carries a token below this count.
    pub fn program_count(&self) -> (n: u64)
        ensures
            n == self@.next_prog,
    {
        self.next_prog
    }

    /// Whether `program` was already loaded into the engine by
    /// `dtrace_program_exec`.
    pub fn was_loaded(&self, program: Program) -> (r: bool)
        ensures
            r == self@.executed.contains(program.token),
    {
        let n = self.executed.len();
        let mut i: usize = 0;
        while i < n
            invariant
                i <= n,
                n == self.executed.len(),
                forall|k: int| 0 <= k < i ==> self.executed@[k] != program.token,
            decreases n - i,
        {
            if self.executed[i] == program.token {
                assert(self.executed@.contains(program.token));
                return true;
            }
            i = i + 1;
        }
        assert(!self.executed@.contains(program.token));
        false
    }

    /// Opens a tracing session.  The caller must name the engine interface
    /// version this wrapper was written against: any other version fails
    /// with an open failure before the engine is consulted.  `reply` is the
    /// engine's own outcome for acquiring the context with `flags`.
    pub fn dtrace_open(version: i32, flags: i32, reply: EngineReply) -> (r: Result<
        dtrace_hdl,
        Error,
    >)
        ensures
            version != DTRACE_VERSION ==> r is Err && r->Err_0.translated(
                ErrorKind::EngineOpenFailure,
                ERRNO_VERSION,
                Seq::<char>::empty(),
            ),
            version == DTRACE_VERSION && !reply.ok ==> r is Err && r->Err_0.translated(
                ErrorKind::EngineOpenFailure,
                reply.errno,
                reply.message@,
            ),
            version == DTRACE_VERSION && reply.ok ==> r is Ok && r->Ok_0@ == open_view(flags),
    {
        if version != DTRACE_VERSION {
            return Err(Error::new(ErrorKind::EngineOpenFailure, ERRNO_VERSION, String::new()));
        }
        if !reply.ok {
            return Err(Error::new(ErrorKind::EngineOpenFailure, reply.errno, reply.message));
        }
        let h = dtrace_hdl {
            state: SessionState::Open,
            flags,
            last_errno: ERRNO_NONE,
            opts: Vec::new(),
            h_buffered: None,
            h_drop: None,
            h_error: None,
            h_proc: None,
            h_setopt: None,
            snapshot: Vec::new(),
            next_prog: 0,
            executed: Vec::new(),
        };
        proof {
            assert(h.executed@.to_set() =~= Set::<u64>::empty());
            assert(h@ =~= open_view(flags));
        }
        Ok(h)
    }

    /// The error code of the session's last failed operation.
    pub fn dtrace_errno(&self) -> (e: i32)
        ensures
            e == self@.last_errno,
    {
        self.last_errno
    }

    /// The wrapper's own message lookup, used where the engine's
    /// message-lookup facility is unavailable — no session yet (`handle`
    /// absent), the code 0, or a code the wrapper assigned itself — or
    /// where the engine left a code unexplained.  The message is stable and
    /// never empty; the engine's own messages enter through `EngineReply`.
    pub fn dtrace_errmsg(handle: Option<&dtrace_hdl>, errno: i32) -> (r: String)
        ensures
            r@ == fallback_msg_spec(errno),
            r@.len() > 0,
    {
        let _ = handle;
        fallback_msg(errno)
    }

    /// Sets the option `option` to `value`.  Allowed any number of times in
    /// any state before `Running`.  On engine success the session counts as
    /// configured and, when `value` is a byte size, the mirror records its
    /// numeric value for the matching getter; on engine failure the
    /// translated option error is returned and nothing else changes.
    pub fn dtrace_setopt(&mut self, option: &str, value: &str, reply: EngineReply) -> (r: Result<
        (),
        Error,
    >)
        requires
            old(self)@.before_running(),
        ensures
            reply.ok ==> r is Ok && final(self)@ == setopt_model(
                old(self)@,
                option@,
                value.spec_bytes(),
            ),
            !reply.ok ==> r is Err && r->Err_0.translated(
                ErrorKind::OptionFailure,
                reply.errno,
                reply.message@,
            ) && final(self)@ == (SessionView {
                last_errno: reply.errno,
                ..old(self)@
            }),
    {
        if !reply.ok {
            self.last_errno = reply.errno;
            return Err(Error::new(ErrorKind::OptionFailure, reply.errno, reply.message));
        }
        if self.state == SessionState::Open {
            self.state = SessionState::Configured;
        }
        match parse_size(value) {
            Some(n) => {
                let owned = option.to_owned();
                self.opts.push((owned, n));
                proof {
                    assert(self.opts@.drop_last() =~= old(self).opts@);
                    assert(options_map(self.opts@) =~= options_map(old(self).opts@).insert(
                        option@,
                        n,
                    ));
                    assert(self@ =~= setopt_model(old(self)@, option@, value.spec_bytes()));
                }
            },
            None => {
                assert(self@ =~= setopt_model(old(self)@, option@, value.spec_bytes()));
            },
        }
        Ok(())
    }

    /// Reads the mirrored numeric value of `option`: the value of the last
    /// successful byte-size `dtrace_setopt` for that name, or an option
    /// error when none was recorded.
    pub fn dtrace_getopt(&self, option: &str) -> (r: Result<u64, Error>)
        ensures
            match getopt_model(self@, option@) {
                Option::Some(v) => r is Ok && r->Ok_0 == v,
                Option::None => r is Err && r->Err_0.translated(
                    ErrorKind::OptionFailure,
                    ERRNO_BADOPTNAME,
                    Seq::<char>::empty(),
                ),
            },
    {
        let owned = option.to_owned();
        let n = self.opts.len();
        let mut j = n;
        while j > 0
            invariant
                j <= n,
                n == self.opts.len(),
                owned@ == option@,
                forall|k: int| j <= k < n ==> self.opts@[k].0@ != option@,
            decreases j,
        {
            j = j - 1;
            let pair = &self.opts[j];
            if pair.0 == owned {
                proof {
                    lemma_options_map_at(self.opts@, option@, j as int);
                }
                return Ok(pair.1);
            }
        }
        proof {
            lemma_options_map_absent(self.opts@, option@);
        }
        Err(Error::new(ErrorKind::OptionFailure, ERRNO_BADOPTNAME, String::new()))
    }

    /// Registers `handler` for its kind, replacing any registration of that
    /// kind: at most one handler per kind is active.  Allowed in any state
    /// before `Running`.  The registration's opaque context travels with
    /// the function reference the token names; the wrapper does not look
    /// into it.
    pub fn dtrace_register_handler(
        &mut self,
        handler: dtrace_handler,
        arg: Option<u64>,
        reply: EngineReply,
    ) -> (r: Result<(), Error>)
        requires
            old(self)@.before_running(),
        ensures
            reply.ok ==> r is Ok && final(self)@ == register_model(old(self)@, handler),
            !reply.ok ==> r is Err && r->Err_0.translated(
                ErrorKind::RuntimeFailure,
                reply.errno,
                reply.message@,
            ) && final(self)@ == (SessionView {
                last_errno: reply.errno,
                ..old(self)@
            }),
    {
        let _ = arg;
        if !reply.ok {
            self.last_errno = reply.errno;
            return Err(Error::new(ErrorKind::RuntimeFailure, reply.errno, reply.message));
        }
        if self.state == SessionState::Open {
            self.state = SessionState::Configured;
        }
        match handler {
            dtrace_handler::Buffered(t) => {
                self.h_buffered = Some(t);
            },
            dtrace_handler::Drop(t) => {
                self.h_drop = Some(t);
            },
            dtrace_handler::Error(t) => {
                self.h_error = Some(t);
            },
            dtrace_handler::Proc(t) => {
                self.h_proc = Some(t);
            },
            dtrace_handler::SetOpt(t) => {
                self.h_setopt = Some(t);
            },
        }
        assert(self@ =~= register_model(old(self)@, handler));
        Ok(())
    }

    /// Registers the buffered-output handler the engine calls for each
    /// buffered text chunk when no output file is given.
    pub fn dtrace_handle_buffered(&mut self, handler: u64, arg: Option<u64>, reply: EngineReply)
        -> (r: Result<(), Error>)
        requires
            old(self)@.before_running(),
        ensures
            reply.ok ==> r is Ok && final(self)@ == register_model(
                old(self)@,
                dtrace_handler::Buffered(handler),
            ),
            !reply.ok ==> r is Err && r->Err_0.translated(
                ErrorKind::RuntimeFailure,
                reply.errno,
                reply.message@,
            ) && final(self)@ == (SessionView {
                last_errno: reply.errno,
                ..old(self)@
            }),
    {
        self.dtrace_register_handler(dtrace_handler::Buffered(handler), arg, reply)
    }

    /// Compiles a tracing-language source into a program the engine owns.
    /// `probespec` names the probe-name part unqualified references resolve
    /// against, `flags` are the compile flags, and `args` are the optional
    /// macro arguments; the engine's compile outcome arrives in `reply`.
    /// On failure the compile diagnostic the engine resolved is surfaced as
    /// a `CompileFailure`; its message is never empty.
    pub fn dtrace_program_strcompile(
        &mut self,
        program: &str,
        probespec: dtrace_probespec,
        flags: u32,
        args: Option<Vec<String>>,
        reply: EngineReply,
    ) -> (r: Result<Program, Error>)
        requires
            old(self)@.can_compile(),
            old(self)@.next_prog < u64::MAX,
        ensures
            reply.ok ==> r is Ok && r->Ok_0.token == old(self)@.next_prog && final(self)@
                == (SessionView {
                state: SessionState::Compiled,
                next_prog: (old(self)@.next_prog + 1) as u64,
                ..old(self)@
            }),
            !reply.ok ==> r is Err && r->Err_0.translated(
                ErrorKind::CompileFailure,
                reply.errno,
                reply.message@,
            ) && final(self)@ == (SessionView {
                last_errno: reply.errno,
                ..old(self)@
            }),
    {
        let _ = program;
        let _ = probespec;
        let _ = flags;
        let _ = args;
        if !reply.ok {
            self.last_errno = reply.errno;
            return Err(Error::new(ErrorKind::CompileFailure, reply.errno, reply.message));
        }
        let prog = Program { token: self.next_prog };
        self.state = SessionState::Compiled;
        self.next_prog = self.next_prog + 1;
        Ok(prog)
    }

    /// Loads the compiled `program` into the engine, creating and
    /// downloading its object representation.  Each program must be loaded
    /// exactly once, after the compile that produced it and before `go`.
    pub fn dtrace_program_exec(&mut self, program: Program, reply: EngineReply) -> (r: Result<
        (),
        Error,
    >)
        requires
            old(self)@.state is Compiled || old(self)@.state is Executing,
            program.token < old(self)@.next_prog,
            !old(self)@.executed.contains(program.token),
        ensures
            reply.ok ==> r is Ok && final(self)@ == (SessionView {
                state: SessionState::Executing,
                executed: old(self)@.executed.insert(program.token),
                ..old(self)@
            }),
            !reply.ok ==> r is Err && r->Err_0.translated(
                ErrorKind::ExecFailure,
                reply.errno,
                reply.message@,
            ) && final(self)@ == (SessionView {
                last_errno: reply.errno,
                ..old(self)@
            }),
    {
        if !reply.ok {
            self.last_errno = reply.errno;
            return Err(Error::new(ErrorKind::ExecFailure, reply.errno, reply.message));
        }
        self.state = SessionState::Executing;
        self.executed.push(program.token);
        proof {
            let s_old = old(self).executed@;
            let s_new = self.executed@;
            let t = program.token;
            assert forall|x: u64| #[trigger] s_new.to_set().contains(x) implies (
            s_old.to_set().contains(x) || x == t) by {
                let i = choose|i: int| 0 <= i < s_new.len() && s_new[i] == x;
                if i < s_old.len() {
                    assert(s_old[i] == x);
                }
            }
            assert forall|x: u64| s_old.to_set().contains(x) || x == t implies
                #[trigger] s_new.to_set().contains(x) by {
                if s_old.to_set().contains(x) {
                    let i = choose|i: int| 0 <= i < s_old.len() && s_old[i] == x;
                    assert(s_new[i] == x);
                } else {
                    assert(s_new[s_new.len() - 1] == x);
                }
            }
            assert(s_new.to_set() =~= s_old.to_set().insert(t));
        }
        Ok(())
    }

    /// Iterates the statements of the compiled `program`; the embedding
    /// program's statement handler runs inside the engine's iteration, and
    /// `reply` is the iteration's outcome.
    pub fn dtrace_stmt_iter(&mut self, program: Program, reply: EngineReply) -> (r: Result<
        (),
        Error,
    >)
        requires
            old(self)@.state != SessionState::Closed,
            program.token < old(self)@.next_prog,
        ensures
            reply.ok ==> r is Ok && final(self)@ == old(self)@,
            !reply.ok ==> r is Err && r->Err_0.translated(
                ErrorKind::RuntimeFailure,
                reply.errno,
                reply.message@,
            ) && final(self)@ == (SessionView {
                last_errno: reply.errno,
                ..old(self)@
            }),
    {
        let _ = program;
        if !reply.ok {
            self.last_errno = reply.errno;
            return Err(Error::new(ErrorKind::RuntimeFailure, reply.errno, reply.message));
        }
        Ok(())
    }

    /// Enables the loaded probes: tracing starts and data generation
    /// begins.  Irreversible until `dtrace_stop`; calling it again without
    /// an intervening stop is engine-defined and therefore excluded.
    pub fn dtrace_go(&mut self, reply: EngineReply) -> (r: Result<(), Error>)
        requires
            old(self)@.state is Executing,
        ensures
            reply.ok ==> r is Ok && final(self)@ == (SessionView {
                state: SessionState::Running,
                ..old(self)@
            }),
            !reply.ok ==> r is Err && r->Err_0.translated(
                ErrorKind::RuntimeFailure,
                reply.errno,
                reply.message@,
            ) && final(self)@ == (SessionView {
                last_errno: reply.errno,
                ..old(self)@
            }),
    {
        if !reply.ok {
            self.last_errno = reply.errno;
            return Err(Error::new(ErrorKind::RuntimeFailure, reply.errno, reply.message));
        }
        self.state = SessionState::Running;
        Ok(())
    }

    /// Disables the probes and lets the engine release its buffers.  Best
    /// practice before the handle is dropped, though dropping without it is
    /// safe: the engine performs eventual cleanup when the context closes.
    pub fn dtrace_stop(&mut self, reply: EngineReply) -> (r: Result<(), Error>)
        requires
            old(self)@.state is Running,
        ensures
            reply.ok ==> r is Ok && final(self)@ == (SessionView {
                state: SessionState::Stopped,
                ..old(self)@
            }),
            !reply.ok ==> r is Err && r->Err_0.translated(
                ErrorKind::RuntimeFailure,
                reply.errno,
                reply.message@,
            ) && final(self)@ == (SessionView {
                last_errno: reply.errno,
                ..old(self)@
            }),
    {
        if !reply.ok {
            self.last_errno = reply.errno;
            return Err(Error::new(ErrorKind::RuntimeFailure, reply.errno, reply.message));
        }
        self.state = SessionState::Stopped;
        Ok(())
    }

    /// Derives the session's status snapshot from the engine's raw report:
    /// `raw` is the engine's status code, or -1 with `errno` set.  Never
    /// blocks and never caches.
    pub fn dtrace_status(&mut self, raw: i32, errno: i32, message: String) -> (r: Result<
        dtrace_status,
        Error,
    >)
        requires
            old(self)@.state != SessionState::Closed,
            raw == -1 || valid_status_code(raw as u32),
        ensures
            raw != -1 ==> r is Ok && r->Ok_0 == dtrace_status::spec_from(raw as u32)
                && final(self)@ == old(self)@,
            raw == -1 ==> r is Err && r->Err_0.translated(
                ErrorKind::RuntimeFailure,
                errno,
                message@,
            ) && final(self)@ == (SessionView { last_errno: errno, ..old(self)@ }),
    {
        if raw == -1 {
            self.last_errno = errno;
            return Err(Error::new(ErrorKind::RuntimeFailure, errno, message));
        }
        Ok(dtrace_status::from(raw as u32))
    }

    /// Computes when the consumer should next interact with the engine: the
    /// earliest due time of the principal-buffer switch, status-check, and
    /// aggregation cadences.  Returns the wake deadline the caller should
    /// sleep until, or nothing when that time has already passed and the
    /// caller should continue immediately.
    pub fn dtrace_sleep(&self, now: u64, switch: Cadence, status: Cadence, aggregate: Cadence)
        -> (r: Option<u64>)
        requires
            self@.state != SessionState::Closed,
            switch.last + switch.rate <= u64::MAX,
            status.last + status.rate <= u64::MAX,
            aggregate.last + aggregate.rate <= u64::MAX,
        ensures
            earliest_wake(switch, status, aggregate) <= now <==> r is None,
            r is Some ==> r->0 == earliest_wake(switch, status, aggregate) && r->0 > now,
    {
        let a = switch.last + switch.rate;
        let b = status.last + status.rate;
        let c = aggregate.last + aggregate.rate;
        let earliest = if a <= b && a <= c {
            a
        } else if b <= c {
            b
        } else {
            c
        };
        if earliest <= now {
            None
        } else {
            Some(earliest)
        }
    }

    /// Copies the engine's in-kernel aggregation data to user space without
    /// processing it: on success the session's snapshot becomes exactly the
    /// buckets the engine handed over in `buckets`.
    pub fn dtrace_aggregate_snap(&mut self, buckets: &Vec<AggBucket>, reply: EngineReply) -> (r:
        Result<(), Error>)
        requires
            old(self)@.state is Running,
        ensures
            reply.ok ==> r is Ok && final(self)@ == (SessionView {
                snapshot: buckets@,
                ..old(self)@
            }),
            !reply.ok ==> r is Err && r->Err_0.translated(
                ErrorKind::RuntimeFailure,
                reply.errno,
                reply.message@,
            ) && final(self)@ == (SessionView {
                last_errno: reply.errno,
                ..old(self)@
            }),
    {
        if !reply.ok {
            self.last_errno = reply.errno;
            return Err(Error::new(ErrorKind::RuntimeFailure, reply.errno, reply.message));
        }
        let mut copy: Vec<AggBucket> = Vec::new();
        let mut i: usize = 0;
        while i < buckets.len()
            invariant
                i <= buckets.len(),
                copy@ =~= buckets@.take(i as int),
            decreases buckets.len() - i,
        {
            copy.push(buckets[i]);
            i = i + 1;
        }
        assert(copy@ =~= buckets@);
        self.snapshot = copy;
        Ok(())
    }

    /// Replays the snapshotted aggregation buckets in the order `order`
    /// selects: on success the returned sequence is exactly the ordering
    /// model's sequence for the current snapshot, which the walk handler
    /// then sees bucket by bucket.
    pub fn dtrace_aggregate_walk(&mut self, order: dtrace_aggwalk_order, reply: EngineReply) -> (r:
        Result<Vec<AggBucket>, Error>)
        requires
            old(self)@.state is Running || old(self)@.state is Stopped,
        ensures
            reply.ok ==> r is Ok && r->Ok_0@ == walk_order_model(order, old(self)@.snapshot)
                && final(self)@ == old(self)@,
            !reply.ok ==> r is Err && r->Err_0.translated(
                ErrorKind::RuntimeFailure,
                reply.errno,
                reply.message@,
            ) && final(self)@ == (SessionView {
                last_errno: reply.errno,
                ..old(self)@
            }),
    {
        if !reply.ok {
            self.last_errno = reply.errno;
            return Err(Error::new(ErrorKind::RuntimeFailure, reply.errno, reply.message));
        }
        Ok(walk_ordered(order, &self.snapshot))
    }

    /// Prints the snapshotted aggregation data through the engine's default
    /// handler: the buckets are replayed in the default sorted order (by
    /// variable name, then ascending value).
    pub fn dtrace_aggregate_print(&mut self, reply: EngineReply) -> (r: Result<
        Vec<AggBucket>,
        Error,
    >)
        requires
            old(self)@.state is Running || old(self)@.state is Stopped,
        ensures
            reply.ok ==> r is Ok && r->Ok_0@ == walk_order_model(
                dtrace_aggwalk_order::Sorted,
                old(self)@.snapshot,
            ) && final(self)@ == old(self)@,
            !reply.ok ==> r is Err && r->Err_0.translated(
                ErrorKind::RuntimeFailure,
                reply.errno,
                reply.message@,
            ) && final(self)@ == (SessionView {
                last_errno: reply.errno,
                ..old(self)@
            }),
    {
        self.dtrace_aggregate_walk(dtrace_aggwalk_order::Sorted, reply)
    }

    /// Drains the already-switched principal buffers handed over in
    /// `probes`: every firing passes the probe handler, its records pass
    /// the record handler, and the consumed payloads are delivered through
    /// the buffered-output path in buffer order.  Does not itself switch
    /// buffers or poll new data.
    pub fn dtrace_consume(&mut self, probes: &Vec<ProbeData>, reply: EngineReply) -> (r: Result<
        Vec<Vec<u8>>,
        Error,
    >)
        requires
            old(self)@.state is Running,
        ensures
            reply.ok ==> r is Ok && r->Ok_0.deep_view() == consume_payloads(probes_view(probes@))
                && final(self)@ == old(self)@,
            !reply.ok ==> r is Err && r->Err_0.translated(
                ErrorKind::RuntimeFailure,
                reply.errno,
                reply.message@,
            ) && final(self)@ == (SessionView {
                last_errno: reply.errno,
                ..old(self)@
            }),
    {
        if !reply.ok {
            self.last_errno = reply.errno;
            return Err(Error::new(ErrorKind::RuntimeFailure, reply.errno, reply.message));
        }
        let ghost pv = probes_view(probes@);
        let mut sink: Vec<Vec<u8>> = Vec::new();
        let mut i: usize = 0;
        while i < probes.len()
            invariant
                i <= probes.len(),
                pv == probes_view(probes@),
                pv.len() == probes.len(),
                sink.deep_view() == consume_payloads(pv.take(i as int)),
            decreases probes.len() - i,
        {
            consume_probe(&probes[i], &mut sink);
            proof {
                assert(pv.take(i + 1).drop_last() =~= pv.take(i as int));
                assert(pv.take(i + 1).last() == probes@[i as int]@);
                assert(sink.deep_view() =~~= consume_payloads(pv.take(i + 1)));
            }
            i = i + 1;
        }
        assert(pv.take(probes.len() as int) =~= pv);
        Ok(sink)
    }

    /// One steady-state polling step: checks the status the engine
    /// reported, snapshots the aggregation buffers, and drains the
    /// principal buffers, in that order, each gated by the engine's
    /// cadences.  The tri-state result says whether to continue the drain
    /// loop, that tracing reached a terminal status, or that the step
    /// failed; the drained payloads accompany it.
    pub fn dtrace_work(
        &mut self,
        raw_status: i32,
        errno: i32,
        status_msg: String,
        buckets: &Vec<AggBucket>,
        snap_reply: EngineReply,
        probes: &Vec<ProbeData>,
        consume_reply: EngineReply,
    ) -> (r: (dtrace_workstatus, Vec<Vec<u8>>))
        requires
            old(self)@.state is Running,
            raw_status == -1 || valid_status_code(raw_status as u32),
        ensures
            raw_status == -1 ==> r.0 is Error && r.1@.len() == 0 && final(self)@ == (SessionView {
                last_errno: errno,
                ..old(self)@
            }),
            raw_status != -1 && !snap_reply.ok ==> r.0 is Error && r.1@.len() == 0 && final(self)@
                == (SessionView { last_errno: snap_reply.errno, ..old(self)@ }),
            raw_status != -1 && snap_reply.ok && !consume_reply.ok ==> r.0 is Error && r.1@.len()
                == 0 && final(self)@ == (SessionView {
                snapshot: buckets@,
                last_errno: consume_reply.errno,
                ..old(self)@
            }),
            raw_status != -1 && snap_reply.ok && consume_reply.ok ==> r.0 == workstatus_of(
                dtrace_status::spec_from(raw_status as u32),
            ) && r.1.deep_view() == consume_payloads(probes_view(probes@)) && final(self)@
                == (SessionView { snapshot: buckets@, ..old(self)@ }),
    {
        let status = match self.dtrace_status(raw_status, errno, status_msg) {
            Ok(status) => status,
            Err(_) => {
                return (dtrace_workstatus::Error, Vec::new());
            },
        };
        if self.dtrace_aggregate_snap(buckets, snap_reply).is_err() {
            return (dtrace_workstatus::Error, Vec::new());
        }
        let chunks = match self.dtrace_consume(probes, consume_reply) {
            Ok(chunks) => chunks,
            Err(_) => {
                return (dtrace_workstatus::Error, Vec::new());
            },
        };
        let ws = match status {
            dtrace_status::NoStatus => dtrace_workstatus::Okay,
            dtrace_status::Okay => dtrace_workstatus::Okay,
            dtrace_status::Exited => dtrace_workstatus::Done,
            dtrace_status::Filled => dtrace_workstatus::Done,
            dtrace_status::Stopped => dtrace_workstatus::Done,
        };
        (ws, chunks)
    }

    /// Closes the session: the native context is released and no further
    /// operation is possible.  Safe to call exactly once; a handle is only
    /// ever created by a successful `dtrace_open`.
    pub fn dtrace_close(&mut self)
        ensures
            final(self)@ == (SessionView { state: SessionState::Closed, ..old(self)@ }),
    {
        self.state = SessionState::Closed;
    }
}

/// The operations of a session's lifetime, as a release-accounting trace
/// distinguishes them.
#[derive(Clone, Copy, PartialEq, Eq, Structural, Debug)]
pub enum LifecycleOp {
    /// Setting an option or registering a handler.
    Configure,
    /// Compiling a program.
    Compile,
    /// Loading a compiled program.
    Execute,
    /// Enabling the probes.
    Go,
    /// Disabling the probes.
    Stop,
    /// Draining data: status, sleep, consume, work, or an aggregation call.
    Drain,
    /// Closing the handle, by an explicit close or by dropping it.
    Close,
}

/// How one operation moves the lifecycle state: a closed session accepts
/// nothing, closing reaches `Closed`, and no other operation does.
pub open spec fn lifecycle_step(s: SessionState, op: LifecycleOp) -> SessionState {
    if s is Closed {
        SessionState::Closed
    } else {
        match op {
            LifecycleOp::Configure => configure_step(s),
            LifecycleOp::Compile => SessionState::Compiled,
            LifecycleOp::Execute => SessionState::Executing,
            LifecycleOp::Go => SessionState::Running,
            LifecycleOp::Stop => SessionState::Stopped,
            LifecycleOp::Drain => s,
            LifecycleOp::Close => SessionState::Closed,
        }
    }
}

/// Whether applying `op` in state `s` releases the native context: only a
/// close of a not-yet-closed session does.
pub open spec fn op_releases(s: SessionState, op: LifecycleOp) -> bool {
    op is Close && !(s is Closed)
}

/// How many releases a whole operation trace performs from state `s`.
pub open spec fn trace_releases(s: SessionState, ops: Seq<LifecycleOp>) -> nat
    decreases ops.len(),
{
    if ops.len() == 0 {
        0
    } else {
        (if op_releases(s, ops[0]) {
            1nat
        } else {
            0nat
        }) + trace_releases(lifecycle_step(s, ops[0]), ops.skip(1))
    }
}

/// A closed session releases nothing, whatever is attempted on it.
proof fn lemma_closed_releases_nothing(ops: Seq<LifecycleOp>)
    ensures
        trace_releases(SessionState::Closed, ops) == 0,
    decreases ops.len(),
{
    if ops.len() > 0 {
        lemma_closed_releases_nothing(ops.skip(1));
    }
}

/// Over any operation trace on a live session, the native context is
/// released exactly once if the trace closes the session, and not at all
/// otherwise: no double release, and no release without a close.
pub proof fn lemma_close_releases_exactly_once(s: SessionState, ops: Seq<LifecycleOp>)
    requires
        s != SessionState::Closed,
    ensures
        trace_releases(s, ops) == if ops.contains(LifecycleOp::Close) {
            1nat
        } else {
            0nat
        },
    decreases ops.len(),
{
    if ops.len() > 0 {
        let rest = ops.skip(1);
        if ops[0] is Close {
            lemma_closed_releases_nothing(rest);
            assert(ops.contains(LifecycleOp::Close)) by {
                assert(ops[0] == LifecycleOp::Close);
            }
        } else {
            assert(lifecycle_step(s, ops[0]) != SessionState::Closed);
            lemma_close_releases_exactly_once(lifecycle_step(s, ops[0]), rest);
            assert(ops.contains(LifecycleOp::Close) <==> rest.contains(LifecycleOp::Close)) by {
                if ops.contains(LifecycleOp::Close) {
                    let i = choose|i: int| 0 <= i < ops.len() && ops[i] == LifecycleOp::Close;
                    assert(rest[i - 1] == LifecycleOp::Close);
                }
                if rest.contains(LifecycleOp::Close) {
                    let j = choose|j: int| 0 <= j < rest.len() && rest[j] == LifecycleOp::Close;
                    assert(ops[j + 1] == LifecycleOp::Close);
                }
            }
        }
    }
}

/// The operations move the state exactly as the lifecycle trace steps it:
/// on a live session, a successful configure (option or handler), compile,
/// load, go, stop, or close lands in the state the corresponding
/// `lifecycle_step` gives.
pub proof fn lemma_operations_follow_lifecycle(
    v: SessionView,
    name: Seq<char>,
    value: Seq<u8>,
    h: dtrace_handler,
)
    requires
        v.state != SessionState::Closed,
    ensures
        setopt_model(v, name, value).state == lifecycle_step(v.state, LifecycleOp::Configure),
        register_model(v, h).state == lifecycle_step(v.state, LifecycleOp::Configure),
        lifecycle_step(v.state, LifecycleOp::Compile) == SessionState::Compiled,
        lifecycle_step(v.state, LifecycleOp::Execute) == SessionState::Executing,
        lifecycle_step(v.state, LifecycleOp::Go) == SessionState::Running,
        lifecycle_step(v.state, LifecycleOp::Stop) == SessionState::Stopped,
        lifecycle_step(v.state, LifecycleOp::Close) == SessionState::Closed,
{
}

/// A successfully opened session whose lifetime ends with a close (the drop
/// of the handle closes it) releases the native context exactly once, even
/// when `stop` never appears in the trace.
pub proof fn lemma_session_released_exactly_once(ops: Seq<LifecycleOp>)
    ensures
        trace_releases(SessionState::Open, ops.push(LifecycleOp::Close)) == 1,
{
    let whole = ops.push(LifecycleOp::Close);
    assert(whole.contains(LifecycleOp::Close)) by {
        assert(whole[whole.len() - 1] == LifecycleOp::Close);
    }
    lemma_close_releases_exactly_once(SessionState::Open, whole);
}

} // verus!
