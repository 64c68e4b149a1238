//! The error model: every fallible wrapper operation translates the engine's
//! integer error code into an error value carrying the code, the failure
//! class, and the message the engine's own message-lookup facility resolved
//! for it.  The engine's message enters the library from the embedding
//! program together with the code; only where no engine message is available
//! — code 0, a session that never opened, a failure the wrapper raises
//! before consulting the engine — does a small stable fallback table answer.
//! Translation is local and synchronous; the wrapper never retries on its
//! own.

use vstd::prelude::*;
use vstd::string::StringSliceAdditionalSpecFns;

verus! {

/// Code for "no error"; the engine and the wrapper agree on 0.
pub const ERRNO_NONE: i32 = 0;
/// The wrapper's own code for a failure it raises before the engine is
/// consulted: the caller requested an interface version this wrapper does
/// not speak.
pub const ERRNO_VERSION: i32 = 1;
/// The wrapper's own code for a failure it raises without consulting the
/// engine: reading an option the mirror holds no value for.
pub const ERRNO_BADOPTNAME: i32 = 3;

/// The class of a wrapper failure, one per fallible operation family.
#[derive(Clone, Copy, PartialEq, Eq, Structural, Debug)]
pub enum ErrorKind {
    /// `dtrace_open` failed: bad version, flags, or device.
    EngineOpenFailure,
    /// `dtrace_setopt` failed: unknown name or bad value.
    OptionFailure,
    /// Compilation of a tracing-language source failed.
    CompileFailure,
    /// A compiled program could not be loaded into the engine.
    ExecFailure,
    /// go/stop/status/consume/work or an aggregation call failed.
    RuntimeFailure,
}

/// The wrapper's stable fallback message for `errno`: used only where no
/// engine-resolved message is available — code 0, the wrapper's own codes,
/// and any code the engine left unexplained.  Never empty.
pub open spec fn fallback_msg_spec(errno: i32) -> Seq<char> {
    if errno == ERRNO_NONE {
        "no error"@
    } else if errno == ERRNO_VERSION {
        "requested interface version is not supported"@
    } else if errno == ERRNO_BADOPTNAME {
        "invalid option name"@
    } else {
        "unknown error"@
    }
}

/// Resolves `errno` to the wrapper's fallback message.
pub fn fallback_msg(errno: i32) -> (r: String)
    ensures
        r@ == fallback_msg_spec(errno),
        r@.len() > 0,
{
    proof {
        reveal_strlit("no error");
        reveal_strlit("requested interface version is not supported");
        reveal_strlit("invalid option name");
        reveal_strlit("unknown error");
    }
    let s: &str = if errno == ERRNO_NONE {
        "no error"
    } else if errno == ERRNO_VERSION {
        "requested interface version is not supported"
    } else if errno == ERRNO_BADOPTNAME {
        "invalid option name"
    } else {
        "unknown error"
    };
    s.to_owned()
}

/// The message an error for `errno` carries: the engine-resolved message as
/// handed in, or the wrapper's fallback when the engine gave none.
pub open spec fn resolved_message(engine_msg: Seq<char>, errno: i32) -> Seq<char> {
    if engine_msg.len() > 0 {
        engine_msg
    } else {
        fallback_msg_spec(errno)
    }
}

/// Whether `b` is an ASCII decimal digit.
pub open spec fn is_digit(b: u8) -> bool {
    0x30 <= b <= 0x39
}

/// Whether every byte of `s` is an ASCII decimal digit.
pub open spec fn all_digits(s: Seq<u8>) -> bool {
    forall|i: int| 0 <= i < s.len() ==> is_digit(s[i])
}

/// The decimal value of the digit string `s`.
pub open spec fn digits_val(s: Seq<u8>) -> int
    decreases s.len(),
{
    if s.len() == 0 {
        0
    } else {
        digits_val(s.drop_last()) * 10 + (s.last() - 0x30)
    }
}

/// The byte multiplier a size suffix denotes, or 0 for a byte that is no
/// size suffix.
pub open spec fn size_unit(b: u8) -> int {
    if b == 0x6B || b == 0x4B {  // k, K
        0x400
    } else if b == 0x6D || b == 0x4D {  // m, M
        0x100000
    } else if b == 0x67 || b == 0x47 {  // g, G
        0x40000000
    } else if b == 0x74 || b == 0x54 {  // t, T
        0x10000000000
    } else {
        0
    }
}

/// The numeric value of a byte-size option value: a non-empty decimal
/// number, optionally followed by one of the size suffixes `k`, `m`, `g`,
/// `t` (either case).  `None` for anything else, and for a value that does
/// not fit in 64 bits.
pub open spec fn parse_size_spec(s: Seq<u8>) -> Option<u64> {
    if s.len() > 0 && all_digits(s) {
        if digits_val(s) <= u64::MAX {
            Option::Some(digits_val(s) as u64)
        } else {
            Option::None
        }
    } else if s.len() > 1 && all_digits(s.drop_last()) && size_unit(s.last()) > 0 {
        if digits_val(s.drop_last()) * size_unit(s.last()) <= u64::MAX {
            Option::Some((digits_val(s.drop_last()) * size_unit(s.last())) as u64)
        } else {
            Option::None
        }
    } else {
        Option::None
    }
}

/// A digit string's value is never negative.
proof fn lemma_digits_val_nonneg(s: Seq<u8>)
    requires
        all_digits(s),
    ensures
        digits_val(s) >= 0,
    decreases s.len(),
{
    if s.len() > 0 {
        assert(all_digits(s.drop_last()));
        lemma_digits_val_nonneg(s.drop_last());
    }
}

/// Extending a digit string never shrinks its value.
proof fn lemma_digits_val_extend(s: Seq<u8>, i: int, j: int)
    requires
        0 <= i <= j <= s.len(),
        all_digits(s.take(j)),
    ensures
        digits_val(s.take(i)) <= digits_val(s.take(j)),
    decreases j - i,
{
    if i < j {
        assert(all_digits(s.take(j - 1))) by {
            assert(forall|k: int| 0 <= k < j - 1 ==> s.take(j - 1)[k] == s.take(j)[k]);
        }
        lemma_digits_val_extend(s, i, j - 1);
        assert(s.take(j).drop_last() =~= s.take(j - 1));
        lemma_digits_val_nonneg(s.take(j - 1));
    }
}

/// The multiplier for a size suffix byte, or 0 when the byte is none.
fn size_unit_exec(b: u8) -> (r: u64)
    ensures
        r == size_unit(b),
{
    if b == 0x6B || b == 0x4B {
        0x400
    } else if b == 0x6D || b == 0x4D {
        0x100000
    } else if b == 0x67 || b == 0x47 {
        0x40000000
    } else if b == 0x74 || b == 0x54 {
        0x10000000000
    } else {
        0
    }
}

/// Parses a byte-size option value ("4m", "512k", "1048576") into its
/// numeric byte count, exactly as `parse_size_spec` states.
pub fn parse_size(value: &str) -> (r: Option<u64>)
    ensures
        r == parse_size_spec(value.spec_bytes()),
{
    let bytes: &[u8] = value.as_bytes();
    let ghost s = value.spec_bytes();
    let n = bytes.len();
    if n == 0 {
        return None;
    }
    let last = bytes[n - 1];
    assert(last == s.last());
    let has_suffix = !(0x30 <= last && last <= 0x39);
    let dlen = if has_suffix {
        n - 1
    } else {
        n
    };
    let unit = size_unit_exec(last);
    if has_suffix {
        assert(!is_digit(s.last()));
        assert(!all_digits(s));
        if dlen == 0 || unit == 0 {
            return None;
        }
        assert(size_unit(s.last()) >= 1);
    } else {
        assert(is_digit(s.last()));
        assert(size_unit(s.last()) == 0);
    }
    let mut acc: u64 = 0;
    let mut i: usize = 0;
    while i < dlen
        invariant
            i <= dlen <= n,
            1 <= n == s.len(),
            bytes@ == s,
            s == value.spec_bytes(),
            has_suffix ==> dlen == n - 1 && !all_digits(s) && size_unit(s.last()) >= 1,
            !has_suffix ==> dlen == n && is_digit(s.last()) && size_unit(s.last()) == 0,
            forall|k: int| 0 <= k < i ==> is_digit(s[k]),
            acc == digits_val(s.take(i as int)),
        decreases dlen - i,
    {
        let b = bytes[i];
        if !(0x30 <= b && b <= 0x39) {
            // a non-digit in the digit part: no arm of the grammar matches
            assert(!is_digit(s[i as int]));
            assert(!all_digits(s));
            assert(dlen == n - 1 ==> !all_digits(s.drop_last())) by {
                assert(dlen == n - 1 ==> s.drop_last()[i as int] == s[i as int]);
            }
            return None;
        }
        let d: u64 = (b - 0x30) as u64;
        let wide: u128 = acc as u128 * 10 + d as u128;
        proof {
            assert(s.take(i + 1).drop_last() =~= s.take(i as int));
            assert(s.take(i + 1).last() == s[i as int]);
        }
        if wide > u64::MAX as u128 {
            // the digit part already exceeds 64 bits, so the whole value does
            proof {
                assert(digits_val(s.take(i + 1)) > u64::MAX);
                if dlen == n {
                    if all_digits(s) {
                        lemma_digits_val_extend(s, i + 1, n as int);
                        assert(s.take(n as int) =~= s);
                    }
                } else {
                    if all_digits(s.drop_last()) {
                        assert(forall|k: int|
                            0 <= k < dlen ==> s.drop_last()[k] == s.take(dlen as int)[k]);
                        assert(all_digits(s.take(dlen as int)));
                        lemma_digits_val_extend(s, i + 1, dlen as int);
                        assert(s.take(dlen as int) =~= s.drop_last());
                        lemma_digits_val_nonneg(s.drop_last());
                        assert(size_unit(s.last()) >= 1);
                        assert(digits_val(s.drop_last()) * size_unit(s.last()) >= digits_val(
                            s.drop_last(),
                        ) * 1) by (nonlinear_arith)
                            requires
                                size_unit(s.last()) >= 1,
                                digits_val(s.drop_last()) >= 0,
                        ;
                    }
                }
            }
            return None;
        }
        acc = wide as u64;
        i = i + 1;
    }
    proof {
        assert(forall|k: int| 0 <= k < dlen ==> is_digit(s.take(dlen as int)[k]));
        assert(all_digits(s.take(dlen as int)));
    }
    if has_suffix {
        proof {
            assert(s.take(dlen as int) =~= s.drop_last());
            assert(!is_digit(s.last()));
            assert(!all_digits(s));
        }
        let prod: u128 = acc as u128 * unit as u128;
        proof {
            lemma_digits_val_nonneg(s.drop_last());
            assert(acc as int * unit as int == digits_val(s.drop_last()) * size_unit(s.last()));
        }
        if prod > u64::MAX as u128 {
            None
        } else {
            Some(prod as u64)
        }
    } else {
        proof {
            assert(s.take(dlen as int) =~= s);
        }
        Some(acc)
    }
}

/// A translated engine failure: the numeric code, the failure class of the
/// operation that observed it, and the resolved message.
#[derive(Debug)]
pub struct Error {
    /// The error code the failing operation reported.
    pub errno: i32,
    /// The class of the failing operation.
    pub kind: ErrorKind,
    /// The resolved message for `errno`: the engine's own where it gave
    /// one, the wrapper's fallback otherwise; never empty.
    pub message: String,
}

impl Error {
    /// Whether this error value carries a message at all.
    pub open spec fn wf(self) -> bool {
        self.message@.len() > 0
    }

    /// Whether this error is the exact translation of a failure of class
    /// `kind` with code `errno` whose engine-resolved message was
    /// `engine_msg` (empty when the engine was not consulted or gave none).
    pub open spec fn translated(self, kind: ErrorKind, errno: i32, engine_msg: Seq<char>) -> bool {
        &&& self.kind == kind
        &&& self.errno == errno
        &&& self.message@ == resolved_message(engine_msg, errno)
        &&& self.wf()
    }

    /// Translates a failure of class `kind` with code `errno` into an error
    /// value carrying `engine_msg`, the message the engine's message-lookup
    /// facility resolved for the code; an empty `engine_msg` falls back to
    /// the wrapper's own stable message.
    pub fn new(kind: ErrorKind, errno: i32, engine_msg: String) -> (e: Error)
        ensures
            e.translated(kind, errno, engine_msg@),
    {
        let message = if engine_msg.as_str().is_empty() {
            fallback_msg(errno)
        } else {
            engine_msg
        };
        Error { errno, kind, message }
    }
}

} // verus!
