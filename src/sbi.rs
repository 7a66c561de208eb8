//! Routing of supervisor environment calls.
//!
//! The extension implementations (timer, reset, hart state management) answer
//! a call first; the router then decides what the trap handler does with
//! that answer, and serves the two legacy console calls itself.
use vstd::prelude::*;

verus! {

/// Base extension.
pub const EID_BASE: usize = 0x10;

/// Base extension: probe whether an extension is available.
pub const PROBE_EXTENSION: usize = 3;

/// Hart state management extension (`"HSM"`).
pub const EID_HSM: usize = 0x0048_534d;

/// Hart state management: stop the calling hart.
pub const HART_STOP: usize = 1;

/// Hart state management: suspend the calling hart.
pub const HART_SUSPEND: usize = 3;

/// Suspend type of a suspend that loses the hart's context.
pub const SUSPEND_NON_RETENTIVE: u32 = 0x8000_0000;

/// Legacy console: write one byte.
pub const LEGACY_CONSOLE_PUTCHAR: usize = 1;

/// Legacy console: read one byte.
pub const LEGACY_CONSOLE_GETCHAR: usize = 2;

/// Error code of a successful call.
pub const RET_SUCCESS: usize = 0;

/// Error code of a call that no extension implements (`-2`).
pub const RET_ERR_NOT_SUPPORTED: usize = usize::MAX - 1;

/// Value returned by the legacy getchar when no byte is waiting (`-1`).
pub const GETCHAR_EMPTY: usize = usize::MAX;

/// The (error, value) pair an SBI call returns.
#[derive(Clone, Copy, Debug, PartialEq, Eq, Structural)]
pub struct SbiResult {
    pub error: usize,
    pub value: usize,
}

/// What the trap handler does once the extensions have answered a call.
#[derive(Clone, Copy, Debug, PartialEq, Eq, Structural)]
pub enum Routed {
    /// Return this pair to the caller.
    Reply(SbiResult),
    /// The hart was stopped: do not resume the caller.
    StopHart,
    /// A non-retentive suspend: restart the hart at this entry point.
    Resume { start_addr: usize, opaque: usize },
    /// Legacy putchar: send this byte, then reply success.
    PutChar(u8),
    /// Legacy getchar: read a byte, then reply with it.
    GetChar,
    /// A call nobody implements; fatal.
    Unsupported { extension: usize, function: usize },
}

/// How a call of `function` in `extension` with arguments `args` is routed
/// once the extensions have answered `ret`.
pub open spec fn route_spec(extension: usize, function: usize, args: [usize; 6], ret: SbiResult) -> Routed {
    if ret.error == RET_SUCCESS {
        if extension == EID_HSM && function == HART_STOP {
            Routed::StopHart
        } else if extension == EID_HSM && function == HART_SUSPEND && args@[0] as u32
            == SUSPEND_NON_RETENTIVE {
            Routed::Resume { start_addr: args@[1], opaque: args@[2] }
        } else if extension == EID_BASE && function == PROBE_EXTENSION && (args@[0]
            == LEGACY_CONSOLE_PUTCHAR || args@[0] == LEGACY_CONSOLE_GETCHAR) {
            Routed::Reply(SbiResult { error: ret.error, value: 1 })
        } else {
            Routed::Reply(ret)
        }
    } else if ret.error == RET_ERR_NOT_SUPPORTED {
        if extension == LEGACY_CONSOLE_PUTCHAR {
            Routed::PutChar(args@[0] as u8)
        } else if extension == LEGACY_CONSOLE_GETCHAR {
            Routed::GetChar
        } else {
            Routed::Unsupported { extension, function }
        }
    } else {
        Routed::Reply(ret)
    }
}

/// Decides what follows a call of `function` in `extension` with arguments
/// `args`, given the extensions' answer `ret`. A successful stop or
/// non-retentive suspend leaves the caller behind; a probe for a legacy
/// console call reports it present; a call no extension implements is served
/// locally if it is a legacy console call, and is fatal otherwise. Any other
/// answer goes back to the caller as it is.
pub fn route_call(extension: usize, function: usize, args: [usize; 6], ret: SbiResult) -> (r: Routed)
    ensures
        r == route_spec(extension, function, args, ret),
{
    if ret.error == RET_SUCCESS {
        if extension == EID_HSM && function == HART_STOP {
            Routed::StopHart
        } else if extension == EID_HSM && function == HART_SUSPEND && #[verifier::truncate] (
        args[0] as u32) == SUSPEND_NON_RETENTIVE {
            Routed::Resume { start_addr: args[1], opaque: args[2] }
        } else if extension == EID_BASE && function == PROBE_EXTENSION && (args[0]
            == LEGACY_CONSOLE_PUTCHAR || args[0] == LEGACY_CONSOLE_GETCHAR) {
            Routed::Reply(SbiResult { error: ret.error, value: 1 })
        } else {
            Routed::Reply(ret)
        }
    } else if ret.error == RET_ERR_NOT_SUPPORTED {
        if extension == LEGACY_CONSOLE_PUTCHAR {
            Routed::PutChar(#[verifier::truncate] (args[0] as u8))
        } else if extension == LEGACY_CONSOLE_GETCHAR {
            Routed::GetChar
        } else {
            Routed::Unsupported { extension, function }
        }
    } else {
        Routed::Reply(ret)
    }
}

/// Error code the legacy getchar returns: the byte read, or
/// [`GETCHAR_EMPTY`] when none was waiting.
pub open spec fn getchar_code(received: Option<u8>) -> usize {
    match received {
        Some(b) => b as usize,
        None => GETCHAR_EMPTY,
    }
}

/// The reply of the legacy getchar; the value register keeps `a1`.
pub fn legacy_getchar_reply(received: Option<u8>, a1: usize) -> (r: SbiResult)
    ensures
        r == (SbiResult { error: getchar_code(received), value: a1 }),
{
    match received {
        Some(b) => SbiResult { error: b as usize, value: a1 },
        None => SbiResult { error: GETCHAR_EMPTY, value: a1 },
    }
}

/// The reply of the legacy putchar, which always succeeds; the value
/// register keeps `a1`.
pub fn legacy_putchar_reply(a1: usize) -> (r: SbiResult)
    ensures
        r == (SbiResult { error: RET_SUCCESS, value: a1 }),
{
    SbiResult { error: RET_SUCCESS, value: a1 }
}

} // verus!
