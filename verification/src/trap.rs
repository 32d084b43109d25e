//! The trap envelope: a tagged union carrying variant-specific evidence for
//! each abnormal condition a running guest can hit.
//!
//! Every non-user variant carries a native backtrace captured synchronously
//! at construction time; symbol resolution is deliberately deferred to a
//! presentation layer, because resolving on every trapping call is too
//! costly for a hot path.

use vstd::prelude::*;
use crate::taxonomy::TrapCode;

verus! {

/// The captured native stack trace of an outside crate, held opaquely: the
/// core stores it unmodified and never transforms, filters, or truncates
/// the addresses inside it.
#[verifier::external_type_specification]
#[verifier::external_body]
pub struct ExBacktrace(backtrace::Backtrace);

/// Relies on backtrace::Backtrace::new_unresolved: walks the current native
/// call stack eagerly, without resolving symbols. The result depends on the
/// machine state at the call, so nothing is promised of it.
#[verifier::external_body]
fn capture_unresolved() -> backtrace::Backtrace {
    backtrace::Backtrace::new_unresolved()
}

/// Relies on backtrace::Backtrace::frames: hands out the frames recorded
/// when the backtrace was captured. The count depends on the call stack at
/// capture time, so nothing is promised of it.
#[verifier::external_body]
fn frame_count(b: &backtrace::Backtrace) -> usize {
    b.frames().len()
}

/// An owned, thread-safe description of an error raised by an embedding
/// caller. The core stores it opaquely and never inspects it.
#[derive(Debug)]
pub struct UserError {
    /// Human-readable description of the wrapped error.
    pub description: String,
}

/// Stores trap evidence, with a backtrace for every non-user variant.
///
/// A trap is terminal: created at the instant a fault is detected, never
/// mutated afterwards, and consumed once by a top-level handler.
#[derive(Debug)]
pub enum Trap {
    /// A trap raised by an embedding caller through a user error.
    User(UserError),
    /// A trap raised from compiled guest code, whether flagged by an
    /// explicit check or inferred from a hardware signal.
    ///
    /// Note: this trap is deterministic (assuming a deterministic host).
    Wasm {
        /// The program counter in generated code where this trap happened.
        pc: usize,
        /// Native stack backtrace at the time the trap occurred.
        backtrace: backtrace::Backtrace,
        /// Optional trap code attributed to the signal that caused the trap;
        /// absent when the signaling mechanism carries no specific reason.
        signal_trap: Option<TrapCode>,
    },
    /// A trap raised from a runtime library call implementing a checked
    /// guest-visible operation.
    ///
    /// Note: this trap is deterministic (assuming a deterministic host).
    Lib {
        /// Code of the trap.
        trap_code: TrapCode,
        /// Native stack backtrace at the time the trap occurred.
        backtrace: backtrace::Backtrace,
    },
    /// A trap indicating that the runtime was unable to allocate sufficient
    /// memory.
    ///
    /// Note: this trap is nondeterministic, since it depends on the host.
    OOM {
        /// Native stack backtrace at the time the allocation failure occurred.
        backtrace: backtrace::Backtrace,
    },
}

/// The trap code a trap exposes: the attributed signal code of a guest-code
/// trap, the code of a library-call trap, and none for the other variants.
pub open spec fn trap_code_of(t: Trap) -> Option<TrapCode> {
    match t {
        Trap::User(_) => None,
        Trap::Wasm { signal_trap, .. } => signal_trap,
        Trap::Lib { trap_code, .. } => Some(trap_code),
        Trap::OOM { .. } => None,
    }
}

/// The faulting program counter, present exactly for guest-code traps.
pub open spec fn pc_of(t: Trap) -> Option<usize> {
    match t {
        Trap::Wasm { pc, .. } => Some(pc),
        _ => None,
    }
}

impl Trap {
    /// Construct a new Wasm trap with the given program counter, backtrace,
    /// and optional signal-attributed trap code. Every field is stored
    /// exactly as given.
    pub fn wasm(pc: usize, backtrace: backtrace::Backtrace, signal_trap: Option<TrapCode>) -> (r: Trap)
        ensures
            r == (Trap::Wasm { pc, backtrace, signal_trap }),
    {
        Trap::Wasm { pc, backtrace, signal_trap }
    }

    /// Construct a new library-call trap with the given trap code.
    ///
    /// Internally saves an unresolved backtrace when constructed.
    pub fn lib(trap_code: TrapCode) -> (r: Trap)
        ensures
            r is Lib,
            trap_code_of(r) == Some(trap_code),
    {
        let backtrace = capture_unresolved();
        Trap::Lib { trap_code, backtrace }
    }

    /// Construct a new out-of-memory trap, which carries no trap code.
    ///
    /// Internally saves an unresolved backtrace when constructed.
    pub fn oom() -> (r: Trap)
        ensures
            r is OOM,
            trap_code_of(r) == None::<TrapCode>,
    {
        let backtrace = capture_unresolved();
        Trap::OOM { backtrace }
    }

    /// Wrap an already-constructed error value raised by an embedding caller.
    pub fn user(error: UserError) -> (r: Trap)
        ensures
            r == Trap::User(error),
    {
        Trap::User(error)
    }

    /// The trap code this trap exposes, if any: the attributed signal code
    /// of a guest-code trap, or the code of a library-call trap.
    pub fn trap_code(&self) -> (r: Option<TrapCode>)
        ensures
            r == trap_code_of(*self),
    {
        match self {
            Trap::User(_) => None,
            Trap::Wasm { signal_trap, .. } => *signal_trap,
            Trap::Lib { trap_code, .. } => Some(*trap_code),
            Trap::OOM { .. } => None,
        }
    }

    /// The faulting program counter, present exactly for guest-code traps.
    pub fn pc(&self) -> (r: Option<usize>)
        ensures
            r == pc_of(*self),
    {
        match self {
            Trap::Wasm { pc, .. } => Some(*pc),
            _ => None,
        }
    }

    /// The number of captured backtrace frames; absent exactly for user
    /// traps, which carry no backtrace.
    pub fn backtrace_frame_count(&self) -> (r: Option<usize>)
        ensures
            r is Some <==> !(*self is User),
    {
        match self {
            Trap::User(_) => None,
            Trap::Wasm { backtrace, .. } => Some(frame_count(backtrace)),
            Trap::Lib { backtrace, .. } => Some(frame_count(backtrace)),
            Trap::OOM { backtrace } => Some(frame_count(backtrace)),
        }
    }
}

} // verus!
