//! Error taxonomy of the binding layer.
//!
//! Interpreter-raised failures (syntax, runtime, memory), host-produced
//! errors and caught host panics all cross the boundary as values of the
//! types below; panics are never silently converted into plain errors.

use vstd::prelude::*;
use vstd::string::StringExecFns;

verus! {

/// The payload of a host panic caught at a callback boundary.
///
/// A payload is stored in a failure capsule and, if it is retrieved back
/// into host code, must be handed back exactly as it was constructed.
#[derive(Debug)]
pub enum PanicPayload {
    /// A textual payload (a panic with a string message).
    Text(String),
    /// An opaque non-textual payload, identified by a numeric token.
    Opaque(u64),
}

impl PanicPayload {
    /// The text of a textual payload, as a sequence of characters.
    pub open spec fn text(self) -> Seq<char> {
        match self {
            PanicPayload::Text(s) => s@,
            PanicPayload::Opaque(_) => Seq::empty(),
        }
    }

    /// Structural equality of payloads, decided executably.
    pub fn payload_eq(&self, other: &PanicPayload) -> (r: bool)
        ensures
            r <==> ((self is Text && other is Text && self.text() == other.text())
                || (self is Opaque && other is Opaque
                    && self->Opaque_0 == other->Opaque_0)),
    {
        match (self, other) {
            (PanicPayload::Text(a), PanicPayload::Text(b)) => {
                let x: &String = a;
                let y: &String = b;
                x.eq(y)
            }
            (PanicPayload::Opaque(a), PanicPayload::Opaque(b)) => a == b,
            _ => false,
        }
    }

    /// A copy of this payload.
    pub fn duplicate(&self) -> (r: PanicPayload)
        ensures
            r == self,
    {
        match self {
            PanicPayload::Text(s) => PanicPayload::Text(s.clone()),
            PanicPayload::Opaque(n) => PanicPayload::Opaque(*n),
        }
    }
}

/// The message carried by every memory-limit failure.
pub open spec fn memory_error_text() -> Seq<char> {
    "memory allocation error: not enough memory"@
}

/// The error returned when the configured memory limit refuses an
/// allocation.
pub fn memory_error() -> (e: Error)
    ensures
        e.spec_kind() == ErrorKind::Memory,
        e.spec_message() == memory_error_text(),
{
    proof {
        reveal_strlit("memory allocation error: not enough memory");
    }
    Error::MemoryError(String::from_str("memory allocation error: not enough memory"))
}

/// The kind of an [`Error`], without its message parts.
#[derive(Clone, Copy, PartialEq, Eq, Structural, Debug)]
pub enum ErrorKind {
    Runtime,
    Syntax,
    Memory,
    Safety,
    CoroutineUnresumable,
    CallbackDestructed,
    UserDataTypeMismatch,
    UserDataDestructed,
    Callback,
}

/// A failure observed at the host boundary.
#[derive(Debug)]
pub enum Error {
    /// An error raised while interpreter code was running.
    RuntimeError(String),
    /// The loader rejected a source chunk.
    SyntaxError(String),
    /// An allocation was refused because the configured memory limit
    /// was reached.
    MemoryError(String),
    /// An operation refused in safe mode.
    SafetyError(String),
    /// A thread that is `Finished` or currently running was resumed.
    CoroutineInactive,
    /// A callback was invoked after its upvalue had been destructed.
    CallbackDestructed,
    /// A userdata value of one registered type stood where another was
    /// required, or the value was no userdata at all.
    UserDataTypeMismatch,
    /// A userdata value was used after its destructor had run.
    UserDataDestructed,
    /// A failure inside a callback, decorated with a captured traceback
    /// of the interpreter call stack at the failure point.
    CallbackError { traceback: String, cause: Box<Error> },
}

impl Error {
    /// The kind of this error.
    pub open spec fn spec_kind(&self) -> ErrorKind {
        match self {
            Error::RuntimeError(_) => ErrorKind::Runtime,
            Error::SyntaxError(_) => ErrorKind::Syntax,
            Error::MemoryError(_) => ErrorKind::Memory,
            Error::SafetyError(_) => ErrorKind::Safety,
            Error::CoroutineInactive => ErrorKind::CoroutineUnresumable,
            Error::CallbackDestructed => ErrorKind::CallbackDestructed,
            Error::UserDataTypeMismatch => ErrorKind::UserDataTypeMismatch,
            Error::UserDataDestructed => ErrorKind::UserDataDestructed,
            Error::CallbackError { .. } => ErrorKind::Callback,
        }
    }

    /// The kind of this error.
    #[verifier::when_used_as_spec(spec_kind)]
    pub fn kind(&self) -> (k: ErrorKind)
        ensures
            k == self.spec_kind(),
    {
        match self {
            Error::RuntimeError(_) => ErrorKind::Runtime,
            Error::SyntaxError(_) => ErrorKind::Syntax,
            Error::MemoryError(_) => ErrorKind::Memory,
            Error::SafetyError(_) => ErrorKind::Safety,
            Error::CoroutineInactive => ErrorKind::CoroutineUnresumable,
            Error::CallbackDestructed => ErrorKind::CallbackDestructed,
            Error::UserDataTypeMismatch => ErrorKind::UserDataTypeMismatch,
            Error::UserDataDestructed => ErrorKind::UserDataDestructed,
            Error::CallbackError { .. } => ErrorKind::Callback,
        }
    }

    /// The message text of this error: the immediate message of the
    /// outermost layer, without the chained cause.
    pub open spec fn spec_message(self) -> Seq<char> {
        match self {
            Error::RuntimeError(s) => s@,
            Error::SyntaxError(s) => s@,
            Error::MemoryError(s) => s@,
            Error::SafetyError(s) => s@,
            Error::CoroutineInactive => "coroutine is non-resumable"@,
            Error::CallbackDestructed => "callback has been destructed"@,
            Error::UserDataTypeMismatch => "userdata type mismatch"@,
            Error::UserDataDestructed => "userdata has been destructed"@,
            Error::CallbackError { traceback, .. } => traceback@,
        }
    }

    /// The full message of this error: every layer's message, outermost
    /// first, each followed by the next cause.
    pub open spec fn spec_full_message(self) -> Seq<char>
        decreases self,
    {
        match self {
            Error::CallbackError { traceback, cause } => traceback@ + cause.spec_full_message(),
            _ => self.spec_message(),
        }
    }

    /// Renders the full message of this error.
    pub fn message(&self) -> (r: String)
        ensures
            r@ == self.spec_full_message(),
        decreases self,
    {
        match self {
            Error::RuntimeError(s) => s.clone(),
            Error::SyntaxError(s) => s.clone(),
            Error::MemoryError(s) => s.clone(),
            Error::SafetyError(s) => s.clone(),
            Error::CoroutineInactive => String::from_str("coroutine is non-resumable"),
            Error::CallbackDestructed => String::from_str("callback has been destructed"),
            Error::UserDataTypeMismatch => String::from_str("userdata type mismatch"),
            Error::UserDataDestructed => String::from_str("userdata has been destructed"),
            Error::CallbackError { traceback, cause } => {
                let mut out = traceback.clone();
                let tail = cause.message();
                out.append(tail.as_str());
                out
            }
        }
    }

    /// A copy of this error.
    pub fn duplicate(&self) -> (r: Error)
        ensures
            r == self,
        decreases self,
    {
        match self {
            Error::RuntimeError(s) => Error::RuntimeError(s.clone()),
            Error::SyntaxError(s) => Error::SyntaxError(s.clone()),
            Error::MemoryError(s) => Error::MemoryError(s.clone()),
            Error::SafetyError(s) => Error::SafetyError(s.clone()),
            Error::CoroutineInactive => Error::CoroutineInactive,
            Error::CallbackDestructed => Error::CallbackDestructed,
            Error::UserDataTypeMismatch => Error::UserDataTypeMismatch,
            Error::UserDataDestructed => Error::UserDataDestructed,
            Error::CallbackError { traceback, cause } => Error::CallbackError {
                traceback: traceback.clone(),
                cause: Box::new(cause.duplicate()),
            },
        }
    }
}

/// The marker text standing for a captured interpreter traceback.
pub open spec fn traceback_text() -> Seq<char> {
    "stack traceback:\n"@
}

/// Captures a textual traceback of the interpreter call stack.
pub fn capture_traceback() -> (r: String)
    ensures
        r@ == traceback_text(),
{
    proof {
        reveal_strlit("stack traceback:\n");
    }
    String::from_str("stack traceback:\n")
}

} // verus!
