//! Plain data carried across the boundary layer.
//!
//! Interpreter values are modelled explicitly: primitives are held inline,
//! while complex values (strings, tables, functions, coroutines, failure
//! capsules) live in the interpreter's object heap and are identified by
//! their heap index, which also serves as their identity for raw equality.

use vstd::prelude::*;
use crate::error::Error;
use crate::error::PanicPayload;

verus! {

/// A single interpreter value.
#[derive(Clone, Copy, PartialEq, Eq, Structural, Debug)]
pub enum Value {
    /// The absent value.
    Nil,
    /// A boolean.
    Boolean(bool),
    /// An integer number.
    Integer(i64),
    /// A complex value, identified by its index in the object heap.
    Obj(usize),
}

impl Value {
    /// Whether this value is the absent value.
    pub open spec fn spec_is_nil(&self) -> bool {
        self is Nil
    }

    /// Whether this value is the absent value.
    #[verifier::when_used_as_spec(spec_is_nil)]
    pub fn is_nil(&self) -> (r: bool)
        ensures
            r == self.spec_is_nil(),
    {
        match self {
            Value::Nil => true,
            _ => false,
        }
    }

    /// The integer held by this value, if it is an integer.
    pub fn as_integer(&self) -> (r: Option<i64>)
        ensures
            r == (match self {
                Value::Integer(n) => Some(*n),
                _ => None::<i64>,
            }),
    {
        match self {
            Value::Integer(n) => Some(*n),
            _ => None,
        }
    }
}

/// One instruction of a compiled chunk or of a host routine body.
///
/// Bodies are straight-line: execution proceeds from the first instruction
/// and ends at the first `Return`, `Raise` or `Panic`, or suspends at a
/// `Yield` and continues after it on the next resume.
#[derive(Clone, Debug)]
pub enum Instr {
    /// Push an integer constant onto the running stack.
    PushInt(i64),
    /// Push a captured value onto the running stack (used to bind
    /// arguments to a function ahead of its own).
    PushVal(Value),
    /// Pop two integers and push their wrapping sum.
    Add,
    /// Pop every value off the running stack, adding the integers into the
    /// accumulator; a non-integer value raises a runtime error.
    AccumArgs,
    /// Push the accumulator onto the running stack.
    PushAcc,
    /// Suspend, handing the current stack contents out as yielded values.
    Yield,
    /// Finish, handing the current stack contents out as results.
    Return,
    /// Raise a runtime error carrying this message.
    Raise(String),
    /// Panic on the host side with a textual payload.
    Panic(String),
}

/// The body of a function object: its instructions, and whether the
/// function is a host callback (host bodies run inside the callback
/// error boundary; chunk bodies run under the protected call wrapper).
#[derive(Clone, Debug)]
pub struct FuncDef {
    pub program: Vec<Instr>,
    pub host: bool,
}

/// A failure in flight across the boundary: either a structured host
/// error or a caught host panic payload (taken out exactly once when the
/// panic is resumed).
#[derive(Debug)]
pub enum WrappedFailure {
    Error(Error),
    Panic(Option<PanicPayload>),
}

/// One entry of the interpreter's object heap.
#[derive(Debug)]
pub enum LuaObj {
    /// An immutable string.
    Str(String),
    /// A table of key-value pairs.
    Table(Vec<(Value, Value)>),
    /// A function.
    Func(FuncDef),
    /// A coroutine, pointing at its thread context.
    Coroutine(usize),
    /// A failure capsule: interpreter-visible storage for one failure.
    Capsule(Option<WrappedFailure>),
    /// A full userdata value: its registered type's identity token, and
    /// whether it is still alive (its destructor has not run).
    Userdata { type_tag: u64, alive: bool },
}

/// How a call or a resume driven from host code ended: results, a host
/// error, or a host panic that must be resumed rather than converted to
/// a value.
#[derive(Debug)]
pub enum CallOutcome {
    /// The operation returned (or yielded) these values.
    Values(Vec<Value>),
    /// The operation failed with a host-level error.
    Failure(Error),
    /// A host panic crossed back out of the boundary; its payload must
    /// be re-raised by the host, never silently swallowed.
    HostPanic(PanicPayload),
}

} // verus!
