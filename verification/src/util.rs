//! The callback trampoline / error boundary.
//!
//! This is the path taken when the interpreter invokes a host-provided
//! callback. It reserves a failure capsule *before* the callback body
//! runs, executes the body on the staged arguments, and routes the
//! outcome: on success the unused capsule goes back to the pool; on a
//! host error or a caught host panic the capsule is populated and raised
//! through the interpreter's error mechanism (a non-local exit the
//! interpreter understands, modelled as the [`TrampolineResult::Raised`]
//! value). The yieldable variant performs an interpreter-level yield
//! when the body suspended; the plain variant raises an error instead.

use vstd::prelude::*;
use vstd::string::StringExecFns;
use crate::capsule::PreallocatedFailure;
use crate::error::capture_traceback;
use crate::error::traceback_text;
use crate::error::Error;
use crate::error::ErrorKind;
use crate::exec::exec_program;
use crate::exec::spec_exec;
use crate::exec::ProgOutcome;
use crate::exec::SpecOutcome;
use crate::state::Lua;
use crate::value::Instr;
use crate::value::LuaObj;
use crate::error::PanicPayload;
use crate::value::Value;
use crate::value::WrappedFailure;

verus! {

/// How a trip through the error boundary ended, seen from the
/// interpreter's side.
#[derive(Debug)]
pub enum TrampolineResult {
    /// The callback returned normally with these results.
    Ret(Vec<Value>),
    /// The callback suspended: an interpreter-level yield was performed
    /// with these values (yieldable boundary only).
    Yield(Vec<Value>),
    /// A failure was raised through the interpreter's error mechanism;
    /// this is the raised error value (a populated capsule, or a plain
    /// string when error objects are disabled).
    Raised(Value),
}

/// The failure stored for a body that ended in `end_outcome`, under the
/// boundary's `wrap_error` flag: an error is decorated with a captured
/// traceback only when wrapping is requested (the flag distinguishes raw
/// rethrow from decorated propagation), and a panic payload is stored as
/// caught, ready to be resumed exactly once.
pub open spec fn spec_wrapped_failure(
    end_outcome: SpecOutcome,
    wrap_error: bool,
    failure: WrappedFailure,
) -> bool {
    match end_outcome {
        SpecOutcome::Failed(kind, msg) => {
            if wrap_error {
                failure matches WrappedFailure::Error(e) && e matches Error::CallbackError {
                    traceback,
                    cause,
                } && traceback@ == traceback_text() && cause.spec_kind() == kind
                    && cause.spec_message() == msg && !((*cause) is CallbackError)
            } else {
                failure matches WrappedFailure::Error(e) && e.spec_kind() == kind
                    && e.spec_message() == msg
            }
        },
        SpecOutcome::Panicked(txt) => failure matches WrappedFailure::Panic(p) && p matches Some(
            pay,
        ) && pay is Text && pay.text() == txt,
        _ => false,
    }
}

/// The capsule-pool transition of a boundary trip whose callback
/// succeeded: the reservation went back unused. Either the pool state is
/// exactly as before, or (on first use) one fresh capsule was allocated
/// and pooled.
pub open spec fn capsule_reserve_release(a: &Lua, b: &Lua) -> bool {
    if a.failure_top > 0 {
        &&& b.failure_top == a.failure_top
        &&& b.failure_pool == a.failure_pool
        &&& b.heap_unchanged(a)
    } else {
        &&& b.objects@ == a.objects@.push(LuaObj::Capsule(None))
        &&& (b.failure_top == 1 || b.failure_top == 0)
        &&& (b.failure_top == 1 ==> b.failure_pool@.len() == a.failure_pool@.len() + 1)
        &&& (b.failure_top == 0 ==> b.failure_pool == a.failure_pool)
    }
}

/// The capsule-pool transition of a boundary trip whose callback failed:
/// the reservation was activated and holds `failure`; `cap` is the
/// populated capsule object.
pub open spec fn capsule_reserve_activate(
    a: &Lua,
    b: &Lua,
    failure: WrappedFailure,
    cap: usize,
) -> bool {
    if a.failure_top > 0 {
        &&& b.failure_top == a.failure_top - 1
        &&& b.failure_pool@ == a.failure_pool@.drop_last()
        &&& cap < a.objects@.len()
        &&& b.objects@ == a.objects@.update(cap as int, LuaObj::Capsule(Some(failure)))
    } else {
        &&& cap == a.objects@.len()
        &&& b.objects@ == a.objects@.push(LuaObj::Capsule(Some(failure)))
        &&& b.failure_top == 0
        &&& b.failure_pool == a.failure_pool
    }
}

/// The plain-string rendering of a failure: an error renders as its full
/// message, a panic as its payload text.
pub open spec fn spec_failure_string(failure: WrappedFailure) -> Seq<char> {
    match failure {
        WrappedFailure::Error(e) => e.spec_full_message(),
        WrappedFailure::Panic(p) => match p {
            Some(pay) => pay.text(),
            None => Seq::empty(),
        },
    }
}

/// What the raised error value is after a failing boundary trip: the
/// populated capsule; except that with error objects disabled a host
/// *error* is re-encoded as a plain string object carrying its message
/// (a panic still travels in its capsule, so it is never flattened to a
/// value) — unless even that string could not be allocated, in which
/// case the capsule is raised after all.
pub open spec fn spec_raised(
    a: &Lua,
    b: &Lua,
    end_outcome: SpecOutcome,
    wrap_error: bool,
    v: Value,
) -> bool {
    exists|failure: WrappedFailure|
        {
            &&& #[trigger] spec_wrapped_failure(end_outcome, wrap_error, failure)
            &&& raised_with(a, b, failure, v)
        }
}

/// How a specific failure value left the boundary: in its capsule, or
/// (for an error, with error objects disabled) as a plain string.
pub open spec fn raised_with(a: &Lua, b: &Lua, failure: WrappedFailure, v: Value) -> bool {
    if !a.disable_error_userdata || failure is Panic {
        raised_capsule(a, b, failure, v)
    } else {
        raised_string(a, b, failure, v)
    }
}

/// The failure left in its populated capsule, which is the raised value.
pub open spec fn raised_capsule(a: &Lua, b: &Lua, failure: WrappedFailure, v: Value) -> bool {
    exists|cap: usize|
        {
            &&& #[trigger] capsule_reserve_activate(a, b, failure, cap)
            &&& v == Value::Obj(cap)
        }
}

/// The failure left in its capsule, with a fresh string object carrying
/// its message raised in its place (or the capsule itself when the
/// memory limit refused the string).
pub open spec fn raised_string(a: &Lua, b: &Lua, failure: WrappedFailure, v: Value) -> bool {
    exists|cap: usize, m: Lua|
        #[trigger] capsule_reserve_activate(a, &m, failure, cap) && (raised_string_fresh(
            &m,
            b,
            failure,
            v,
        ) || raised_string_fallback(&m, b, failure, v, cap))
}

/// The message string was allocated and is the raised value.
pub open spec fn raised_string_fresh(m: &Lua, b: &Lua, failure: WrappedFailure, v: Value) -> bool {
    v matches Value::Obj(sid) && !m.alloc_would_fail() && sid == m.objects@.len()
        && b.objects@.len() == m.objects@.len() + 1 && (
    b.objects@[sid as int] matches LuaObj::Str(s) && s@ == spec_failure_string(failure)) && (
    forall|j: int| 0 <= j < m.objects@.len() ==> #[trigger] b.objects@[j] == m.objects@[j])
        && b.failure_top == m.failure_top && b.failure_pool == m.failure_pool
}

/// The memory limit refused the message string; the capsule is raised.
pub open spec fn raised_string_fallback(
    m: &Lua,
    b: &Lua,
    failure: WrappedFailure,
    v: Value,
    cap: usize,
) -> bool {
    m.alloc_would_fail() && b.objects@ == m.objects@ && b.failure_top == m.failure_top
        && b.failure_pool == m.failure_pool && v == Value::Obj(cap)
}

/// Renders a failure as a plain string.
fn failure_string(f: &WrappedFailure) -> (s: String)
    ensures
        s@ == spec_failure_string(*f),
{
    match f {
        WrappedFailure::Error(e) => e.message(),
        WrappedFailure::Panic(p) => match p {
            Some(PanicPayload::Text(t)) => t.clone(),
            Some(PanicPayload::Opaque(_)) => String::new(),
            None => String::new(),
        },
    }
}

/// The message of the error raised when a callback tries to yield
/// outside a yieldable boundary.
pub open spec fn yield_outside_text() -> Seq<char> {
    "attempt to yield from outside a coroutine"@
}

/// The error raised when a callback yields outside a yieldable boundary.
fn yield_outside_error() -> (e: Error)
    ensures
        e.spec_kind() == ErrorKind::Runtime,
        e.spec_message() == yield_outside_text(),
        e is RuntimeError,
{
    proof {
        reveal_strlit("attempt to yield from outside a coroutine");
    }
    Error::RuntimeError(String::from_str("attempt to yield from outside a coroutine"))
}

/// Populates the reserved capsule with the failure and produces the
/// raised error value: the capsule itself, or a plain message string
/// when error objects are disabled (with the capsule as fallback when
/// not even the string can be allocated).
fn raise_failure(
    lua: &mut Lua,
    prealloc: PreallocatedFailure,
    failure: WrappedFailure,
    Ghost(pre): Ghost<Lua>,
    Ghost(end_outcome): Ghost<SpecOutcome>,
    Ghost(wrap_error): Ghost<bool>,
) -> (v: Value)
    requires
        old(lua).wf(),
        prealloc.wf_token(old(lua)),
        old(lua).objects@.len() + 1 < usize::MAX,
        spec_wrapped_failure(end_outcome, wrap_error, failure),
        // How the reservation got here from the pre-reserve state.
        old(lua).threads == pre.threads,
        old(lua).current == pre.current,
        old(lua).ref_threads == pre.ref_threads,
        old(lua).misc_unchanged(&pre),
        pre.failure_top > 0 ==> prealloc is Reserved && old(lua).failure_top == pre.failure_top - 1
            && old(lua).failure_pool == pre.failure_pool && old(lua).heap_unchanged(&pre),
        pre.failure_top == 0 ==> (prealloc matches PreallocatedFailure::New(id) && id
            == pre.objects@.len() && old(lua).objects@ == pre.objects@.push(LuaObj::Capsule(None))
            && old(lua).failure_top == 0 && old(lua).failure_pool == pre.failure_pool),
    ensures
        final(lua).wf(),
        final(lua).threads == pre.threads,
        final(lua).current == pre.current,
        final(lua).ref_threads == pre.ref_threads,
        final(lua).misc_unchanged(&pre),
        spec_raised(&pre, final(lua), end_outcome, wrap_error, v),
{
    let is_panic = match &failure {
        WrappedFailure::Panic(_) => true,
        WrappedFailure::Error(_) => false,
    };
    if !lua.disable_error_userdata || is_panic {
        let cap = prealloc.activate(lua, failure);
        proof {
            if pre.failure_top == 0 {
                assert(lua.objects@ =~= pre.objects@.push(LuaObj::Capsule(Some(failure))));
            }
            assert(capsule_reserve_activate(&pre, lua, failure, cap));
        }
        Value::Obj(cap)
    } else {
        let s = failure_string(&failure);
        let cap = prealloc.activate(lua, failure);
        proof {
            if pre.failure_top == 0 {
                assert(lua.objects@ =~= pre.objects@.push(LuaObj::Capsule(Some(failure))));
            }
            assert(capsule_reserve_activate(&pre, lua, failure, cap));
        }
        let ghost m = *lua;
        match lua.alloc_obj(LuaObj::Str(s)) {
            Ok(sid) => {
                proof {
                    assert(capsule_reserve_activate(&pre, &m, failure, cap));
                    assert(lua.objects@[sid as int] matches LuaObj::Str(t) && t@
                        == spec_failure_string(failure));
                    assert(forall|j: int|
                        0 <= j < m.objects@.len() ==> #[trigger] lua.objects@[j] == m.objects@[j]);
                    assert(spec_raised(&pre, lua, end_outcome, wrap_error, Value::Obj(sid)));
                }
                Value::Obj(sid)
            }
            Err(_) => {
                proof {
                    assert(capsule_reserve_activate(&pre, &m, failure, cap));
                    assert(spec_raised(&pre, lua, end_outcome, wrap_error, Value::Obj(cap)));
                }
                Value::Obj(cap)
            }
        }
    }
}

/// How the yieldable boundary reports a body that ran to `end`: the
/// results or yield values on success (with the capsule returned), or
/// the raised failure value.
pub open spec fn boundary_result(
    a: &Lua,
    b: &Lua,
    program: Seq<Instr>,
    args: Seq<Value>,
    wrap_error: bool,
    tr: TrampolineResult,
) -> bool {
    let end = spec_exec(program, 0, 0, args);
    match end.outcome {
        SpecOutcome::Returned => tr matches TrampolineResult::Ret(vs) && vs@ == end.stack
            && capsule_reserve_release(a, b),
        SpecOutcome::Yielded => tr matches TrampolineResult::Yield(vs) && vs@ == end.stack
            && capsule_reserve_release(a, b),
        SpecOutcome::Failed(kind, msg) => tr matches TrampolineResult::Raised(v) && spec_raised(
            a,
            b,
            end.outcome,
            wrap_error,
            v,
        ),
        SpecOutcome::Panicked(txt) => tr matches TrampolineResult::Raised(v) && spec_raised(
            a,
            b,
            end.outcome,
            wrap_error,
            v,
        ),
    }
}

/// The boundary for callbacks that may suspend. Reserves a capsule, runs
/// the body on the staged arguments, and routes the outcome; the outer
/// error is returned only when the capsule reservation itself failed,
/// before any host code ran.
pub fn callback_error_ext_yieldable(
    lua: &mut Lua,
    wrap_error: bool,
    program: &Vec<Instr>,
    args: Vec<Value>,
) -> (r: Result<TrampolineResult, Error>)
    requires
        old(lua).wf(),
        old(lua).objects@.len() + 2 < usize::MAX,
    ensures
        final(lua).wf(),
        final(lua).threads_unchanged(old(lua)),
        final(lua).ref_threads == old(lua).ref_threads,
        final(lua).misc_unchanged(old(lua)),
        r is Err <==> (old(lua).failure_top == 0 && old(lua).alloc_would_fail()),
        r matches Err(e) ==> e.spec_kind() == ErrorKind::Memory && final(lua).heap_unchanged(
            old(lua),
        ) && final(lua).failure_unchanged(old(lua)),
        r matches Ok(tr) ==> boundary_result(old(lua), final(lua), program@, args@, wrap_error, tr),
{
    let ghost pre = *old(lua);
    // Reserve pre-allocated storage for a wrapped failure *before* any
    // host code runs.
    let prealloc = match PreallocatedFailure::reserve(lua) {
        Ok(tok) => tok,
        Err(e) => {
            return Err(e);
        }
    };
    // Run the host body on its own evaluation stack.
    let mut stack = args;
    let (outcome, _pc, _acc) = exec_program(program, 0, 0, &mut stack);
    match outcome {
        ProgOutcome::Returned => {
            // Return the unused capsule to the pool.
            prealloc.release(lua);
            Ok(TrampolineResult::Ret(stack))
        }
        ProgOutcome::Yielded => {
            // The body suspended: hand the staged values out through an
            // interpreter-level yield.
            prealloc.release(lua);
            Ok(TrampolineResult::Yield(stack))
        }
        ProgOutcome::Failed(err) => {
            let wrapped = if wrap_error {
                Error::CallbackError { traceback: capture_traceback(), cause: Box::new(err) }
            } else {
                err
            };
            let v = raise_failure(
                lua,
                prealloc,
                WrappedFailure::Error(wrapped),
                Ghost(pre),
                Ghost(spec_exec(program@, 0, 0, args@).outcome),
                Ghost(wrap_error),
            );
            Ok(TrampolineResult::Raised(v))
        }
        ProgOutcome::Panicked(p) => {
            let v = raise_failure(
                lua,
                prealloc,
                WrappedFailure::Panic(Some(p)),
                Ghost(pre),
                Ghost(spec_exec(program@, 0, 0, args@).outcome),
                Ghost(wrap_error),
            );
            Ok(TrampolineResult::Raised(v))
        }
    }
}

/// The boundary for callbacks that may not suspend: a yield attempt is
/// routed as a runtime error through the same failure path.
pub fn callback_error_ext(
    lua: &mut Lua,
    wrap_error: bool,
    program: &Vec<Instr>,
    args: Vec<Value>,
) -> (r: Result<TrampolineResult, Error>)
    requires
        old(lua).wf(),
        old(lua).objects@.len() + 2 < usize::MAX,
    ensures
        final(lua).wf(),
        final(lua).threads_unchanged(old(lua)),
        final(lua).ref_threads == old(lua).ref_threads,
        final(lua).misc_unchanged(old(lua)),
        r is Err <==> (old(lua).failure_top == 0 && old(lua).alloc_would_fail()),
        r matches Err(e) ==> e.spec_kind() == ErrorKind::Memory && final(lua).heap_unchanged(
            old(lua),
        ) && final(lua).failure_unchanged(old(lua)),
        r matches Ok(tr) ==> ({
            let end = spec_exec(program@, 0, 0, args@);
            match end.outcome {
                SpecOutcome::Returned => tr matches TrampolineResult::Ret(vs) && vs@ == end.stack
                    && capsule_reserve_release(old(lua), final(lua)),
                SpecOutcome::Yielded => tr matches TrampolineResult::Raised(v) && spec_raised(
                    old(lua),
                    final(lua),
                    SpecOutcome::Failed(ErrorKind::Runtime, yield_outside_text()),
                    wrap_error,
                    v,
                ),
                SpecOutcome::Failed(kind, msg) => tr matches TrampolineResult::Raised(v)
                    && spec_raised(old(lua), final(lua), end.outcome, wrap_error, v),
                SpecOutcome::Panicked(txt) => tr matches TrampolineResult::Raised(v) && spec_raised(
                    old(lua),
                    final(lua),
                    end.outcome,
                    wrap_error,
                    v,
                ),
            }
        }),
{
    let ghost pre = *old(lua);
    let prealloc = match PreallocatedFailure::reserve(lua) {
        Ok(tok) => tok,
        Err(e) => {
            return Err(e);
        }
    };
    let mut stack = args;
    let (outcome, _pc, _acc) = exec_program(program, 0, 0, &mut stack);
    match outcome {
        ProgOutcome::Returned => {
            prealloc.release(lua);
            Ok(TrampolineResult::Ret(stack))
        }
        ProgOutcome::Yielded => {
            // Yielding is not permitted here: raise it as an error.
            let err = yield_outside_error();
            let wrapped = if wrap_error {
                Error::CallbackError { traceback: capture_traceback(), cause: Box::new(err) }
            } else {
                err
            };
            let v = raise_failure(
                lua,
                prealloc,
                WrappedFailure::Error(wrapped),
                Ghost(pre),
                Ghost(SpecOutcome::Failed(ErrorKind::Runtime, yield_outside_text())),
                Ghost(wrap_error),
            );
            Ok(TrampolineResult::Raised(v))
        }
        ProgOutcome::Failed(err) => {
            let wrapped = if wrap_error {
                Error::CallbackError { traceback: capture_traceback(), cause: Box::new(err) }
            } else {
                err
            };
            let v = raise_failure(
                lua,
                prealloc,
                WrappedFailure::Error(wrapped),
                Ghost(pre),
                Ghost(spec_exec(program@, 0, 0, args@).outcome),
                Ghost(wrap_error),
            );
            Ok(TrampolineResult::Raised(v))
        }
        ProgOutcome::Panicked(p) => {
            let v = raise_failure(
                lua,
                prealloc,
                WrappedFailure::Panic(Some(p)),
                Ghost(pre),
                Ghost(spec_exec(program@, 0, 0, args@).outcome),
                Ghost(wrap_error),
            );
            Ok(TrampolineResult::Raised(v))
        }
    }
}

} // verus!
