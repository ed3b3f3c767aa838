//! Invocation of functions from host code, and conversion of caught
//! interpreter error values back into host failures.

use vstd::prelude::*;
use vstd::string::StringExecFns;
use crate::api::no_panic_instr;
use crate::api::lemma_no_panic_no_panicked;
use crate::api::spec_func_def;
use crate::api::spec_is_function;
use crate::error::Error;
use crate::error::ErrorKind;
use crate::error::PanicPayload;
use crate::exec::exec_program;
use crate::exec::spec_exec;
use crate::exec::ProgOutcome;
use crate::exec::SpecOutcome;
use crate::function::Function;
use crate::state::Lua;
use crate::util::callback_error_ext;
use crate::util::capsule_reserve_activate;
use crate::util::raised_string_fallback;
use crate::util::raised_string_fresh;
use crate::util::raised_with;
use crate::util::spec_failure_string;
use crate::util::spec_raised;
use crate::util::spec_wrapped_failure;
use crate::util::yield_outside_text;
use crate::util::TrampolineResult;
use crate::value::CallOutcome;
use crate::value::LuaObj;
use crate::value::Value;
use crate::value::WrappedFailure;

verus! {

/// The text shown for a caught error value that is neither a failure
/// capsule nor a string.
pub open spec fn opaque_error_text() -> Seq<char> {
    "non-string error value"@
}

/// What converting a caught error value `v` in state `a` leaves: the
/// resulting host outcome `r` and the state `b`.
pub open spec fn spec_converted(a: &Lua, b: &Lua, v: Value, r: CallOutcome) -> bool {
    match v {
        Value::Obj(id) => {
            if id < a.objects@.len() {
                match a.objects@[id as int] {
                    LuaObj::Capsule(content) => match content {
                        Some(WrappedFailure::Error(e)) => {
                            &&& r matches CallOutcome::Failure(e2) && e2 == e
                            &&& b.heap_unchanged(a)
                        },
                        Some(WrappedFailure::Panic(p)) => match p {
                            Some(pay) => {
                                &&& r matches CallOutcome::HostPanic(p2) && p2 == pay
                                &&& b.objects@ == a.objects@.update(
                                    id as int,
                                    LuaObj::Capsule(Some(WrappedFailure::Panic(None))),
                                )
                            },
                            None => r matches CallOutcome::Values(vs) && vs@ =~= seq![Value::Nil]
                                && b.heap_unchanged(a),
                        },
                        None => r matches CallOutcome::Values(vs) && vs@ =~= seq![Value::Nil]
                            && b.heap_unchanged(a),
                    },
                    LuaObj::Str(s) => {
                        &&& r matches CallOutcome::Failure(e) && (e matches Error::RuntimeError(m)
                            && m@ == s@)
                        &&& b.heap_unchanged(a)
                    },
                    _ => {
                        &&& r matches CallOutcome::Failure(e) && (e matches Error::RuntimeError(m)
                            && m@ == opaque_error_text())
                        &&& b.heap_unchanged(a)
                    },
                }
            } else {
                &&& r matches CallOutcome::Failure(e) && (e matches Error::RuntimeError(m) && m@
                    == opaque_error_text())
                &&& b.heap_unchanged(a)
            }
        },
        _ => {
            &&& r matches CallOutcome::Failure(e) && (e matches Error::RuntimeError(m) && m@
                == opaque_error_text())
            &&& b.heap_unchanged(a)
        },
    }
}

impl Lua {
    /// Converts a caught interpreter error value back into a host
    /// failure. A capsule carrying an error hands the error out (the
    /// capsule keeps it); a capsule carrying a caught panic hands the
    /// payload out exactly once — the panic is resumed on the host side,
    /// never silently converted to a value — and the capsule retains an
    /// empty payload, which reads as nil if it is ever seen again. A
    /// plain string is a string-valued error.
    pub fn convert_caught(&mut self, v: Value) -> (r: CallOutcome)
        requires
            old(self).wf(),
        ensures
            final(self).wf(),
            final(self).threads_unchanged(old(self)),
            final(self).refs_unchanged(old(self)),
            final(self).failure_unchanged(old(self)),
            final(self).misc_unchanged(old(self)),
            final(self).objects@.len() == old(self).objects@.len(),
            spec_converted(old(self), final(self), v, r),
    {
        proof {
            reveal_strlit("non-string error value");
        }
        match v {
            Value::Obj(id) => {
                if id < self.objects.len() {
                    let taken: Option<PanicPayload> = match &self.objects[id] {
                        LuaObj::Capsule(Some(WrappedFailure::Error(e))) => {
                            let e2 = e.duplicate();
                            return CallOutcome::Failure(e2);
                        }
                        LuaObj::Capsule(Some(WrappedFailure::Panic(Some(p)))) => {
                            Some(p.duplicate())
                        }
                        LuaObj::Capsule(Some(WrappedFailure::Panic(None))) => {
                            let mut vs: Vec<Value> = Vec::new();
                            vs.push(Value::Nil);
                            return CallOutcome::Values(vs);
                        }
                        LuaObj::Capsule(None) => {
                            let mut vs: Vec<Value> = Vec::new();
                            vs.push(Value::Nil);
                            return CallOutcome::Values(vs);
                        }
                        LuaObj::Str(s) => {
                            let m = s.clone();
                            return CallOutcome::Failure(Error::RuntimeError(m));
                        }
                        _ => {
                            return CallOutcome::Failure(
                                Error::RuntimeError(String::from_str("non-string error value")),
                            );
                        }
                    };
                    match taken {
                        Some(pay) => {
                            // Take the payload out: a panic is resumed at
                            // most once.
                            self.objects[id] = LuaObj::Capsule(
                                Some(WrappedFailure::Panic(None)),
                            );
                            proof {
                                assert forall|k: int|
                                    0 <= k < self.failure_pool@.len() implies self.capsule_slot_ok(
                                    #[trigger] self.failure_pool@[k],
                                ) by {
                                    assert(old(self).capsule_slot_ok(self.failure_pool@[k]));
                                }
                            }
                            CallOutcome::HostPanic(pay)
                        }
                        None => {
                            proof {
                                assert(false);
                            }
                            CallOutcome::Values(Vec::new())
                        }
                    }
                } else {
                    CallOutcome::Failure(
                        Error::RuntimeError(String::from_str("non-string error value")),
                    )
                }
            }
            _ => {
                CallOutcome::Failure(
                    Error::RuntimeError(String::from_str("non-string error value")),
                )
            }
        }
    }

    /// Calls a function under the interpreter's own protected-call
    /// facility, from interpreter context: a raised failure is caught at
    /// the protected-call boundary and handed back as the caught error
    /// value, without being converted to a host failure (so a caught
    /// panic stays interpreter-side). A host callback body runs through
    /// the callback error boundary; a chunk body runs directly.
    pub fn pcall(&mut self, func: &Function, args: Vec<Value>) -> (r: Result<Vec<Value>, Value>)
        requires
            old(self).wf(),
            spec_is_function(old(self), func.0),
            old(self).objects@.len() + 2 < usize::MAX,
            !spec_func_def(old(self), func.0).host ==> no_panic_instr(
                spec_func_def(old(self), func.0).program@,
            ),
        ensures
            final(self).wf(),
            final(self).threads_unchanged(old(self)),
            final(self).ref_threads == old(self).ref_threads,
            final(self).misc_unchanged(old(self)),
            ({
                let fd = spec_func_def(old(self), func.0);
                let end = spec_exec(fd.program@, 0, 0, args@);
                if fd.host {
                    (match end.outcome {
                        SpecOutcome::Returned => r matches Ok(vs) && vs@ == end.stack,
                        SpecOutcome::Yielded => r matches Err(v) && spec_raised(
                            old(self),
                            final(self),
                            SpecOutcome::Failed(ErrorKind::Runtime, yield_outside_text()),
                            true,
                            v,
                        ),
                        _ => r matches Err(v) && spec_raised(
                            old(self),
                            final(self),
                            end.outcome,
                            true,
                            v,
                        ),
                    }) || (r matches Err(v) && v is Nil && old(self).failure_top == 0 && old(
                        self,
                    ).alloc_would_fail())
                } else {
                    match end.outcome {
                        SpecOutcome::Returned => r matches Ok(vs) && vs@ == end.stack
                            && final(self).heap_unchanged(old(self)),
                        SpecOutcome::Yielded => r matches Err(v) && spec_chunk_raised(
                            old(self),
                            final(self),
                            yield_outside_text(),
                            v,
                        ),
                        SpecOutcome::Failed(kind, msg) => r matches Err(v) && spec_chunk_raised(
                            old(self),
                            final(self),
                            msg,
                            v,
                        ),
                        SpecOutcome::Panicked(_) => false,
                    }
                }
            }),
    {
        let (program, host) = self.read_func_body(func);
        if host {
            match callback_error_ext(self, true, &program, args) {
                Ok(TrampolineResult::Ret(vs)) => Ok(vs),
                Ok(TrampolineResult::Yield(_)) => {
                    proof {
                        assert(false);
                    }
                    Err(Value::Nil)
                }
                Ok(TrampolineResult::Raised(v)) => Err(v),
                Err(_) => Err(Value::Nil),
            }
        } else {
            let mut stack = args;
            let (outcome, _pc, _acc) = exec_program(&program, 0, 0, &mut stack);
            match outcome {
                ProgOutcome::Returned => Ok(stack),
                ProgOutcome::Yielded => {
                    proof {
                        reveal_strlit("attempt to yield from outside a coroutine");
                    }
                    let v = self.chunk_error_value(
                        String::from_str("attempt to yield from outside a coroutine"),
                    );
                    Err(v)
                }
                ProgOutcome::Failed(e) => {
                    let v = self.chunk_error_value(e.message());
                    Err(v)
                }
                ProgOutcome::Panicked(_) => {
                    proof {
                        lemma_no_panic_no_panicked(program@, 0, 0, args@);
                    }
                    Err(Value::Nil)
                }
            }
        }
    }

    /// Reads the body of the function pinned by a handle.
    pub(crate) fn read_func_body(&self, func: &Function) -> (r: (Vec<crate::value::Instr>, bool))
        requires
            self.wf(),
            spec_is_function(self, func.0),
        ensures
            r.0@ == spec_func_def(self, func.0).program@,
            r.1 == spec_func_def(self, func.0).host,
    {
        let id = match *self.ref_threads[func.0.aux_thread].read(func.0.index) {
            Value::Obj(id) => id,
            _ => {
                proof {
                    assert(false);
                }
                0
            }
        };
        match &self.objects[id] {
            LuaObj::Func(fd) => (crate::exec::clone_program(&fd.program), fd.host),
            _ => {
                proof {
                    assert(false);
                }
                (Vec::new(), false)
            }
        }
    }

    /// Raises a chunk-level error: interpreter code raises plain string
    /// values, so the caught value is a fresh string object carrying the
    /// message (or nil if not even that string could be allocated).
    fn chunk_error_value(&mut self, message: String) -> (v: Value)
        requires
            old(self).wf(),
            old(self).objects@.len() < usize::MAX,
        ensures
            final(self).wf(),
            final(self).threads_unchanged(old(self)),
            final(self).refs_unchanged(old(self)),
            final(self).failure_unchanged(old(self)),
            final(self).misc_unchanged(old(self)),
            spec_chunk_raised(old(self), final(self), message@, v),
    {
        match self.alloc_obj(LuaObj::Str(message)) {
            Ok(sid) => Value::Obj(sid),
            Err(_) => Value::Nil,
        }
    }
}

/// What a chunk-level raise leaves behind: the caught value is a fresh
/// string object carrying the message, or nil when the memory limit
/// refused even that string.
pub open spec fn spec_chunk_raised(a: &Lua, b: &Lua, msg: Seq<char>, v: Value) -> bool {
    ||| (v matches Value::Obj(sid) && !a.alloc_would_fail() && sid == a.objects@.len() && (
    b.objects@[sid as int] matches LuaObj::Str(s) && s@ == msg) && b.objects@.len()
        == a.objects@.len() + 1)
    ||| (a.alloc_would_fail() && v is Nil && b.heap_unchanged(a))
}

/// How a host-side call surfaces a failure of the body, given the state
/// the call started from: under the decorated boundary a host callback's
/// failure comes back as a traceback-wrapped error (or, with error
/// objects disabled, as a plain runtime error carrying the flattened
/// message); a chunk failure comes back as a plain runtime error with
/// the raised message. When the memory limit blocked the failure path
/// itself, an opaque error is all that is left.
pub open spec fn spec_failure_result(
    a: &Lua,
    kind: ErrorKind,
    msg: Seq<char>,
    host: bool,
    r: CallOutcome,
) -> bool {
    if host {
        ||| (r matches CallOutcome::Failure(e) && (e matches Error::CallbackError {
            traceback,
            cause,
        } && traceback@ == crate::error::traceback_text() && cause.spec_kind() == kind
            && cause.spec_message() == msg))
        ||| (r matches CallOutcome::Failure(e) && a.disable_error_userdata && (e matches
        Error::RuntimeError(m) && m@ == crate::error::traceback_text() + msg))
        ||| (r matches CallOutcome::Failure(e) && a.failure_top == 0 && a.alloc_would_fail() && (
        e matches Error::RuntimeError(m) && m@ == opaque_error_text()))
    } else {
        ||| (r matches CallOutcome::Failure(e) && (e matches Error::RuntimeError(m) && m@ == msg))
        ||| (r matches CallOutcome::Failure(e) && a.alloc_would_fail() && (e matches
        Error::RuntimeError(m) && m@ == opaque_error_text()))
    }
}

/// A failure raised through the boundary and then converted back into a
/// host outcome surfaces exactly as the call contract states.
proof fn lemma_raised_converted(
    a: &Lua,
    b: &Lua,
    c: &Lua,
    kind: ErrorKind,
    msg: Seq<char>,
    v: Value,
    r: CallOutcome,
)
    requires
        spec_raised(a, b, SpecOutcome::Failed(kind, msg), true, v),
        spec_converted(b, c, v, r),
    ensures
        spec_failure_result(a, kind, msg, true, r),
{
    let oc = SpecOutcome::Failed(kind, msg);
    let failure = choose|failure: WrappedFailure|
        #[trigger] spec_wrapped_failure(oc, true, failure) && raised_with(a, b, failure, v);
    if !a.disable_error_userdata || failure is Panic {
        let cap = choose|cap: usize|
            #[trigger] capsule_reserve_activate(a, b, failure, cap) && v == Value::Obj(cap);
        assert(b.objects@[cap as int] == LuaObj::Capsule(Some(failure)));
        assert((cap as int) < b.objects@.len());
    } else {
        let (cap, m) = choose|cap: usize, m: Lua|
            #[trigger] capsule_reserve_activate(a, &m, failure, cap) && (raised_string_fresh(
                &m,
                b,
                failure,
                v,
            ) || raised_string_fallback(&m, b, failure, v, cap));
        if raised_string_fresh(&m, b, failure, v) {
            let sid = v->Obj_0;
            assert(b.objects@[sid as int] matches LuaObj::Str(s) && s@ == spec_failure_string(
                failure,
            ));
            let e = failure->Error_0;
            let cause = e->CallbackError_cause;
            assert(spec_failure_string(failure) == e.spec_full_message());
            assert(e.spec_full_message() == e->CallbackError_traceback@
                + cause.spec_full_message());
            assert(cause.spec_full_message() == cause.spec_message()) by {
                match *cause {
                    Error::CallbackError { .. } => {
                        assert(false);
                    },
                    _ => {},
                }
            }
            assert(spec_failure_string(failure) == crate::error::traceback_text() + msg);
        } else {
            assert(b.objects@[cap as int] == LuaObj::Capsule(Some(failure)));
        }
    }
}

/// Panic fidelity: a panic raised through the boundary and then
/// retrieved back into host code resumes as a host panic with the
/// identical payload type and text it was stored with, never as a
/// plain value.
pub proof fn lemma_raised_panic_converted(
    a: &Lua,
    b: &Lua,
    c: &Lua,
    txt: Seq<char>,
    v: Value,
    r: CallOutcome,
)
    requires
        spec_raised(a, b, SpecOutcome::Panicked(txt), true, v),
        spec_converted(b, c, v, r),
    ensures
        r matches CallOutcome::HostPanic(p) && p is Text && p.text() == txt,
{
    let oc = SpecOutcome::Panicked(txt);
    let failure = choose|failure: WrappedFailure|
        #[trigger] spec_wrapped_failure(oc, true, failure) && raised_with(a, b, failure, v);
    assert(failure is Panic);
    let cap = choose|cap: usize|
        #[trigger] capsule_reserve_activate(a, b, failure, cap) && v == Value::Obj(cap);
    assert(b.objects@[cap as int] == LuaObj::Capsule(Some(failure)));
}

impl Function {
    /// Calls the function from host code, passing `args`, and hands back
    /// the results. A failure raised inside the call is caught at the
    /// protected-call boundary and converted back to a host failure; a
    /// panic that crossed into the interpreter during the call is
    /// retrieved back into host code and resumes with its original
    /// payload, never converted to a value.
    pub fn call(&self, lua: &mut Lua, args: Vec<Value>) -> (r: CallOutcome)
        requires
            old(lua).wf(),
            spec_is_function(old(lua), self.0),
            old(lua).objects@.len() + 2 < usize::MAX,
            !spec_func_def(old(lua), self.0).host ==> no_panic_instr(
                spec_func_def(old(lua), self.0).program@,
            ),
        ensures
            final(lua).wf(),
            final(lua).threads_unchanged(old(lua)),
            final(lua).ref_threads == old(lua).ref_threads,
            final(lua).misc_unchanged(old(lua)),
            ({
                let fd = spec_func_def(old(lua), self.0);
                let end = spec_exec(fd.program@, 0, 0, args@);
                match end.outcome {
                    SpecOutcome::Returned => (r matches CallOutcome::Values(vs) && vs@
                        == end.stack) || (r matches CallOutcome::Failure(e) && fd.host && old(
                        lua,
                    ).failure_top == 0 && old(lua).alloc_would_fail() && (e matches
                    Error::RuntimeError(m) && m@ == opaque_error_text())),
                    SpecOutcome::Yielded => spec_failure_result(
                        old(lua),
                        ErrorKind::Runtime,
                        yield_outside_text(),
                        fd.host,
                        r,
                    ),
                    SpecOutcome::Failed(kind, msg) => spec_failure_result(
                        old(lua),
                        kind,
                        msg,
                        fd.host,
                        r,
                    ),
                    SpecOutcome::Panicked(txt) => (r matches CallOutcome::HostPanic(p) && p is Text
                        && p.text() == txt) || (r matches CallOutcome::Failure(e) && old(
                        lua,
                    ).failure_top == 0 && old(lua).alloc_would_fail() && (e matches
                    Error::RuntimeError(m) && m@ == opaque_error_text())),
                }
            }),
    {
        let ghost args_snapshot = args@;
        let caught = match lua.pcall(self, args) {
            Ok(vs) => {
                return CallOutcome::Values(vs);
            }
            Err(v) => v,
        };
        let ghost mid = *lua;
        let r = lua.convert_caught(caught);
        proof {
            let fd = spec_func_def(old(lua), self.0);
            let end = spec_exec(fd.program@, 0, 0, args_snapshot);
            if fd.host {
                let reserve_failed = old(lua).failure_top == 0 && old(lua).alloc_would_fail();
                match end.outcome {
                    SpecOutcome::Returned => {},
                    SpecOutcome::Yielded => {
                        if !(caught is Nil && reserve_failed) {
                            lemma_raised_converted(
                                old(lua),
                                &mid,
                                lua,
                                ErrorKind::Runtime,
                                yield_outside_text(),
                                caught,
                                r,
                            );
                        }
                    },
                    SpecOutcome::Failed(kind, msg) => {
                        if !(caught is Nil && reserve_failed) {
                            lemma_raised_converted(old(lua), &mid, lua, kind, msg, caught, r);
                        }
                    },
                    SpecOutcome::Panicked(txt) => {
                        if !(caught is Nil && reserve_failed) {
                            lemma_raised_panic_converted(old(lua), &mid, lua, txt, caught, r);
                        }
                    },
                }
            }
        }
        r
    }

    /// The stable identity pointer of the function object.
    pub fn to_pointer(&self, lua: &Lua) -> (p: Option<usize>)
        requires
            lua.wf(),
            lua.valid_ref(self.0),
        ensures
            p == (match lua.ref_value(self.0) {
                Value::Obj(id) => Some(id),
                _ => None::<usize>,
            }),
    {
        lua.ref_to_pointer(&self.0)
    }

    /// Duplicates the function: a fresh function object with a copy of
    /// the same body, pinned in a fresh slot.
    pub fn deep_clone(&self, lua: &mut Lua) -> (r: Result<Function, Error>)
        requires
            old(lua).wf(),
            spec_is_function(old(lua), self.0),
            old(lua).objects@.len() < usize::MAX,
            old(lua).threads@[old(lua).current as int].stack@.len() < usize::MAX,
        ensures
            final(lua).wf(),
            r is Err <==> old(lua).alloc_would_fail(),
            r matches Err(e) ==> e.spec_kind() == ErrorKind::Memory,
            r matches Ok(f) ==> {
                &&& f.0.owned
                &&& spec_is_function(final(lua), f.0)
                &&& spec_func_def(final(lua), f.0).program@ == spec_func_def(
                    old(lua),
                    self.0,
                ).program@
                &&& spec_func_def(final(lua), f.0).host == spec_func_def(old(lua), self.0).host
            },
            final(lua).objects@.len() <= old(lua).objects@.len() + 1,
            final(lua).threads_equiv(old(lua)),
            final(lua).failure_unchanged(old(lua)),
            final(lua).misc_unchanged(old(lua)),
    {
        let (program, host) = lua.read_func_body(self);
        match lua.create_pinned(LuaObj::Func(crate::value::FuncDef { program, host })) {
            Ok(vref) => Ok(Function(vref)),
            Err(e) => Err(e),
        }
    }    /// Binds values to the function: the returned function stages the
    /// bound values on the evaluation stack above the arguments of each
    /// call, so its body observes the call's arguments followed by the
    /// bound ones.
    pub fn bind(&self, lua: &mut Lua, binds: Vec<Value>) -> (r: Result<Function, Error>)
        requires
            old(lua).wf(),
            spec_is_function(old(lua), self.0),
            old(lua).objects@.len() < usize::MAX,
            old(lua).threads@[old(lua).current as int].stack@.len() < usize::MAX,
            binds@.len() + spec_func_def(old(lua), self.0).program@.len() <= usize::MAX,
        ensures
            final(lua).wf(),
            r is Err <==> old(lua).alloc_would_fail(),
            r matches Err(e) ==> e.spec_kind() == ErrorKind::Memory,
            r matches Ok(g) ==> {
                &&& g.0.owned
                &&& spec_is_function(final(lua), g.0)
                &&& spec_func_def(final(lua), g.0).host == spec_func_def(old(lua), self.0).host
                &&& spec_func_def(final(lua), g.0).program@ == Seq::new(
                    binds@.len(),
                    |i: int| crate::value::Instr::PushVal(binds@[i]),
                ) + spec_func_def(old(lua), self.0).program@
            },
            final(lua).objects@.len() <= old(lua).objects@.len() + 1,
            final(lua).threads_equiv(old(lua)),
            final(lua).failure_unchanged(old(lua)),
            final(lua).misc_unchanged(old(lua)),
    {
        let (program, host) = lua.read_func_body(self);
        let mut bound: Vec<crate::value::Instr> = Vec::new();
        let mut i: usize = 0;
        while i < binds.len()
            invariant
                i <= binds@.len(),
                bound@ =~= Seq::new(i as nat, |j: int| crate::value::Instr::PushVal(binds@[j])),
            decreases binds@.len() - i,
        {
            bound.push(crate::value::Instr::PushVal(binds[i]));
            proof {
                assert(bound@ =~= Seq::new(
                    (i + 1) as nat,
                    |j: int| crate::value::Instr::PushVal(binds@[j]),
                ));
            }
            i += 1;
        }
        crate::exec::append_program(&mut bound, &program);
        match lua.create_pinned(LuaObj::Func(crate::value::FuncDef { program: bound, host })) {
            Ok(vref) => Ok(Function(vref)),
            Err(e) => Err(e),
        }
    }

    /// Information about the function, as the debug interface shows it:
    /// a host callback reports as a host function, a loaded chunk as an
    /// interpreter function; this binding records no names, sources or
    /// line numbers for either.
    pub fn info(&self, lua: &Lua) -> (r: crate::types::FunctionInfo)
        requires
            lua.wf(),
            spec_is_function(lua, self.0),
        ensures
            r.name is None,
            r.name_what is None,
            r.what@ == (if spec_func_def(lua, self.0).host {
                "C"@
            } else {
                "Lua"@
            }),
            r.source is None,
            r.short_src is None,
            r.line_defined is None,
            r.last_line_defined is None,
    {
        proof {
            reveal_strlit("C");
            reveal_strlit("Lua");
        }
        let (_program, host) = lua.read_func_body(self);
        crate::types::FunctionInfo {
            name: None,
            name_what: None,
            what: if host {
                String::from_str("C")
            } else {
                String::from_str("Lua")
            },
            source: None,
            short_src: None,
            line_defined: None,
            last_line_defined: None,
        }
    }
}

} // verus!
