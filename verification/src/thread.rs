//! Interpreter threads (coroutines) and the resume state machine.
//!
//! A thread handle wraps a reference to the thread object plus the
//! thread's context index. Its public status is derived live from the
//! interpreter state: a thread is `Running` exactly when it is the one
//! currently executing (which is how resuming an already-running thread
//! is detected and refused), and the staged-argument counts of the
//! internal states are derived from the thread's own stack.

use vstd::prelude::*;
use crate::error::capture_traceback;
use crate::error::traceback_text;
use crate::error::Error;
use crate::error::ErrorKind;
use crate::exec::append_values;
use crate::exec::clone_program;
use crate::exec::exec_program;
use crate::exec::spec_exec;
use crate::exec::take_stack;
use crate::exec::ExecEnd;
use crate::exec::Frame;
use crate::exec::ProgOutcome;
use crate::exec::SpecOutcome;
use crate::state::BaseStatus;
use crate::state::Lua;
use crate::state::ValueRef;
use crate::value::CallOutcome;
use crate::value::Value;

verus! {

/// Status of a continuation re-entry, mapped from the interpreter's
/// resume status code.
#[derive(Debug, Copy, Clone, Eq, PartialEq, Structural)]
pub enum ContinuationStatus {
    /// The call completed normally.
    Normal,
    /// The call suspended at a yield (rare, but possible).
    Yielded,
    /// The call ended in an error.
    Error,
}

impl ContinuationStatus {
    /// Maps the interpreter's status code (0 for a normal return, 1 for
    /// a yield) to a continuation status.
    pub fn from_status(status: i32) -> (r: ContinuationStatus)
        ensures
            r == (if status == 1 {
                ContinuationStatus::Yielded
            } else if status == 0 {
                ContinuationStatus::Normal
            } else {
                ContinuationStatus::Error
            }),
    {
        if status == 1 {
            ContinuationStatus::Yielded
        } else if status == 0 {
            ContinuationStatus::Normal
        } else {
            ContinuationStatus::Error
        }
    }
}

/// Status of an interpreter thread, as observed by the host.
#[derive(Debug, Copy, Clone, Eq, PartialEq, Structural)]
pub enum ThreadStatus {
    /// Just created or suspended at a yield; can be resumed.
    Resumable,
    /// Currently executing.
    Running,
    /// Finished executing.
    Finished,
    /// Stopped by an error during execution.
    Error,
}

/// A handle to an interpreter thread: the pinned thread object reference
/// and the thread's context index.
#[derive(Debug)]
pub struct Thread(pub ValueRef, pub usize);

/// The status a thread shows: `Running` if it is the currently executing
/// thread, otherwise derived from its lifecycle state.
pub open spec fn spec_thread_status(lua: &Lua, tid: usize) -> ThreadStatus {
    if tid == lua.current {
        ThreadStatus::Running
    } else {
        match lua.threads@[tid as int].base {
            BaseStatus::NotStarted => ThreadStatus::Resumable,
            BaseStatus::Suspended => ThreadStatus::Resumable,
            BaseStatus::Done => ThreadStatus::Finished,
            BaseStatus::Failed => ThreadStatus::Error,
        }
    }
}

/// Whether a resume of the thread is legal: it is not the running thread
/// and is newly created or suspended.
pub open spec fn spec_resumable(lua: &Lua, tid: usize) -> bool {
    &&& tid < lua.threads@.len()
    &&& tid != lua.current
    &&& (lua.threads@[tid as int].base is NotStarted || lua.threads@[tid as int].base is Suspended)
}

/// The end state a resume with these arguments drives the thread's body
/// to: the staged arguments and the new ones together are what the body
/// observes on its stack.
pub open spec fn spec_resume_end(lua: &Lua, tid: usize, args: Seq<Value>) -> ExecEnd {
    let td = lua.threads@[tid as int];
    let f = td.frame->Some_0;
    spec_exec(f.program@, f.pc as int, f.acc, td.stack@ + args)
}

impl Thread {
    /// The stable identity pointer of the thread object (for hashing
    /// and debugging; not reversible).
    pub fn to_pointer(&self, lua: &Lua) -> (p: Option<usize>)
        requires
            lua.wf(),
            lua.valid_ref(self.0),
        ensures
            p == (match lua.ref_value(self.0) {
                Value::Obj(id) => Some(id),
                _ => None::<usize>,
            }),
    {
        lua.ref_to_pointer(&self.0)
    }

    /// Gets the status of the thread, derived live from the interpreter.
    pub fn status(&self, lua: &Lua) -> (r: ThreadStatus)
        requires
            lua.wf(),
            self.1 < lua.threads@.len(),
        ensures
            r == spec_thread_status(lua, self.1),
    {
        if self.1 == lua.current {
            return ThreadStatus::Running;
        }
        match lua.threads[self.1].base {
            BaseStatus::NotStarted => ThreadStatus::Resumable,
            BaseStatus::Suspended => ThreadStatus::Resumable,
            BaseStatus::Done => ThreadStatus::Finished,
            BaseStatus::Failed => ThreadStatus::Error,
        }
    }

    /// Resumes execution of this thread, passing `args`.
    ///
    /// Only a newly created or suspended thread may be resumed; resuming
    /// the running thread or a finished or failed one fails with the
    /// unresumable condition without executing any thread code. The new
    /// arguments are pushed after any already staged on the thread's own
    /// stack, so the body observes exactly `staged + args` values; the
    /// body then runs until it returns, yields, raises or panics. The
    /// values handed back are the returned or yielded ones; an error is
    /// propagated decorated with a traceback captured on the resuming
    /// context, and a panic crosses back out as a host panic. On every
    /// path the thread's own stack is left at depth zero.
    pub fn resume(&self, lua: &mut Lua, args: Vec<Value>) -> (r: CallOutcome)
        requires
            old(lua).wf(),
            self.1 < old(lua).threads@.len(),
            old(lua).threads@[self.1 as int].stack@.len() + args@.len() <= usize::MAX,
        ensures
            final(lua).wf(),
            !spec_resumable(old(lua), self.1) ==> {
                &&& r matches CallOutcome::Failure(e) && e.spec_kind()
                    == ErrorKind::CoroutineUnresumable
                &&& final(lua).threads_unchanged(old(lua))
                &&& final(lua).refs_unchanged(old(lua))
                &&& final(lua).failure_unchanged(old(lua))
                &&& final(lua).heap_unchanged(old(lua))
                &&& final(lua).misc_unchanged(old(lua))
            },
            spec_resumable(old(lua), self.1) ==> {
                let end = spec_resume_end(old(lua), self.1, args@);
                let f = old(lua).threads@[self.1 as int].frame->Some_0;
                &&& final(lua).current == old(lua).current
                &&& final(lua).threads@.len() == old(lua).threads@.len()
                &&& forall|t: int|
                    0 <= t < old(lua).threads@.len() && t != self.1
                        ==> #[trigger] final(lua).threads@[t] == old(lua).threads@[t]
                &&& final(lua).threads@[self.1 as int].stack@.len() == 0
                &&& final(lua).refs_unchanged(old(lua))
                &&& final(lua).failure_unchanged(old(lua))
                &&& final(lua).heap_unchanged(old(lua))
                &&& final(lua).misc_unchanged(old(lua))
                &&& match end.outcome {
                    SpecOutcome::Returned => {
                        &&& r matches CallOutcome::Values(vs) && vs@ == end.stack
                        &&& final(lua).threads@[self.1 as int].base is Done
                    },
                    SpecOutcome::Yielded => {
                        &&& r matches CallOutcome::Values(vs) && vs@ == end.stack
                        &&& final(lua).threads@[self.1 as int].base is Suspended
                        &&& final(lua).threads@[self.1 as int].frame matches Some(f2)
                            && f2.program@ == f.program@ && f2.pc as int == end.pc && f2.acc
                            == end.acc && f2.host == f.host
                    },
                    SpecOutcome::Failed(kind, msg) => {
                        &&& final(lua).threads@[self.1 as int].base is Failed
                        &&& r matches CallOutcome::Failure(e) && e matches Error::CallbackError {
                            traceback,
                            cause,
                        } && traceback@ == traceback_text() && cause.spec_kind() == kind
                            && cause.spec_message() == msg
                    },
                    SpecOutcome::Panicked(txt) => {
                        &&& final(lua).threads@[self.1 as int].base is Failed
                        &&& r matches CallOutcome::HostPanic(p) && p is Text && p.text() == txt
                    },
                }
            },
    {
        let tid = self.1;
        if tid == lua.current {
            return CallOutcome::Failure(Error::CoroutineInactive);
        }
        let resumable = match lua.threads[tid].base {
            BaseStatus::NotStarted => true,
            BaseStatus::Suspended => true,
            _ => false,
        };
        if !resumable {
            return CallOutcome::Failure(Error::CoroutineInactive);
        }
        // Stage the new arguments after any already on the thread stack.
        append_values(&mut lua.threads[tid].stack, &args);
        // Rebind the current thread for the duration of the run.
        let prev = lua.current;
        lua.current = tid;
        // Read the body frame and run it on the thread's stack.
        let (program, pc, acc, host) = match &lua.threads[tid].frame {
            Some(f) => (clone_program(&f.program), f.pc, f.acc, f.host),
            None => {
                proof {
                    assert(false);
                }
                (Vec::new(), 0, 0, false)
            }
        };
        let (outcome, pc2, acc2) = exec_program(&program, pc, acc, &mut lua.threads[tid].stack);
        lua.threads[tid].frame = Some(Frame { program, pc: pc2, acc: acc2, host });
        // Restore the previously running thread.
        lua.current = prev;
        let res = match outcome {
            ProgOutcome::Returned => {
                lua.threads[tid].base = BaseStatus::Done;
                let vs = take_stack(&mut lua.threads[tid].stack);
                CallOutcome::Values(vs)
            }
            ProgOutcome::Yielded => {
                lua.threads[tid].base = BaseStatus::Suspended;
                let vs = take_stack(&mut lua.threads[tid].stack);
                CallOutcome::Values(vs)
            }
            ProgOutcome::Failed(e) => {
                lua.threads[tid].base = BaseStatus::Failed;
                lua.threads[tid].stack.clear();
                CallOutcome::Failure(
                    Error::CallbackError { traceback: capture_traceback(), cause: Box::new(e) },
                )
            }
            ProgOutcome::Panicked(p) => {
                lua.threads[tid].base = BaseStatus::Failed;
                lua.threads[tid].stack.clear();
                CallOutcome::HostPanic(p)
            }
        };
        proof {
            assert forall|t: int|
                0 <= t < lua.threads@.len() implies (#[trigger] lua.threads@[t]).wf() by {
                if t != tid {
                    assert(lua.threads@[t] == old(lua).threads@[t]);
                }
            }
        }
        res
    }

    /// Resumes this thread by immediately raising an error inside it,
    /// without running any of its code: the thread moves to the error
    /// state and the error is handed back decorated like any other
    /// resume-time failure.
    pub fn resume_error(&self, lua: &mut Lua, message: String) -> (r: CallOutcome)
        requires
            old(lua).wf(),
            self.1 < old(lua).threads@.len(),
        ensures
            final(lua).wf(),
            !spec_resumable(old(lua), self.1) ==> {
                &&& r matches CallOutcome::Failure(e) && e.spec_kind()
                    == ErrorKind::CoroutineUnresumable
                &&& final(lua).threads_unchanged(old(lua))
            },
            spec_resumable(old(lua), self.1) ==> {
                &&& final(lua).threads@[self.1 as int].base is Failed
                &&& final(lua).threads@[self.1 as int].stack@.len() == 0
                &&& r matches CallOutcome::Failure(e) && e matches Error::CallbackError {
                    traceback,
                    cause,
                } && traceback@ == traceback_text() && cause.spec_kind() == ErrorKind::Runtime
                    && cause.spec_message() == message@
                &&& final(lua).current == old(lua).current
                &&& final(lua).threads@.len() == old(lua).threads@.len()
                &&& forall|t: int|
                    0 <= t < old(lua).threads@.len() && t != self.1
                        ==> #[trigger] final(lua).threads@[t] == old(lua).threads@[t]
            },
            final(lua).refs_unchanged(old(lua)),
            final(lua).failure_unchanged(old(lua)),
            final(lua).heap_unchanged(old(lua)),
            final(lua).misc_unchanged(old(lua)),
    {
        let tid = self.1;
        if tid == lua.current {
            return CallOutcome::Failure(Error::CoroutineInactive);
        }
        let resumable = match lua.threads[tid].base {
            BaseStatus::NotStarted => true,
            BaseStatus::Suspended => true,
            _ => false,
        };
        if !resumable {
            return CallOutcome::Failure(Error::CoroutineInactive);
        }
        lua.threads[tid].base = BaseStatus::Failed;
        lua.threads[tid].stack.clear();
        proof {
            assert forall|t: int|
                0 <= t < lua.threads@.len() implies (#[trigger] lua.threads@[t]).wf() by {
                if t != tid {
                    assert(lua.threads@[t] == old(lua).threads@[t]);
                }
            }
        }
        CallOutcome::Failure(
            Error::CallbackError {
                traceback: capture_traceback(),
                cause: Box::new(Error::RuntimeError(message)),
            },
        )
    }

    /// Resets this thread to the initial state of a newly created one
    /// and installs a new body function for it. Threads in arbitrary
    /// non-running states (yielded or errored included) can be reset;
    /// resetting the running thread is always rejected.
    pub fn reset(&self, lua: &mut Lua, func: &crate::function::Function) -> (r: Result<(), Error>)
        requires
            old(lua).wf(),
            self.1 < old(lua).threads@.len(),
            old(lua).valid_ref(func.0),
            old(lua).ref_value(func.0) matches Value::Obj(id) && id < old(lua).objects@.len()
                && old(lua).objects@[id as int] is Func,
        ensures
            final(lua).wf(),
            r is Err <==> self.1 == old(lua).current,
            r matches Err(e) ==> e.spec_kind() == ErrorKind::Runtime
                && final(lua).threads_unchanged(old(lua)),
            r is Ok ==> {
                let fd = old(lua).objects@[old(lua).ref_value(func.0)->Obj_0 as int]->Func_0;
                &&& final(lua).threads@[self.1 as int].base is NotStarted
                &&& final(lua).threads@[self.1 as int].stack@.len() == 0
                &&& final(lua).threads@[self.1 as int].frame matches Some(f) && f.program@
                    == fd.program@ && f.pc == 0 && f.acc == 0 && f.host == fd.host
                &&& final(lua).current == old(lua).current
                &&& final(lua).threads@.len() == old(lua).threads@.len()
                &&& forall|t: int|
                    0 <= t < old(lua).threads@.len() && t != self.1
                        ==> #[trigger] final(lua).threads@[t] == old(lua).threads@[t]
            },
            final(lua).refs_unchanged(old(lua)),
            final(lua).failure_unchanged(old(lua)),
            final(lua).heap_unchanged(old(lua)),
            final(lua).misc_unchanged(old(lua)),
    {
        let tid = self.1;
        if tid == lua.current {
            proof {
                reveal_strlit("cannot reset a running thread");
            }
            return Err(Error::RuntimeError(String::from_str("cannot reset a running thread")));
        }
        let id = match *lua.ref_threads[func.0.aux_thread].read(func.0.index) {
            Value::Obj(id) => id,
            _ => {
                proof {
                    assert(false);
                }
                0
            }
        };
        let (program, host) = match &lua.objects[id] {
            crate::value::LuaObj::Func(fd) => (clone_program(&fd.program), fd.host),
            _ => {
                proof {
                    assert(false);
                }
                (Vec::new(), false)
            }
        };
        lua.threads[tid].base = BaseStatus::NotStarted;
        lua.threads[tid].stack.clear();
        lua.threads[tid].frame = Some(Frame { program, pc: 0, acc: 0, host });
        proof {
            assert forall|t: int|
                0 <= t < lua.threads@.len() implies (#[trigger] lua.threads@[t]).wf() by {
                if t != tid {
                    assert(lua.threads@[t] == old(lua).threads@[t]);
                }
            }
        }
        Ok(())
    }
}

} // verus!
