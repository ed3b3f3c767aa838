//! Creation and invocation operations on the interpreter handle.
//!
//! Complex values are created by allocating a heap object, pushing it on
//! the current thread's stack under a stack guard, and popping it into a
//! pinned reference slot, exactly as the reference protocol prescribes.

use vstd::prelude::*;
use crate::error::Error;
use crate::error::ErrorKind;
use crate::exec::clone_program;
use crate::exec::spec_exec;
use crate::exec::Frame;
use crate::function::Function;
use crate::guard::StackGuard;
use crate::lute::Table;
use crate::state::BaseStatus;
use crate::state::Lua;
use crate::state::LuaStr;
use crate::state::ThreadData;
use crate::state::ValueRef;
use crate::thread::Thread;
use crate::value::FuncDef;
use crate::value::Instr;
use crate::value::LuaObj;
use crate::value::Value;

verus! {

/// Whether a program holds no host-panic instruction (programs produced
/// by the loader never do).
pub open spec fn no_panic_instr(program: Seq<Instr>) -> bool {
    forall|i: int| 0 <= i < program.len() ==> !((#[trigger] program[i]) is Panic)
}

/// A body without a panic instruction never ends in a panic.
pub proof fn lemma_no_panic_no_panicked(program: Seq<Instr>, pc: int, acc: i64, stack: Seq<Value>)
    requires
        no_panic_instr(program),
    ensures
        !(spec_exec(program, pc, acc, stack).outcome is Panicked),
    decreases program.len() - pc,
{
    if 0 <= pc < program.len() {
        match program[pc] {
            Instr::PushInt(n) => {
                lemma_no_panic_no_panicked(program, pc + 1, acc, stack.push(Value::Integer(n)));
            },
            Instr::PushVal(v) => {
                lemma_no_panic_no_panicked(program, pc + 1, acc, stack.push(v));
            },
            Instr::Add => {
                if stack.len() >= 2 && stack[stack.len() - 1] is Integer && stack[stack.len()
                    - 2] is Integer {
                    let b = stack[stack.len() - 1]->Integer_0;
                    let a = stack[stack.len() - 2]->Integer_0;
                    lemma_no_panic_no_panicked(
                        program,
                        pc + 1,
                        acc,
                        stack.take(stack.len() - 2).push(Value::Integer(a.wrapping_add(b))),
                    );
                }
            },
            Instr::AccumArgs => {
                if crate::exec::all_integers(stack) {
                    lemma_no_panic_no_panicked(
                        program,
                        pc + 1,
                        crate::exec::accum(acc, stack),
                        Seq::empty(),
                    );
                }
            },
            Instr::PushAcc => {
                lemma_no_panic_no_panicked(program, pc + 1, acc, stack.push(Value::Integer(acc)));
            },
            _ => {},
        }
    }
}

/// Whether a handle pins a function object, and that object's body.
pub open spec fn spec_is_function(lua: &Lua, r: ValueRef) -> bool {
    &&& lua.valid_ref(r)
    &&& lua.ref_value(r) matches Value::Obj(id) && id < lua.objects@.len()
        && lua.objects@[id as int] is Func
}

/// The body of the function pinned by a handle.
pub open spec fn spec_func_def(lua: &Lua, r: ValueRef) -> FuncDef {
    lua.objects@[lua.ref_value(r)->Obj_0 as int]->Func_0
}

impl Lua {
    /// Pushes a value onto the current thread's stack.
    pub(crate) fn push_value(&mut self, v: Value)
        requires
            old(self).wf(),
            old(self).threads@[old(self).current as int].stack@.len() < usize::MAX,
        ensures
            final(self).wf(),
            final(self).threads@[old(self).current as int].stack@ == old(self).threads@[old(self).current as int].stack@.push(v),
            final(self).threads@.len() == old(self).threads@.len(),
            final(self).current == old(self).current,
            forall|t: int|
                0 <= t < old(self).threads@.len() && t != old(self).current
                    ==> #[trigger] final(self).threads@[t] == old(self).threads@[t],
            final(self).threads@[old(self).current as int].base == old(self).threads@[old(self).current as int].base,
            final(self).threads@[old(self).current as int].frame == old(self).threads@[old(self).current as int].frame,
            final(self).refs_unchanged(old(self)),
            final(self).failure_unchanged(old(self)),
            final(self).heap_unchanged(old(self)),
            final(self).misc_unchanged(old(self)),
    {
        let cur = self.current;
        self.threads[cur].stack.push(v);
    }

    /// Allocates a heap object and pins it in a reference slot, going
    /// through the current thread's stack under the push/pop protocol.
    pub(crate) fn create_pinned(&mut self, obj: LuaObj) -> (r: Result<ValueRef, Error>)
        requires
            old(self).wf(),
            old(self).objects@.len() < usize::MAX,
            old(self).threads@[old(self).current as int].stack@.len() < usize::MAX,
        ensures
            final(self).wf(),
            r is Err <==> old(self).alloc_would_fail(),
            r matches Err(e) ==> e.spec_kind() == ErrorKind::Memory && final(self).heap_unchanged(
                old(self),
            ) && final(self).threads_unchanged(old(self)) && final(self).refs_unchanged(old(self)),
            final(self).objects@.len() <= old(self).objects@.len() + 1,
            r matches Ok(vref) ==> {
                &&& vref.owned
                &&& final(self).valid_ref(vref)
                &&& final(self).ref_value(vref) == Value::Obj(old(self).objects@.len() as usize)
                &&& final(self).objects@ == old(self).objects@.push(obj)
                &&& final(self).threads_equiv(old(self))
                &&& forall|q: ValueRef|
                    #[trigger] old(self).valid_ref(q) && !(q.aux_thread == vref.aux_thread
                        && q.index == vref.index) ==> final(self).valid_ref(q) && final(self).ref_value(q) == old(self).ref_value(q)
                &&& final(self).ref_internal == old(self).ref_internal
            },
            final(self).failure_unchanged(old(self)),
            final(self).misc_unchanged(old(self)),
    {
        let id = match self.alloc_obj(obj) {
            Ok(id) => id,
            Err(e) => {
                return Err(e);
            }
        };
        let guard = StackGuard::new(self);
        self.push_value(Value::Obj(id));
        let ghost mid = *self;
        let vref = self.pop_ref();
        proof {
            let cur = old(self).current as int;
            assert(self.threads@[cur].stack@ =~= old(self).threads@[cur].stack@);
            assert forall|q: ValueRef|
                #[trigger] old(self).valid_ref(q) && !(q.aux_thread == vref.aux_thread && q.index
                    == vref.index) implies self.valid_ref(q) && self.ref_value(q)
                == old(self).ref_value(q) by {
                assert(mid.valid_ref(q) == old(self).valid_ref(q));
                assert(mid.ref_value(q) == old(self).ref_value(q));
            }
        }
        let ghost before_close = *self;
        guard.restore(self);
        proof {
            let cur = old(self).current as int;
            assert(self.threads@[cur].stack@ =~= before_close.threads@[cur].stack@);
            assert forall|q: ValueRef|
                #[trigger] old(self).valid_ref(q) && !(q.aux_thread == vref.aux_thread && q.index
                    == vref.index) implies self.valid_ref(q) && self.ref_value(q)
                == old(self).ref_value(q) by {
                assert(before_close.valid_ref(q) == old(self).valid_ref(q));
                assert(before_close.ref_value(q) == old(self).ref_value(q));
            }
        }
        Ok(vref)
    }

    /// Creates (interns) an interpreter string holding the given text.
    pub fn create_string(&mut self, s: String) -> (r: Result<LuaStr, Error>)
        requires
            old(self).wf(),
            old(self).objects@.len() < usize::MAX,
            old(self).threads@[old(self).current as int].stack@.len() < usize::MAX,
        ensures
            final(self).wf(),
            r is Err <==> old(self).alloc_would_fail(),
            r matches Err(e) ==> e.spec_kind() == ErrorKind::Memory,
            r matches Ok(h) ==> {
                &&& h.0.owned
                &&& final(self).valid_ref(h.0)
                &&& final(self).ref_value(h.0) matches Value::Obj(id) && id < final(self).objects@.len() && (final(self).objects@[id as int] matches LuaObj::Str(t) && t@
                    == s@)
            },
            final(self).objects@.len() <= old(self).objects@.len() + 1,
            final(self).threads_equiv(old(self)),
            final(self).failure_unchanged(old(self)),
            final(self).misc_unchanged(old(self)),
    {
        match self.create_pinned(LuaObj::Str(s)) {
            Ok(vref) => Ok(LuaStr(vref)),
            Err(e) => Err(e),
        }
    }

    /// Creates an empty table with room for `narr` array entries and
    /// `nrec` record entries.
    pub fn create_table_with_capacity(&mut self, narr: usize, nrec: usize) -> (r: Result<
        Table,
        Error,
    >)
        requires
            old(self).wf(),
            old(self).objects@.len() < usize::MAX,
            old(self).threads@[old(self).current as int].stack@.len() < usize::MAX,
        ensures
            final(self).wf(),
            r is Err <==> old(self).alloc_would_fail(),
            r matches Err(e) ==> e.spec_kind() == ErrorKind::Memory,
            r matches Ok(h) ==> {
                &&& h.0.owned
                &&& final(self).valid_ref(h.0)
                &&& final(self).ref_value(h.0) matches Value::Obj(id) && id < final(self).objects@.len() && (final(self).objects@[id as int] matches LuaObj::Table(p) && p@
                    =~= Seq::<(Value, Value)>::empty())
            },
            final(self).objects@.len() <= old(self).objects@.len() + 1,
            final(self).threads_equiv(old(self)),
            final(self).failure_unchanged(old(self)),
            final(self).misc_unchanged(old(self)),
    {
        let _ = narr;
        let _ = nrec;
        match self.create_pinned(LuaObj::Table(Vec::new())) {
            Ok(vref) => Ok(Table(vref)),
            Err(e) => Err(e),
        }
    }

    /// Creates a table holding the given key-value pairs.
    pub fn create_table_from(&mut self, pairs: Vec<(Value, Value)>) -> (r: Result<Table, Error>)
        requires
            old(self).wf(),
            old(self).objects@.len() < usize::MAX,
            old(self).threads@[old(self).current as int].stack@.len() < usize::MAX,
        ensures
            final(self).wf(),
            r is Err <==> old(self).alloc_would_fail(),
            r matches Err(e) ==> e.spec_kind() == ErrorKind::Memory,
            r matches Ok(h) ==> {
                &&& h.0.owned
                &&& final(self).valid_ref(h.0)
                &&& final(self).ref_value(h.0) matches Value::Obj(id) && id < final(self).objects@.len() && (final(self).objects@[id as int] matches LuaObj::Table(p) && p@
                    == pairs@)
            },
            final(self).objects@.len() <= old(self).objects@.len() + 1,
            final(self).threads_equiv(old(self)),
            final(self).failure_unchanged(old(self)),
            final(self).misc_unchanged(old(self)),
    {
        match self.create_pinned(LuaObj::Table(pairs)) {
            Ok(vref) => Ok(Table(vref)),
            Err(e) => Err(e),
        }
    }

    /// Creates a table holding the given values as a one-based sequence.
    pub fn create_sequence_from(&mut self, vals: Vec<Value>) -> (r: Result<Table, Error>)
        requires
            old(self).wf(),
            old(self).objects@.len() < usize::MAX,
            old(self).threads@[old(self).current as int].stack@.len() < usize::MAX,
            old(self).threads@[old(self).current as int].stack@.len() >= 0,
            vals@.len() < 0x7fff_ffff_ffff_ffff,
        ensures
            final(self).wf(),
            r is Err <==> old(self).alloc_would_fail(),
            r matches Err(e) ==> e.spec_kind() == ErrorKind::Memory,
            r matches Ok(h) ==> {
                &&& h.0.owned
                &&& final(self).valid_ref(h.0)
                &&& final(self).ref_value(h.0) matches Value::Obj(id) && id < final(self).objects@.len() && (final(self).objects@[id as int] matches LuaObj::Table(p) &&
                p@.len() == vals@.len() && (forall|i: int|
                    0 <= i < vals@.len() ==> #[trigger] p@[i] == (
                    Value::Integer((i + 1) as i64),
                    vals@[i],
                )))
            },
            final(self).objects@.len() <= old(self).objects@.len() + 1,
            final(self).threads_equiv(old(self)),
            final(self).failure_unchanged(old(self)),
            final(self).misc_unchanged(old(self)),
    {
        let mut pairs: Vec<(Value, Value)> = Vec::new();
        let mut i: usize = 0;
        while i < vals.len()
            invariant
                i <= vals@.len(),
                vals@.len() < 0x7fff_ffff_ffff_ffff,
                pairs@.len() == i,
                forall|j: int|
                    0 <= j < i ==> #[trigger] pairs@[j] == (
                        Value::Integer((j + 1) as i64),
                        vals@[j],
                    ),
            decreases vals@.len() - i,
        {
            pairs.push((Value::Integer((i + 1) as i64), vals[i]));
            i += 1;
        }
        match self.create_pinned(LuaObj::Table(pairs)) {
            Ok(vref) => Ok(Table(vref)),
            Err(e) => Err(e),
        }
    }

    /// Registers a host callback with the given body and returns it as
    /// an interpreter function. The body runs inside the callback error
    /// boundary whenever the function is invoked.
    pub fn create_callback(&mut self, program: Vec<Instr>) -> (r: Result<Function, Error>)
        requires
            old(self).wf(),
            old(self).objects@.len() < usize::MAX,
            old(self).threads@[old(self).current as int].stack@.len() < usize::MAX,
        ensures
            final(self).wf(),
            r is Err <==> old(self).alloc_would_fail(),
            r matches Err(e) ==> e.spec_kind() == ErrorKind::Memory,
            r matches Ok(f) ==> {
                &&& f.0.owned
                &&& spec_is_function(final(self), f.0)
                &&& spec_func_def(final(self), f.0).program@ == program@
                &&& spec_func_def(final(self), f.0).host
            },
            final(self).objects@.len() <= old(self).objects@.len() + 1,
            final(self).threads_equiv(old(self)),
            final(self).failure_unchanged(old(self)),
            final(self).misc_unchanged(old(self)),
    {
        match self.create_pinned(LuaObj::Func(FuncDef { program, host: true })) {
            Ok(vref) => Ok(Function(vref)),
            Err(e) => Err(e),
        }
    }

    /// Wraps a function into a new thread (coroutine) whose body it
    /// becomes.
    pub fn create_thread(&mut self, func: &Function) -> (r: Result<Thread, Error>)
        requires
            old(self).wf(),
            spec_is_function(old(self), func.0),
            old(self).objects@.len() < usize::MAX,
            old(self).threads@.len() < usize::MAX,
            old(self).threads@[old(self).current as int].stack@.len() < usize::MAX,
        ensures
            final(self).wf(),
            r is Err <==> old(self).alloc_would_fail(),
            r matches Err(e) ==> e.spec_kind() == ErrorKind::Memory,
            r matches Ok(th) ==> {
                let fd = spec_func_def(old(self), func.0);
                &&& th.1 == old(self).threads@.len()
                &&& final(self).threads@.len() == old(self).threads@.len() + 1
                &&& final(self).threads@[th.1 as int].base is NotStarted
                &&& final(self).threads@[th.1 as int].stack@.len() == 0
                &&& final(self).threads@[th.1 as int].frame matches Some(f) && f.program@
                    == fd.program@ && f.pc == 0 && f.acc == 0 && f.host == fd.host
                &&& forall|t: int|
                    0 <= t < old(self).threads@.len() ==> {
                        &&& (#[trigger] final(self).threads@[t]).stack@ == old(self).threads@[t].stack@
                        &&& final(self).threads@[t].base == old(self).threads@[t].base
                        &&& final(self).threads@[t].frame == old(self).threads@[t].frame
                    }
                &&& th.0.owned
                &&& final(self).valid_ref(th.0)
                &&& final(self).ref_value(th.0) matches Value::Obj(id) && id < final(self).objects@.len() && (final(self).objects@[id as int] matches LuaObj::Coroutine(tid)
                    && tid == th.1)
                &&& final(self).current == old(self).current
            },
            final(self).objects@.len() <= old(self).objects@.len() + 1,
            final(self).threads@.len() <= old(self).threads@.len() + 1,
            forall|t: int|
                0 <= t < old(self).threads@.len() ==> #[trigger] final(self).threads@[t].stack@.len()
                    == old(self).threads@[t].stack@.len(),
            final(self).failure_unchanged(old(self)),
            final(self).misc_unchanged(old(self)),
    {
        let id = match *self.ref_threads[func.0.aux_thread].read(func.0.index) {
            Value::Obj(id) => id,
            _ => {
                proof {
                    assert(false);
                }
                0
            }
        };
        let (program, host) = match &self.objects[id] {
            LuaObj::Func(fd) => (clone_program(&fd.program), fd.host),
            _ => {
                proof {
                    assert(false);
                }
                (Vec::new(), false)
            }
        };
        let tid = self.threads.len();
        let cid = match self.alloc_obj(LuaObj::Coroutine(tid)) {
            Ok(cid) => cid,
            Err(e) => {
                return Err(e);
            }
        };
        self.threads.push(
            ThreadData {
                stack: Vec::new(),
                base: BaseStatus::NotStarted,
                frame: Some(Frame { program, pc: 0, acc: 0, host }),
            },
        );
        proof {
            assert forall|t: int|
                0 <= t < self.threads@.len() implies (#[trigger] self.threads@[t]).wf() by {
                if t < old(self).threads@.len() {
                    assert(self.threads@[t] == old(self).threads@[t]);
                }
            }
        }
        self.push_value(Value::Obj(cid));
        let vref = self.pop_ref();
        proof {
            let cur = old(self).current as int;
            assert(self.threads@[cur].stack@ =~= old(self).threads@[cur].stack@);
        }
        Ok(Thread(vref, tid))
    }

    /// Releases an owning handle's slot back to the reference pool.
    pub fn release_ref(&mut self, r: ValueRef)
        requires
            old(self).wf(),
            old(self).valid_ref(r),
            r.owned,
        ensures
            final(self).wf(),
            !final(self).ref_threads@[r.aux_thread as int].live(r.index),
            forall|q: ValueRef|
                #[trigger] old(self).valid_ref(q) && !(q.aux_thread == r.aux_thread && q.index
                    == r.index) ==> final(self).valid_ref(q) && final(self).ref_value(q) == old(self).ref_value(q),
            final(self).ref_threads@.len() == old(self).ref_threads@.len(),
            final(self).ref_internal == old(self).ref_internal,
            final(self).failure_unchanged(old(self)),
            final(self).threads_unchanged(old(self)),
            final(self).heap_unchanged(old(self)),
            final(self).misc_unchanged(old(self)),
    {
        self.drop_ref(&r);
    }

    /// Tears the instance down: cancels every pending registry
    /// unreference operation (the list moves to its terminal empty
    /// state, exactly once) and unloads the extended runtime.
    pub fn close(&mut self)
        requires
            old(self).wf(),
        ensures
            final(self).wf(),
            final(self).registry_unref_list is None,
            final(self).lute is None,
            final(self).refs_unchanged(old(self)),
            final(self).failure_unchanged(old(self)),
            final(self).threads_unchanged(old(self)),
            final(self).heap_unchanged(old(self)),
            final(self).ref_max_slots == old(self).ref_max_slots,
            final(self).memory_limit == old(self).memory_limit,
            final(self).disable_error_userdata == old(self).disable_error_userdata,
            final(self).safe == old(self).safe,
            final(self).libs == old(self).libs,
    {
        self.registry_unref_list = None;
        self.lute = None;
    }
}

} // verus!
