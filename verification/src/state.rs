//! The interpreter handle and its state.
//!
//! One [`Lua`] value owns everything belonging to one interpreter
//! instance: the object heap, the execution threads, the reference thread
//! pool with its distinguished internal bookkeeping thread, the failure
//! capsule pool, and configuration. Host operations take the handle by
//! reference; holding `&mut Lua` plays the role of holding the
//! interpreter's reentrant lock.

use vstd::prelude::*;
use crate::error::Error;
use crate::error::ErrorKind;
use crate::exec::Frame;
use crate::lute::LuteState;
use crate::refpool::get_next_spot;
use crate::refpool::pool_wf;
use crate::refpool::RefThread;
use crate::value::LuaObj;
use crate::value::Value;

verus! {

/// A host-owned handle to one pinned interpreter value, identified by
/// `(reference_thread_index, slot_index)`. An owned handle is responsible
/// for releasing its slot; a non-owning copy (see [`ValueRef::copy`])
/// relies on the original to outlive it.
#[derive(Debug)]
pub struct ValueRef {
    pub aux_thread: usize,
    pub index: usize,
    pub owned: bool,
}

impl ValueRef {
    /// A second handle to the same underlying slot, with shared lifetime:
    /// the copy is non-owning and the caller guarantees that the original
    /// outlives it.
    pub fn copy(&self) -> (r: ValueRef)
        ensures
            r.aux_thread == self.aux_thread,
            r.index == self.index,
            !r.owned,
    {
        ValueRef { aux_thread: self.aux_thread, index: self.index, owned: false }
    }
}

/// A handle to an interpreter string, pinned in the reference pool.
#[derive(Debug)]
pub struct LuaStr(pub ValueRef);

/// Base lifecycle state of an execution thread, tracked explicitly; the
/// argument counts of the public statuses are derived live from the
/// thread's stack.
#[derive(Clone, Copy, PartialEq, Eq, Structural)]
pub enum BaseStatus {
    /// Created, not yet resumed.
    NotStarted,
    /// Suspended at a yield.
    Suspended,
    /// Finished normally.
    Done,
    /// Stopped by an error.
    Failed,
}

/// One execution thread: its value stack, its lifecycle state, and the
/// running frame of its body.
pub struct ThreadData {
    pub stack: Vec<Value>,
    pub base: BaseStatus,
    pub frame: Option<Frame>,
}

impl ThreadData {
    /// A resumable thread always has a body frame with the program
    /// counter inside its program.
    pub open spec fn wf(&self) -> bool {
        (self.base is NotStarted || self.base is Suspended) ==> match self.frame {
            Some(f) => f.pc <= f.program@.len(),
            None => false,
        }
    }
}

/// Configuration chosen when an interpreter instance is created.
pub struct LuaOptions {
    /// When set, failures crossing a callback boundary are re-encoded as
    /// plain string messages instead of opaque error objects.
    pub disable_error_userdata: bool,
    /// Growth ceiling, in slots, of each pooled reference thread.
    pub ref_thread_max_slots: usize,
}

impl LuaOptions {
    /// The default configuration: error objects enabled, and a reference
    /// thread ceiling of about eight thousand slots, as the interpreter's
    /// own stack limit gives.
    pub fn new() -> (r: LuaOptions)
        ensures
            !r.disable_error_userdata,
            r.ref_thread_max_slots == 7999,
    {
        LuaOptions { disable_error_userdata: false, ref_thread_max_slots: 7999 }
    }
}

/// The interpreter handle: owns the whole per-instance state.
pub struct Lua {
    /// The object heap; entries are never removed, and an entry's index
    /// is its identity.
    pub objects: Vec<LuaObj>,
    /// Execution threads; index 0 is the main thread.
    pub threads: Vec<ThreadData>,
    /// The currently executing thread.
    pub current: usize,
    /// Auxiliary threads holding pinned value references.
    pub ref_threads: Vec<RefThread>,
    /// The distinguished reference thread reserved for the binding's own
    /// bookkeeping (it holds the failure capsule pool).
    pub ref_internal: RefThread,
    /// Growth ceiling of each pooled reference thread.
    pub ref_max_slots: usize,
    /// Slot indices in the internal reference thread that hold pooled
    /// failure capsules.
    pub failure_pool: Vec<usize>,
    /// How many pooled capsules are available for reservation.
    pub failure_top: usize,
    /// Configured memory limit in heap objects; zero means unlimited.
    pub memory_limit: usize,
    /// Heap objects allocated so far.
    pub mem_used: usize,
    /// See [`LuaOptions::disable_error_userdata`].
    pub disable_error_userdata: bool,
    /// Safe mode: refuses loading unsafe standard libraries.
    pub safe: bool,
    /// Bitflag set of loaded standard libraries.
    pub libs: u32,
    /// The extended runtime, when loaded.
    pub lute: Option<LuteState>,
    /// Pending registry unreference operations; set to the terminal empty
    /// state exactly once, at teardown.
    pub registry_unref_list: Option<Vec<usize>>,
    /// Registered userdata type metadata, keyed by type-identity token.
    pub registered_userdata: Vec<crate::userdata::RegisteredType>,
}

impl Lua {
    /// Whether slot `pool[k]` of the internal reference thread holds a
    /// capsule object of the heap.
    pub open spec fn capsule_slot_ok(&self, slot: usize) -> bool {
        &&& self.ref_internal.live(slot)
        &&& match self.ref_internal.slots@[slot as int] {
            Value::Obj(id) => id < self.objects@.len() && self.objects@[id as int] is Capsule,
            _ => false,
        }
    }

    /// Well-formedness of the whole interpreter state.
    pub open spec fn wf(&self) -> bool {
        &&& self.mem_used == self.objects@.len()
        &&& self.threads@.len() >= 1
        &&& self.current < self.threads@.len()
        &&& forall|t: int| 0 <= t < self.threads@.len() ==> (#[trigger] self.threads@[t]).wf()
        &&& self.ref_threads@.len() >= 1
        &&& pool_wf(&self.ref_threads)
        &&& forall|t: int|
            0 <= t < self.ref_threads@.len() ==> (#[trigger] self.ref_threads@[t]).max_size
                == self.ref_max_slots
        &&& self.ref_max_slots >= 1
        &&& self.ref_internal.wf()
        &&& self.ref_internal.max_size == usize::MAX
        &&& self.failure_top <= self.failure_pool@.len()
        &&& self.failure_pool@.no_duplicates()
        &&& forall|k: int|
            0 <= k < self.failure_pool@.len() ==> self.capsule_slot_ok(
                #[trigger] self.failure_pool@[k],
            )
    }

    /// Whether a handle denotes a live slot of the pool.
    pub open spec fn valid_ref(&self, r: ValueRef) -> bool {
        &&& r.aux_thread < self.ref_threads@.len()
        &&& self.ref_threads@[r.aux_thread as int].live(r.index)
    }

    /// The value pinned by a handle.
    pub open spec fn ref_value(&self, r: ValueRef) -> Value {
        self.ref_threads@[r.aux_thread as int].slots@[r.index as int]
    }

    // Field-group equalities used by the contracts below.
    /// The reference pool and the internal thread are unchanged.
    pub open spec fn refs_unchanged(&self, o: &Lua) -> bool {
        self.ref_threads == o.ref_threads && self.ref_internal == o.ref_internal
    }

    /// The failure capsule pool bookkeeping is unchanged.
    pub open spec fn failure_unchanged(&self, o: &Lua) -> bool {
        self.failure_pool == o.failure_pool && self.failure_top == o.failure_top
    }

    /// The execution threads are equivalent: same count, same current
    /// binding, and every thread has the same stack contents, lifecycle
    /// state and frame.
    pub open spec fn threads_equiv(&self, o: &Lua) -> bool {
        &&& self.threads@.len() == o.threads@.len()
        &&& self.current == o.current
        &&& forall|t: int|
            0 <= t < o.threads@.len() ==> {
                &&& (#[trigger] self.threads@[t]).stack@ == o.threads@[t].stack@
                &&& self.threads@[t].base == o.threads@[t].base
                &&& self.threads@[t].frame == o.threads@[t].frame
            }
    }

    /// The execution threads and the current-thread binding are unchanged.
    pub open spec fn threads_unchanged(&self, o: &Lua) -> bool {
        self.threads == o.threads && self.current == o.current
    }

    /// The object heap and the allocation counter are unchanged.
    pub open spec fn heap_unchanged(&self, o: &Lua) -> bool {
        self.objects == o.objects && self.mem_used == o.mem_used
    }

    /// Configuration and remaining state are unchanged.
    pub open spec fn misc_unchanged(&self, o: &Lua) -> bool {
        &&& self.ref_max_slots == o.ref_max_slots
        &&& self.memory_limit == o.memory_limit
        &&& self.disable_error_userdata == o.disable_error_userdata
        &&& self.safe == o.safe
        &&& self.libs == o.libs
        &&& self.lute == o.lute
        &&& self.registry_unref_list == o.registry_unref_list
        &&& self.registered_userdata == o.registered_userdata
    }

    /// Creates a fresh interpreter instance.
    pub fn new_with_options(options: LuaOptions) -> (r: Lua)
        requires
            options.ref_thread_max_slots >= 1,
        ensures
            r.wf(),
            r.objects@.len() == 0,
            r.threads@.len() == 1,
            r.current == 0,
            r.threads@[0].stack@.len() == 0,
            r.ref_threads@.len() == 1,
            r.ref_threads@[0].slots@.len() == 0,
            r.ref_max_slots == options.ref_thread_max_slots,
            r.failure_pool@.len() == 0,
            r.failure_top == 0,
            r.memory_limit == 0,
            r.mem_used == 0,
            r.disable_error_userdata == options.disable_error_userdata,
            !r.safe,
            r.libs == 0,
            r.lute is None,
            r.registry_unref_list matches Some(l) && l@.len() == 0,
    {
        let main = ThreadData { stack: Vec::new(), base: BaseStatus::Done, frame: None };
        let mut threads = Vec::new();
        threads.push(main);
        let mut ref_threads = Vec::new();
        ref_threads.push(RefThread::new(options.ref_thread_max_slots));
        Lua {
            objects: Vec::new(),
            threads,
            current: 0,
            ref_threads,
            ref_internal: RefThread::new(usize::MAX),
            ref_max_slots: options.ref_thread_max_slots,
            failure_pool: Vec::new(),
            failure_top: 0,
            memory_limit: 0,
            mem_used: 0,
            disable_error_userdata: options.disable_error_userdata,
            safe: false,
            libs: 0,
            lute: None,
            registry_unref_list: Some(Vec::new()),
            registered_userdata: Vec::new(),
        }
    }

    /// Creates a fresh interpreter instance with default options.
    pub fn new() -> (r: Lua)
        ensures
            r.wf(),
            r.objects@.len() == 0,
            r.threads@.len() == 1,
            r.current == 0,
            r.threads@[0].stack@.len() == 0,
            r.ref_threads@.len() == 1,
            r.memory_limit == 0,
            r.mem_used == 0,
            !r.disable_error_userdata,
            r.failure_top == 0,
            r.failure_pool@.len() == 0,
            r.lute is None,
    {
        Lua::new_with_options(LuaOptions::new())
    }

    /// Marks this instance as safe: unsafe standard libraries are then
    /// refused.
    pub fn mark_safe(&mut self)
        requires
            old(self).wf(),
        ensures
            final(self).wf(),
            final(self).safe,
            final(self).refs_unchanged(old(self)),
            final(self).failure_unchanged(old(self)),
            final(self).threads_unchanged(old(self)),
            final(self).heap_unchanged(old(self)),
            final(self).ref_max_slots == old(self).ref_max_slots,
            final(self).memory_limit == old(self).memory_limit,
            final(self).disable_error_userdata == old(self).disable_error_userdata,
            final(self).libs == old(self).libs,
            final(self).lute == old(self).lute,
            final(self).registry_unref_list == old(self).registry_unref_list,
    {
        self.safe = true;
    }

    /// Sets the memory limit (in heap objects; zero lifts the limit) and
    /// returns the previous one.
    pub fn set_memory_limit(&mut self, limit: usize) -> (r: usize)
        requires
            old(self).wf(),
        ensures
            final(self).wf(),
            r == old(self).memory_limit,
            final(self).memory_limit == limit,
            final(self).refs_unchanged(old(self)),
            final(self).failure_unchanged(old(self)),
            final(self).threads_unchanged(old(self)),
            final(self).heap_unchanged(old(self)),
            final(self).ref_max_slots == old(self).ref_max_slots,
            final(self).disable_error_userdata == old(self).disable_error_userdata,
            final(self).safe == old(self).safe,
            final(self).libs == old(self).libs,
            final(self).lute == old(self).lute,
            final(self).registry_unref_list == old(self).registry_unref_list,
    {
        let prev = self.memory_limit;
        self.memory_limit = limit;
        prev
    }

    /// The per-call predicate of the protected call wrapper: whether a
    /// memory allocation failure is impossible, so that the fast path may
    /// skip protection. True exactly when no memory limit is configured.
    pub open spec fn spec_unlikely_memory_error(&self) -> bool {
        self.memory_limit == 0
    }

    /// See [`Lua::spec_unlikely_memory_error`].
    #[verifier::when_used_as_spec(spec_unlikely_memory_error)]
    pub fn unlikely_memory_error(&self) -> (r: bool)
        ensures
            r == self.spec_unlikely_memory_error(),
    {
        self.memory_limit == 0
    }

    /// Whether an allocation would be refused right now.
    pub open spec fn alloc_would_fail(&self) -> bool {
        self.memory_limit > 0 && self.mem_used >= self.memory_limit
    }

    /// Allocates a heap object on the fast path, without protection.
    /// Callers prove beforehand that an allocation failure is impossible.
    pub(crate) fn alloc_obj_unprotected(&mut self, obj: LuaObj) -> (id: usize)
        requires
            old(self).wf(),
            old(self).unlikely_memory_error(),
            old(self).objects@.len() < usize::MAX,
        ensures
            final(self).wf(),
            id == old(self).objects@.len(),
            final(self).objects@ == old(self).objects@.push(obj),
            final(self).mem_used == old(self).mem_used + 1,
            final(self).refs_unchanged(old(self)),
            final(self).failure_unchanged(old(self)),
            final(self).threads_unchanged(old(self)),
            final(self).misc_unchanged(old(self)),
    {
        let id = self.objects.len();
        self.objects.push(obj);
        self.mem_used = self.mem_used + 1;
        proof {
            assert forall|k: int|
                0 <= k < self.failure_pool@.len() implies self.capsule_slot_ok(
                #[trigger] self.failure_pool@[k],
            ) by {
                assert(old(self).capsule_slot_ok(self.failure_pool@[k]));
            }
        }
        id
    }

    /// Allocates a heap object through the protected path: the
    /// interpreter's own error containment turns an allocation failure
    /// into a host-level memory error instead of an uncontrolled unwind.
    pub(crate) fn alloc_obj_protected(&mut self, obj: LuaObj) -> (r: Result<usize, Error>)
        requires
            old(self).wf(),
            old(self).objects@.len() < usize::MAX,
        ensures
            final(self).wf(),
            r is Err <==> old(self).alloc_would_fail(),
            r matches Ok(id) ==> {
                &&& id == old(self).objects@.len()
                &&& final(self).objects@ == old(self).objects@.push(obj)
                &&& final(self).mem_used == old(self).mem_used + 1
            },
            r matches Err(e) ==> {
                &&& e.spec_kind() == ErrorKind::Memory
                &&& final(self).heap_unchanged(old(self))
            },
            final(self).refs_unchanged(old(self)),
            final(self).failure_unchanged(old(self)),
            final(self).threads_unchanged(old(self)),
            final(self).misc_unchanged(old(self)),
    {
        if self.memory_limit > 0 && self.mem_used >= self.memory_limit {
            return Err(crate::error::memory_error());
        }
        let id = self.objects.len();
        self.objects.push(obj);
        self.mem_used = self.mem_used + 1;
        proof {
            assert forall|k: int|
                0 <= k < self.failure_pool@.len() implies self.capsule_slot_ok(
                #[trigger] self.failure_pool@[k],
            ) by {
                assert(old(self).capsule_slot_ok(self.failure_pool@[k]));
            }
        }
        Ok(id)
    }

    /// Allocates a heap object, choosing dynamically between the fast and
    /// the protected strategy. Both reproduce the same observable state;
    /// the predicate is purely a performance decision.
    pub(crate) fn alloc_obj(&mut self, obj: LuaObj) -> (r: Result<usize, Error>)
        requires
            old(self).wf(),
            old(self).objects@.len() < usize::MAX,
        ensures
            final(self).wf(),
            r is Err <==> old(self).alloc_would_fail(),
            r matches Ok(id) ==> {
                &&& id == old(self).objects@.len()
                &&& final(self).objects@ == old(self).objects@.push(obj)
                &&& final(self).mem_used == old(self).mem_used + 1
            },
            r matches Err(e) ==> {
                &&& e.spec_kind() == ErrorKind::Memory
                &&& final(self).heap_unchanged(old(self))
            },
            final(self).refs_unchanged(old(self)),
            final(self).failure_unchanged(old(self)),
            final(self).threads_unchanged(old(self)),
            final(self).misc_unchanged(old(self)),
    {
        if self.unlikely_memory_error() {
            Ok(self.alloc_obj_unprotected(obj))
        } else {
            self.alloc_obj_protected(obj)
        }
    }

    /// Pins a value: stores it in a reference slot handed out by the
    /// pool, growing the pool if no thread accommodates growth, and
    /// returns the owning handle. Every other handle keeps its slot and
    /// its pinned value.
    pub(crate) fn pin_value(&mut self, v: Value) -> (r: ValueRef)
        requires
            old(self).wf(),
        ensures
            final(self).wf(),
            r.owned,
            final(self).valid_ref(r),
            final(self).ref_value(r) == v,
            r.aux_thread < old(self).ref_threads@.len() ==> !old(self).ref_threads@[r.aux_thread as int].live(r.index),
            old(self).ref_threads@.len() <= final(self).ref_threads@.len(),
            final(self).ref_threads@.len() <= old(self).ref_threads@.len() + 1,
            forall|t: int, j: usize|
                0 <= t < old(self).ref_threads@.len() && !(t == r.aux_thread && j == r.index)
                    ==> (#[trigger] final(self).ref_threads@[t].live(j)) == old(self).ref_threads@[t].live(j),
            forall|q: ValueRef|
                #[trigger] old(self).valid_ref(q) && !(q.aux_thread == r.aux_thread && q.index == r.index)
                    ==> final(self).valid_ref(q) && final(self).ref_value(q) == old(self).ref_value(q),
            final(self).ref_internal == old(self).ref_internal,
            final(self).failure_unchanged(old(self)),
            final(self).threads_unchanged(old(self)),
            final(self).heap_unchanged(old(self)),
            final(self).misc_unchanged(old(self)),
    {
        let (t, i, _replaced) = get_next_spot(&mut self.ref_threads, self.ref_max_slots);
        let ghost mid = self.ref_threads@;
        self.ref_threads[t].write(i, v);
        proof {
            assert forall|u: int|
                0 <= u < self.ref_threads@.len() implies (#[trigger] self.ref_threads@[u]).max_size
                == self.ref_max_slots by {
                if u == t {
                    assert(self.ref_threads@[u].max_size == mid[u].max_size);
                } else if u < old(self).ref_threads@.len() {
                    assert(mid[u] == old(self).ref_threads@[u]);
                    assert(self.ref_threads@[u] == mid[u]);
                } else {
                    assert(u == t);
                }
            }
            assert forall|k: int|
                0 <= k < self.failure_pool@.len() implies self.capsule_slot_ok(
                #[trigger] self.failure_pool@[k],
            ) by {
                assert(old(self).capsule_slot_ok(self.failure_pool@[k]));
            }
            assert forall|u: int, j: usize|
                0 <= u < old(self).ref_threads@.len() && !(u == t && j == i) implies (
            #[trigger] self.ref_threads@[u].live(j)) == old(self).ref_threads@[u].live(j) by {
                if u != t {
                    assert(mid[u] == old(self).ref_threads@[u]);
                    assert(self.ref_threads@[u] == mid[u]);
                } else {
                    assert(mid[u].live(j) == old(self).ref_threads@[u].live(j));
                    assert(self.ref_threads@[u].live(j) == mid[u].live(j));
                }
            }
            assert forall|q: ValueRef|
                #[trigger] old(self).valid_ref(q) && !(q.aux_thread == t && q.index == i)
                    implies self.valid_ref(q) && self.ref_value(q) == old(self).ref_value(q) by {
                if q.aux_thread != t {
                    assert(mid[q.aux_thread as int] == old(self).ref_threads@[q.aux_thread as int]);
                    assert(self.ref_threads@[q.aux_thread as int] == mid[q.aux_thread as int]);
                } else {
                    assert(mid[q.aux_thread as int].live(q.index) == old(self).ref_threads@[q.aux_thread as int].live(q.index));
                    assert(mid[q.aux_thread as int].slots@[q.index as int] == old(self).ref_threads@[q.aux_thread as int].slots@[q.index as int]);
                }
            }
        }
        ValueRef { aux_thread: t, index: i, owned: true }
    }

    /// Pops the topmost value of the given thread's stack and pins it.
    pub(crate) fn pop_ref_at(&mut self, tid: usize) -> (r: ValueRef)
        requires
            old(self).wf(),
            tid < old(self).threads@.len(),
            old(self).threads@[tid as int].stack@.len() >= 1,
        ensures
            final(self).wf(),
            r.owned,
            final(self).valid_ref(r),
            final(self).ref_value(r) == old(self).threads@[tid as int].stack@.last(),
            final(self).threads@.len() == old(self).threads@.len(),
            final(self).current == old(self).current,
            final(self).threads@[tid as int].stack@ == old(self).threads@[tid as int].stack@.drop_last(),
            final(self).threads@[tid as int].base == old(self).threads@[tid as int].base,
            final(self).threads@[tid as int].frame == old(self).threads@[tid as int].frame,
            forall|t: int|
                0 <= t < old(self).threads@.len() && t != tid ==> #[trigger] final(self).threads@[t]
                    == old(self).threads@[t],
            forall|q: ValueRef|
                #[trigger] old(self).valid_ref(q) && !(q.aux_thread == r.aux_thread && q.index == r.index)
                    ==> final(self).valid_ref(q) && final(self).ref_value(q) == old(self).ref_value(q),
            r.aux_thread < old(self).ref_threads@.len() ==> !old(self).ref_threads@[r.aux_thread as int].live(r.index),
            final(self).ref_internal == old(self).ref_internal,
            final(self).failure_unchanged(old(self)),
            final(self).heap_unchanged(old(self)),
            final(self).misc_unchanged(old(self)),
    {
        let popped = self.threads[tid].stack.pop();
        let v = match popped {
            Some(v) => v,
            None => {
                proof {
                    assert(false);
                }
                Value::Nil
            }
        };
        let ghost mid = *self;
        let r = self.pin_value(v);
        proof {
            assert(forall|t: int|
                0 <= t < old(self).threads@.len() && t != tid ==> #[trigger] self.threads@[t]
                    == old(self).threads@[t]);
            assert forall|q: ValueRef|
                #[trigger] old(self).valid_ref(q) && !(q.aux_thread == r.aux_thread && q.index
                    == r.index) implies self.valid_ref(q) && self.ref_value(q)
                == old(self).ref_value(q) by {
                assert(mid.valid_ref(q) == old(self).valid_ref(q));
                assert(mid.ref_value(q) == old(self).ref_value(q));
            }
        }
        r
    }

    /// Pops the topmost value of the current thread's stack and pins it.
    pub(crate) fn pop_ref(&mut self) -> (r: ValueRef)
        requires
            old(self).wf(),
            old(self).threads@[old(self).current as int].stack@.len() >= 1,
        ensures
            final(self).wf(),
            r.owned,
            final(self).valid_ref(r),
            final(self).ref_value(r) == old(self).threads@[old(self).current as int].stack@.last(),
            final(self).threads@.len() == old(self).threads@.len(),
            final(self).current == old(self).current,
            final(self).threads@[old(self).current as int].stack@ == old(self).threads@[old(self).current as int].stack@.drop_last(),
            final(self).threads@[old(self).current as int].base == old(self).threads@[old(self).current as int].base,
            final(self).threads@[old(self).current as int].frame == old(self).threads@[old(self).current as int].frame,
            forall|t: int|
                0 <= t < old(self).threads@.len() && t != old(self).current ==> #[trigger] final(self).threads@[t]
                    == old(self).threads@[t],
            forall|q: ValueRef|
                #[trigger] old(self).valid_ref(q) && !(q.aux_thread == r.aux_thread && q.index == r.index)
                    ==> final(self).valid_ref(q) && final(self).ref_value(q) == old(self).ref_value(q),
            final(self).ref_internal == old(self).ref_internal,
            final(self).failure_unchanged(old(self)),
            final(self).heap_unchanged(old(self)),
            final(self).misc_unchanged(old(self)),
    {
        let cur = self.current;
        self.pop_ref_at(cur)
    }

    /// Pushes the value pinned by a handle onto the given thread's stack.
    pub(crate) fn push_ref_at(&mut self, r: &ValueRef, tid: usize)
        requires
            old(self).wf(),
            old(self).valid_ref(*r),
            tid < old(self).threads@.len(),
        ensures
            final(self).wf(),
            final(self).threads@.len() == old(self).threads@.len(),
            final(self).current == old(self).current,
            final(self).threads@[tid as int].stack@ == old(self).threads@[tid as int].stack@.push(
                old(self).ref_value(*r),
            ),
            final(self).threads@[tid as int].base == old(self).threads@[tid as int].base,
            final(self).threads@[tid as int].frame == old(self).threads@[tid as int].frame,
            forall|t: int|
                0 <= t < old(self).threads@.len() && t != tid ==> #[trigger] final(self).threads@[t]
                    == old(self).threads@[t],
            final(self).refs_unchanged(old(self)),
            final(self).failure_unchanged(old(self)),
            final(self).heap_unchanged(old(self)),
            final(self).misc_unchanged(old(self)),
    {
        let v = *self.ref_threads[r.aux_thread].read(r.index);
        self.threads[tid].stack.push(v);
    }

    /// Releases the slot of an owning handle back to its thread's free
    /// list. Every other handle keeps its slot and its pinned value.
    pub(crate) fn drop_ref(&mut self, r: &ValueRef)
        requires
            old(self).wf(),
            old(self).valid_ref(*r),
            r.owned,
        ensures
            final(self).wf(),
            !final(self).ref_threads@[r.aux_thread as int].live(r.index),
            final(self).ref_threads@.len() == old(self).ref_threads@.len(),
            forall|t: int, j: usize|
                0 <= t < old(self).ref_threads@.len() && !(t == r.aux_thread && j == r.index)
                    ==> (#[trigger] final(self).ref_threads@[t].live(j)) == old(self).ref_threads@[t].live(j),
            forall|q: ValueRef|
                #[trigger] old(self).valid_ref(q) && !(q.aux_thread == r.aux_thread && q.index == r.index)
                    ==> final(self).valid_ref(q) && final(self).ref_value(q) == old(self).ref_value(q),
            final(self).ref_internal == old(self).ref_internal,
            final(self).failure_unchanged(old(self)),
            final(self).threads_unchanged(old(self)),
            final(self).heap_unchanged(old(self)),
            final(self).misc_unchanged(old(self)),
    {
        let ghost orig = self.ref_threads@;
        self.ref_threads[r.aux_thread].release(r.index);
        proof {
            assert forall|k: int|
                0 <= k < self.failure_pool@.len() implies self.capsule_slot_ok(
                #[trigger] self.failure_pool@[k],
            ) by {
                assert(old(self).capsule_slot_ok(self.failure_pool@[k]));
            }
            assert forall|u: int|
                0 <= u < self.ref_threads@.len() implies (#[trigger] self.ref_threads@[u]).max_size
                == self.ref_max_slots by {
                if u != r.aux_thread {
                    assert(self.ref_threads@[u] == old(self).ref_threads@[u]);
                }
            }
            assert forall|q: ValueRef|
                #[trigger] old(self).valid_ref(q) && !(q.aux_thread == r.aux_thread && q.index == r.index)
                    implies self.valid_ref(q) && self.ref_value(q) == old(self).ref_value(q) by {
                if q.aux_thread != r.aux_thread {
                    assert(self.ref_threads@[q.aux_thread as int] == old(self).ref_threads@[q.aux_thread as int]);
                } else {
                    assert(self.ref_threads@[q.aux_thread as int].live(q.index) == old(self).ref_threads@[q.aux_thread as int].live(q.index));
                    assert(self.ref_threads@[q.aux_thread as int].slots@[q.index as int] == old(self).ref_threads@[q.aux_thread as int].slots@[q.index as int]);
                }
            }
        }
    }

    /// Duplicates a reference: pins the same value in a fresh slot and
    /// returns a new owning handle (a full duplicate, unlike the shared
    /// handle of [`ValueRef::copy`]).
    pub(crate) fn clone_ref(&mut self, r: &ValueRef) -> (out: ValueRef)
        requires
            old(self).wf(),
            old(self).valid_ref(*r),
        ensures
            final(self).wf(),
            out.owned,
            final(self).valid_ref(out),
            final(self).ref_value(out) == old(self).ref_value(*r),
            !(out.aux_thread == r.aux_thread && out.index == r.index),
            final(self).valid_ref(*r),
            final(self).ref_value(*r) == old(self).ref_value(*r),
            forall|q: ValueRef|
                #[trigger] old(self).valid_ref(q) && !(q.aux_thread == out.aux_thread && q.index == out.index)
                    ==> final(self).valid_ref(q) && final(self).ref_value(q) == old(self).ref_value(q),
            final(self).ref_internal == old(self).ref_internal,
            final(self).failure_unchanged(old(self)),
            final(self).threads_unchanged(old(self)),
            final(self).heap_unchanged(old(self)),
            final(self).misc_unchanged(old(self)),
    {
        let v = *self.ref_threads[r.aux_thread].read(r.index);
        let out = self.pin_value(v);
        proof {
            if out.aux_thread == r.aux_thread && out.index == r.index {
                assert(!old(self).ref_threads@[r.aux_thread as int].live(r.index));
                assert(false);
            }
        }
        out
    }

    /// Decides raw (identity) equality of two values: primitives compare
    /// by value, strings by their text (the interpreter interns them),
    /// and every other heap value by identity.
    pub open spec fn raw_equal(&self, x: Value, y: Value) -> bool {
        match (x, y) {
            (Value::Nil, Value::Nil) => true,
            (Value::Boolean(a), Value::Boolean(b)) => a == b,
            (Value::Integer(a), Value::Integer(b)) => a == b,
            (Value::Obj(i), Value::Obj(j)) => {
                if i < self.objects@.len() && j < self.objects@.len()
                    && self.objects@[i as int] is Str && self.objects@[j as int] is Str {
                    self.objects@[i as int]->Str_0@ == self.objects@[j as int]->Str_0@
                } else {
                    i == j
                }
            },
            _ => false,
        }
    }

    /// Compares the values pinned by two handles, by raw equality
    /// performed on the interpreter side. Both handles must belong to
    /// this interpreter instance; comparing handles of two different
    /// instances is a programming error, which the handle model rules
    /// out by construction.
    pub fn refs_equal(&self, a: &ValueRef, b: &ValueRef) -> (r: bool)
        requires
            self.wf(),
            self.valid_ref(*a),
            self.valid_ref(*b),
        ensures
            r == self.raw_equal(self.ref_value(*a), self.ref_value(*b)),
    {
        let x = *self.ref_threads[a.aux_thread].read(a.index);
        let y = *self.ref_threads[b.aux_thread].read(b.index);
        match (x, y) {
            (Value::Nil, Value::Nil) => true,
            (Value::Boolean(p), Value::Boolean(q)) => p == q,
            (Value::Integer(p), Value::Integer(q)) => p == q,
            (Value::Obj(i), Value::Obj(j)) => {
                if i < self.objects.len() && j < self.objects.len() {
                    let oi = &self.objects[i];
                    let oj = &self.objects[j];
                    match (oi, oj) {
                        (LuaObj::Str(si), LuaObj::Str(sj)) => si.eq(sj),
                        _ => i == j,
                    }
                } else {
                    i == j
                }
            },
            _ => false,
        }
    }

    /// The stable identity pointer of the value pinned by a handle: its
    /// heap index for a complex value, nothing for a primitive. It is
    /// not reversible; it serves hashing and debugging.
    pub fn ref_to_pointer(&self, r: &ValueRef) -> (p: Option<usize>)
        requires
            self.wf(),
            self.valid_ref(*r),
        ensures
            p == (match self.ref_value(*r) {
                Value::Obj(id) => Some(id),
                _ => None::<usize>,
            }),
    {
        let v = *self.ref_threads[r.aux_thread].read(r.index);
        match v {
            Value::Obj(id) => Some(id),
            _ => None,
        }
    }
}

} // verus!
