//! The extended runtime module: an optional scheduler and
//! standard-library provider layered atop the base interpreter.
//!
//! The runtime itself is an external collaborator; this module holds the
//! state the binding keeps for it (which libraries are loaded, the
//! handle tables pinned for them, and the scheduler queues) and the
//! lifecycle and polling surface the host drives in a polling loop.

use vstd::prelude::*;
use vstd::string::StringExecFns;
use crate::error::Error;
use crate::error::ErrorKind;
use crate::function::Function;
use crate::state::Lua;
use crate::state::ValueRef;
use crate::value::Instr;
use crate::value::LuaObj;
use crate::value::Value;

verus! {

/// Flags describing a set of extended-runtime standard libraries.
#[derive(Clone, Copy, PartialEq, Eq, Structural, Debug)]
pub struct LuteStdLib(pub u32);

impl LuteStdLib {
    /// The cryptography library.
    pub fn crypto() -> (r: LuteStdLib)
        ensures
            r.0 == 1u32,
    {
        LuteStdLib(1)
    }

    /// The filesystem library.
    pub fn fs() -> (r: LuteStdLib)
        ensures
            r.0 == 2u32,
    {
        LuteStdLib(2)
    }

    /// The dialect tooling library.
    pub fn luau() -> (r: LuteStdLib)
        ensures
            r.0 == 4u32,
    {
        LuteStdLib(4)
    }

    /// The network library.
    pub fn net() -> (r: LuteStdLib)
        ensures
            r.0 == 8u32,
    {
        LuteStdLib(8)
    }

    /// The process library.
    pub fn process() -> (r: LuteStdLib)
        ensures
            r.0 == 16u32,
    {
        LuteStdLib(16)
    }

    /// The task library.
    pub fn task() -> (r: LuteStdLib)
        ensures
            r.0 == 32u32,
    {
        LuteStdLib(32)
    }

    /// The child-instance library.
    pub fn vm() -> (r: LuteStdLib)
        ensures
            r.0 == 64u32,
    {
        LuteStdLib(64)
    }

    /// The system library.
    pub fn system() -> (r: LuteStdLib)
        ensures
            r.0 == 128u32,
    {
        LuteStdLib(128)
    }

    /// The time library.
    pub fn time() -> (r: LuteStdLib)
        ensures
            r.0 == 256u32,
    {
        LuteStdLib(256)
    }

    /// No libraries.
    pub fn none() -> (r: LuteStdLib)
        ensures
            r.0 == 0,
    {
        LuteStdLib(0)
    }

    /// All libraries (unsafe to expose wholesale).
    pub fn all() -> (r: LuteStdLib)
        ensures
            r.0 == u32::MAX,
    {
        LuteStdLib(u32::MAX)
    }

    /// Whether this set overlaps the given one.
    pub fn contains(self, lib: LuteStdLib) -> (r: bool)
        ensures
            r == ((self.0 & lib.0) != 0),
    {
        (self.0 & lib.0) != 0
    }

    /// The union of two sets.
    pub fn union(self, other: LuteStdLib) -> (r: LuteStdLib)
        ensures
            r.0 == (self.0 | other.0),
    {
        LuteStdLib(self.0 | other.0)
    }
}

/// Which kind of child instance the runtime asked to initialize.
#[derive(Debug, Clone, Copy, Eq, PartialEq, Structural, Hash)]
pub enum LuteChildVmType {
    /// A child instance for running interpreter code.
    ChildVm,
    /// An internal instance the runtime uses for data copying.
    DataCopy,
}

/// The result of one scheduler tick.
pub enum LuteSchedulerRunOnceResult {
    /// The scheduler had nothing to run.
    Empty,
    /// The scheduler ran this thread to a completion point.
    Success(crate::thread::Thread),
}

impl LuteSchedulerRunOnceResult {
    /// Whether the tick ran a thread successfully.
    pub fn is_success(&self) -> (r: bool)
        ensures
            r == (self is Success),
    {
        match self {
            LuteSchedulerRunOnceResult::Success(_) => true,
            _ => false,
        }
    }

    /// Whether the tick had nothing to run.
    pub fn is_empty(&self) -> (r: bool)
        ensures
            r == (self is Empty),
    {
        match self {
            LuteSchedulerRunOnceResult::Empty => true,
            _ => false,
        }
    }

    /// Extracts the results of a successful tick: the values left on
    /// the completed thread's stack. An empty tick has no results.
    pub fn results(self, lua: &mut Lua) -> (r: Result<Vec<Value>, Error>)
        requires
            old(lua).wf(),
            self matches LuteSchedulerRunOnceResult::Success(th) ==> th.1 < old(lua).threads@.len(),
        ensures
            final(lua).wf(),
            r is Err <==> self is Empty,
            r matches Err(e) ==> e.spec_kind() == ErrorKind::Runtime && final(lua).threads_unchanged(old(lua)),
            self matches LuteSchedulerRunOnceResult::Success(th) ==> (r matches Ok(vs) && vs@
                == old(lua).threads@[th.1 as int].stack@ && final(lua).threads@[th.1 as int].stack@.len() == 0),
            final(lua).refs_unchanged(old(lua)),
            final(lua).failure_unchanged(old(lua)),
            final(lua).heap_unchanged(old(lua)),
            final(lua).misc_unchanged(old(lua)),
            final(lua).current == old(lua).current,
            final(lua).threads@.len() == old(lua).threads@.len(),
    {
        match self {
            LuteSchedulerRunOnceResult::Success(th) => {
                let vs = crate::exec::take_stack(&mut lua.threads[th.1].stack);
                proof {
                    assert forall|t: int|
                        0 <= t < lua.threads@.len() implies (#[trigger] lua.threads@[t]).wf() by {
                        if t != th.1 {
                            assert(lua.threads@[t] == old(lua).threads@[t]);
                        } else {
                            assert(lua.threads@[t].base == old(lua).threads@[t].base);
                            assert(lua.threads@[t].frame == old(lua).threads@[t].frame);
                        }
                    }
                }
                Ok(vs)
            }
            LuteSchedulerRunOnceResult::Empty => {
                proof {
                    reveal_strlit("run_once was not successful");
                }
                Err(Error::RuntimeError(String::from_str("run_once was not successful")))
            }
        }
    }
}

/// A handle to the extended runtime, holding references to the loaded
/// standard libraries and to the scheduler step function.
pub struct LuteRuntimeHandle {
    pub crypto: Option<Table>,
    pub fs: Option<Table>,
    pub luau: Option<Table>,
    pub net: Option<Table>,
    pub process: Option<Table>,
    pub task: Option<Table>,
    pub vm: Option<Table>,
    pub system: Option<Table>,
    pub time: Option<Table>,
    pub scheduler_run_once: Function,
}

/// A handle to an interpreter table, pinned in the reference pool.
#[derive(Debug)]
pub struct Table(pub ValueRef);

/// Binding-side state of a loaded extended runtime.
pub struct LuteState {
    /// Bitflag set of loaded extended-runtime libraries.
    pub libs: u32,
    /// The runtime handle with its pinned library tables.
    pub handle: LuteRuntimeHandle,
    /// The registered child-instance initialization routine, if any.
    pub initter: Option<Vec<Instr>>,
    /// Scheduler queue: coroutine heap objects with pending work.
    pub queue: Vec<usize>,
    /// Pending continuations the scheduler still has to run.
    pub continuations: usize,
}

/// A handle to the extended runtime of an interpreter instance; its
/// operations take the instance they act on.
pub struct Lute;

/// Whether a library flag reads as loaded in the runtime state.
pub open spec fn lute_lib_loaded(ls: LuteState, bit: u32) -> bool {
    ls.libs & bit != 0
}

impl Lua {
    /// Returns a handle to the extended runtime, setting the runtime up
    /// first if it is not already loaded.
    pub fn lute(&mut self) -> (r: Result<Lute, Error>)
        requires
            old(self).wf(),
            old(self).objects@.len() < usize::MAX,
            old(self).threads@[old(self).current as int].stack@.len() < usize::MAX,
        ensures
            final(self).wf(),
            r is Err <==> (old(self).lute is None && old(self).alloc_would_fail()),
            r matches Err(e) ==> e.spec_kind() == ErrorKind::Memory,
            r is Ok ==> final(self).lute is Some,
            old(self).lute is Some ==> final(self).lute == old(self).lute,
            old(self).lute is None && r is Ok ==> (final(self).lute matches Some(ls) && ls.libs
                == 0 && ls.queue@.len() == 0 && ls.continuations == 0 && ls.initter is None),
            final(self).objects@.len() <= old(self).objects@.len() + 1,
            final(self).threads_equiv(old(self)),
            final(self).failure_unchanged(old(self)),
    {
        if self.is_lute_loaded() {
            return Ok(Lute);
        }
        match self.setup_lute_runtime() {
            Ok(()) => Ok(Lute),
            Err(e) => Err(e),
        }
    }

    /// Whether an extended runtime is loaded into this instance.
    pub fn is_lute_loaded(&self) -> (r: bool)
        ensures
            r == (self.lute is Some),
    {
        match &self.lute {
            Some(_) => true,
            None => false,
        }
    }

    /// Sets the extended runtime up: pins its scheduler step function
    /// and installs the empty runtime state.
    pub fn setup_lute_runtime(&mut self) -> (r: Result<(), Error>)
        requires
            old(self).wf(),
            old(self).objects@.len() < usize::MAX,
            old(self).threads@[old(self).current as int].stack@.len() < usize::MAX,
        ensures
            final(self).wf(),
            r is Err <==> old(self).alloc_would_fail(),
            r matches Err(e) ==> e.spec_kind() == ErrorKind::Memory,
            r is Ok ==> (final(self).lute matches Some(ls) && ls.libs == 0 && ls.queue@.len() == 0
                && ls.continuations == 0 && ls.initter is None),
            final(self).objects@.len() <= old(self).objects@.len() + 1,
            final(self).threads_equiv(old(self)),
            final(self).failure_unchanged(old(self)),
    {
        let vref = match self.create_pinned(
            LuaObj::Func(crate::value::FuncDef { program: Vec::new(), host: false }),
        ) {
            Ok(vref) => vref,
            Err(e) => {
                return Err(e);
            }
        };
        self.lute = Some(
            LuteState {
                libs: 0,
                handle: LuteRuntimeHandle {
                    crypto: None,
                    fs: None,
                    luau: None,
                    net: None,
                    process: None,
                    task: None,
                    vm: None,
                    system: None,
                    time: None,
                    scheduler_run_once: Function(vref),
                },
                initter: None,
                queue: Vec::new(),
                continuations: 0,
            },
        );
        Ok(())
    }
}

/// The error returned by runtime operations when no runtime is loaded.
fn lute_not_loaded() -> (e: Error)
    ensures
        e.spec_kind() == ErrorKind::Runtime,
        e.spec_message() == "Lute runtime is not loaded"@,
{
    proof {
        reveal_strlit("Lute runtime is not loaded");
    }
    Error::RuntimeError(String::from_str("Lute runtime is not loaded"))
}

impl Lute {
    /// Loads the requested extended standard libraries: pins a handle
    /// table for each requested library not yet loaded and records the
    /// flags. Errors when the runtime is not loaded; under a configured
    /// memory limit a table allocation may be refused part-way, in
    /// which case the libraries loaded so far stay loaded.
    pub fn load_stdlib(&self, lua: &mut Lua, libs: LuteStdLib) -> (r: Result<(), Error>)
        requires
            old(lua).wf(),
            old(lua).objects@.len() + 16 < usize::MAX,
            old(lua).threads@[old(lua).current as int].stack@.len() < usize::MAX,
        ensures
            final(lua).wf(),
            old(lua).lute is None ==> (r matches Err(e) && e.spec_kind() == ErrorKind::Runtime
                && final(lua).misc_unchanged(old(lua))),
            old(lua).lute is Some && old(lua).memory_limit == 0 ==> r is Ok,
            old(lua).lute is Some ==> (r matches Err(e) ==> e.spec_kind() == ErrorKind::Memory),
            r is Ok && old(lua).lute is Some ==> (final(lua).lute matches Some(ls2) && (old(lua).lute matches Some(ls1) && {
                &&& ls2.libs == (ls1.libs | libs.0)
                &&& (libs.0 & 2u32) != 0 ==> ls2.handle.fs is Some
                &&& (libs.0 & 4u32) != 0 ==> ls2.handle.luau is Some
                &&& (libs.0 & 16u32) != 0 ==> ls2.handle.process is Some
                &&& (libs.0 & 32u32) != 0 ==> ls2.handle.task is Some
                &&& (libs.0 & 64u32) != 0 ==> ls2.handle.vm is Some
                &&& (libs.0 & 128u32) != 0 ==> ls2.handle.system is Some
                &&& (libs.0 & 256u32) != 0 ==> ls2.handle.time is Some
                &&& ls2.queue == ls1.queue
                &&& ls2.continuations == ls1.continuations
                &&& ls2.initter == ls1.initter
            })),
            final(lua).objects@.len() <= old(lua).objects@.len() + 16,
            final(lua).threads_equiv(old(lua)),
            final(lua).failure_unchanged(old(lua)),
    {
        if !lua.is_lute_loaded() {
            return Err(lute_not_loaded());
        }
        if libs.0 & 2 != 0 {
            match lute_load_one(lua, 2) {
                Ok(()) => (),
                Err(e) => {
                    return Err(e);
                }
            }
        }
        if libs.0 & 4 != 0 {
            match lute_load_one(lua, 4) {
                Ok(()) => (),
                Err(e) => {
                    return Err(e);
                }
            }
        }
        if libs.0 & 16 != 0 {
            match lute_load_one(lua, 16) {
                Ok(()) => (),
                Err(e) => {
                    return Err(e);
                }
            }
        }
        if libs.0 & 32 != 0 {
            match lute_load_one(lua, 32) {
                Ok(()) => (),
                Err(e) => {
                    return Err(e);
                }
            }
        }
        if libs.0 & 64 != 0 {
            match lute_load_one(lua, 64) {
                Ok(()) => (),
                Err(e) => {
                    return Err(e);
                }
            }
        }
        if libs.0 & 128 != 0 {
            match lute_load_one(lua, 128) {
                Ok(()) => (),
                Err(e) => {
                    return Err(e);
                }
            }
        }
        if libs.0 & 256 != 0 {
            match lute_load_one(lua, 256) {
                Ok(()) => (),
                Err(e) => {
                    return Err(e);
                }
            }
        }
        // Record every requested flag, including libraries with no
        // loadable table in this build (cryptography and network).
        lute_set_flag(lua, libs.0);
        Ok(())
    }

    /// Registers a runtime initialization routine, run whenever the
    /// runtime makes a child instance.
    pub fn set_runtime_initter(&self, lua: &mut Lua, initter: Vec<Instr>) -> (r: Result<(), Error>)
        requires
            old(lua).wf(),
        ensures
            final(lua).wf(),
            r is Err <==> old(lua).lute is None,
            r matches Err(e) ==> e.spec_kind() == ErrorKind::Runtime,
            r is Ok ==> (final(lua).lute matches Some(ls2) && ls2.initter matches Some(p) && p@
                == initter@),
            final(lua).threads_unchanged(old(lua)),
            final(lua).refs_unchanged(old(lua)),
            final(lua).failure_unchanged(old(lua)),
            final(lua).heap_unchanged(old(lua)),
    {
        match &mut lua.lute {
            Some(ls) => {
                ls.initter = Some(initter);
                Ok(())
            }
            None => Err(lute_not_loaded()),
        }
    }

    /// Whether the scheduler has work to do.
    pub fn has_work(&self, lua: &Lua) -> (r: Result<bool, Error>)
        ensures
            r is Err <==> lua.lute is None,
            r matches Ok(b) ==> (lua.lute matches Some(ls) && b == (ls.queue@.len() > 0
                || ls.continuations > 0)),
    {
        match &lua.lute {
            Some(ls) => Ok(ls.queue.len() > 0 || ls.continuations > 0),
            None => Err(lute_not_loaded()),
        }
    }

    /// Whether the scheduler has threads to run.
    pub fn has_threads(&self, lua: &Lua) -> (r: Result<bool, Error>)
        ensures
            r is Err <==> lua.lute is None,
            r matches Ok(b) ==> (lua.lute matches Some(ls) && b == (ls.queue@.len() > 0)),
    {
        match &lua.lute {
            Some(ls) => Ok(ls.queue.len() > 0),
            None => Err(lute_not_loaded()),
        }
    }

    /// Whether the scheduler has continuations to run.
    pub fn has_continuations(&self, lua: &Lua) -> (r: Result<bool, Error>)
        ensures
            r is Err <==> lua.lute is None,
            r matches Ok(b) ==> (lua.lute matches Some(ls) && b == (ls.continuations > 0)),
    {
        match &lua.lute {
            Some(ls) => Ok(ls.continuations > 0),
            None => Err(lute_not_loaded()),
        }
    }

    /// The cryptography library's table, if loaded.
    pub fn crypto(&self, lua: &Lua) -> (r: Result<Option<Table>, Error>)
        ensures
            r is Err <==> lua.lute is None,
            r matches Ok(t) ==> (lua.lute matches Some(ls) && (t is Some <==> ls.handle.crypto
                is Some) && (t matches Some(t2) ==> (ls.handle.crypto matches Some(t1)
                && t2.0.aux_thread == t1.0.aux_thread && t2.0.index == t1.0.index && !t2.0.owned))),
    {
        match &lua.lute {
            Some(ls) => Ok(copy_table(&ls.handle.crypto)),
            None => Err(lute_not_loaded()),
        }
    }

    /// The filesystem library's table, if loaded.
    pub fn fs(&self, lua: &Lua) -> (r: Result<Option<Table>, Error>)
        ensures
            r is Err <==> lua.lute is None,
            r matches Ok(t) ==> (lua.lute matches Some(ls) && (t is Some <==> ls.handle.fs
                is Some) && (t matches Some(t2) ==> (ls.handle.fs matches Some(t1)
                && t2.0.aux_thread == t1.0.aux_thread && t2.0.index == t1.0.index && !t2.0.owned))),
    {
        match &lua.lute {
            Some(ls) => Ok(copy_table(&ls.handle.fs)),
            None => Err(lute_not_loaded()),
        }
    }

    /// The dialect tooling library's table, if loaded.
    pub fn luau(&self, lua: &Lua) -> (r: Result<Option<Table>, Error>)
        ensures
            r is Err <==> lua.lute is None,
            r matches Ok(t) ==> (lua.lute matches Some(ls) && (t is Some <==> ls.handle.luau
                is Some) && (t matches Some(t2) ==> (ls.handle.luau matches Some(t1)
                && t2.0.aux_thread == t1.0.aux_thread && t2.0.index == t1.0.index && !t2.0.owned))),
    {
        match &lua.lute {
            Some(ls) => Ok(copy_table(&ls.handle.luau)),
            None => Err(lute_not_loaded()),
        }
    }

    /// The network library's table, if loaded.
    pub fn net(&self, lua: &Lua) -> (r: Result<Option<Table>, Error>)
        ensures
            r is Err <==> lua.lute is None,
            r matches Ok(t) ==> (lua.lute matches Some(ls) && (t is Some <==> ls.handle.net
                is Some) && (t matches Some(t2) ==> (ls.handle.net matches Some(t1)
                && t2.0.aux_thread == t1.0.aux_thread && t2.0.index == t1.0.index && !t2.0.owned))),
    {
        match &lua.lute {
            Some(ls) => Ok(copy_table(&ls.handle.net)),
            None => Err(lute_not_loaded()),
        }
    }

    /// The process library's table, if loaded.
    pub fn process(&self, lua: &Lua) -> (r: Result<Option<Table>, Error>)
        ensures
            r is Err <==> lua.lute is None,
            r matches Ok(t) ==> (lua.lute matches Some(ls) && (t is Some <==> ls.handle.process
                is Some) && (t matches Some(t2) ==> (ls.handle.process matches Some(t1)
                && t2.0.aux_thread == t1.0.aux_thread && t2.0.index == t1.0.index && !t2.0.owned))),
    {
        match &lua.lute {
            Some(ls) => Ok(copy_table(&ls.handle.process)),
            None => Err(lute_not_loaded()),
        }
    }

    /// The task library's table, if loaded.
    pub fn task(&self, lua: &Lua) -> (r: Result<Option<Table>, Error>)
        ensures
            r is Err <==> lua.lute is None,
            r matches Ok(t) ==> (lua.lute matches Some(ls) && (t is Some <==> ls.handle.task
                is Some) && (t matches Some(t2) ==> (ls.handle.task matches Some(t1)
                && t2.0.aux_thread == t1.0.aux_thread && t2.0.index == t1.0.index && !t2.0.owned))),
    {
        match &lua.lute {
            Some(ls) => Ok(copy_table(&ls.handle.task)),
            None => Err(lute_not_loaded()),
        }
    }

    /// The child-instance library's table, if loaded.
    pub fn vm(&self, lua: &Lua) -> (r: Result<Option<Table>, Error>)
        ensures
            r is Err <==> lua.lute is None,
            r matches Ok(t) ==> (lua.lute matches Some(ls) && (t is Some <==> ls.handle.vm
                is Some) && (t matches Some(t2) ==> (ls.handle.vm matches Some(t1)
                && t2.0.aux_thread == t1.0.aux_thread && t2.0.index == t1.0.index && !t2.0.owned))),
    {
        match &lua.lute {
            Some(ls) => Ok(copy_table(&ls.handle.vm)),
            None => Err(lute_not_loaded()),
        }
    }

    /// The system library's table, if loaded.
    pub fn system(&self, lua: &Lua) -> (r: Result<Option<Table>, Error>)
        ensures
            r is Err <==> lua.lute is None,
            r matches Ok(t) ==> (lua.lute matches Some(ls) && (t is Some <==> ls.handle.system
                is Some) && (t matches Some(t2) ==> (ls.handle.system matches Some(t1)
                && t2.0.aux_thread == t1.0.aux_thread && t2.0.index == t1.0.index && !t2.0.owned))),
    {
        match &lua.lute {
            Some(ls) => Ok(copy_table(&ls.handle.system)),
            None => Err(lute_not_loaded()),
        }
    }

    /// The time library's table, if loaded.
    pub fn time(&self, lua: &Lua) -> (r: Result<Option<Table>, Error>)
        ensures
            r is Err <==> lua.lute is None,
            r matches Ok(t) ==> (lua.lute matches Some(ls) && (t is Some <==> ls.handle.time
                is Some) && (t matches Some(t2) ==> (ls.handle.time matches Some(t1)
                && t2.0.aux_thread == t1.0.aux_thread && t2.0.index == t1.0.index && !t2.0.owned))),
    {
        match &lua.lute {
            Some(ls) => Ok(copy_table(&ls.handle.time)),
            None => Err(lute_not_loaded()),
        }
    }

    /// The scheduler step function from the runtime handle.
    pub fn scheduler_run_once_lua(&self, lua: &Lua) -> (r: Result<Function, Error>)
        ensures
            r is Err <==> lua.lute is None,
            r matches Ok(f) ==> (lua.lute matches Some(ls) && f.0.aux_thread
                == ls.handle.scheduler_run_once.0.aux_thread && f.0.index
                == ls.handle.scheduler_run_once.0.index),
    {
        match &lua.lute {
            Some(ls) => Ok(Function(ls.handle.scheduler_run_once.0.copy())),
            None => Err(lute_not_loaded()),
        }
    }

    /// A copy of the runtime handle, if the runtime is loaded. Updates
    /// via later library loads are not reflected in the copy.
    pub fn handle(&self, lua: &Lua) -> (r: Result<Option<LuteRuntimeHandle>, Error>)
        ensures
            r is Err <==> lua.lute is None,
            r matches Ok(h) ==> (h matches Some(h2) && (lua.lute matches Some(ls) && {
                &&& (h2.crypto is Some <==> ls.handle.crypto is Some)
                &&& (h2.fs is Some <==> ls.handle.fs is Some)
                &&& (h2.luau is Some <==> ls.handle.luau is Some)
                &&& (h2.net is Some <==> ls.handle.net is Some)
                &&& (h2.process is Some <==> ls.handle.process is Some)
                &&& (h2.task is Some <==> ls.handle.task is Some)
                &&& (h2.vm is Some <==> ls.handle.vm is Some)
                &&& (h2.system is Some <==> ls.handle.system is Some)
                &&& (h2.time is Some <==> ls.handle.time is Some)
            })),
    {
        match &lua.lute {
            Some(ls) => Ok(
                Some(
                    LuteRuntimeHandle {
                        crypto: copy_table(&ls.handle.crypto),
                        fs: copy_table(&ls.handle.fs),
                        luau: copy_table(&ls.handle.luau),
                        net: copy_table(&ls.handle.net),
                        process: copy_table(&ls.handle.process),
                        task: copy_table(&ls.handle.task),
                        vm: copy_table(&ls.handle.vm),
                        system: copy_table(&ls.handle.system),
                        time: copy_table(&ls.handle.time),
                        scheduler_run_once: Function(ls.handle.scheduler_run_once.0.copy()),
                    },
                ),
            ),
            None => Err(lute_not_loaded()),
        }
    }

    /// Runs one scheduler tick: takes the next queued thread, if any,
    /// and hands it back as the tick's result; with nothing queued the
    /// tick is empty.
    pub fn run_scheduler_once(&self, lua: &mut Lua) -> (r: Result<
        LuteSchedulerRunOnceResult,
        Error,
    >)
        requires
            old(lua).wf(),
        ensures
            final(lua).wf(),
            r is Err <==> old(lua).lute is None,
            r matches Ok(out) ==> (old(lua).lute matches Some(ls) && {
                if ls.queue@.len() == 0 {
                    out is Empty
                } else {
                    let id = ls.queue@.last();
                    &&& (final(lua).lute matches Some(ls2) && ls2.queue@ == ls.queue@.drop_last())
                    &&& if id < old(lua).objects@.len() && (old(lua).objects@[id as int] matches
                        LuaObj::Coroutine(tid) && tid < old(lua).threads@.len()) {
                        out matches LuteSchedulerRunOnceResult::Success(th) && th.1 == old(
                            lua,
                        ).objects@[id as int]->Coroutine_0 && th.0.owned && final(lua).valid_ref(
                            th.0,
                        ) && final(lua).ref_value(th.0) == Value::Obj(id)
                    } else {
                        out is Empty
                    }
                }
            }),
            final(lua).threads_unchanged(old(lua)),
            final(lua).heap_unchanged(old(lua)),
            final(lua).failure_unchanged(old(lua)),
    {
        let queued: Option<usize> = match &mut lua.lute {
            Some(ls) => ls.queue.pop(),
            None => {
                return Err(lute_not_loaded());
            }
        };
        let id = match queued {
            Some(id) => id,
            None => {
                return Ok(LuteSchedulerRunOnceResult::Empty);
            }
        };
        // Hand the completed thread back, pinning a fresh reference to
        // its coroutine object; a stale queue entry yields an empty
        // tick.
        if id < lua.objects.len() {
            let tid_opt = match &lua.objects[id] {
                LuaObj::Coroutine(tid) => Some(*tid),
                _ => None,
            };
            match tid_opt {
                Some(tid) => {
                    if tid < lua.threads.len() {
                        let vref = lua.pin_value(Value::Obj(id));
                        return Ok(
                            LuteSchedulerRunOnceResult::Success(crate::thread::Thread(vref, tid)),
                        );
                    }
                }
                None => (),
            }
        }
        Ok(LuteSchedulerRunOnceResult::Empty)
    }

    /// Whether a runtime is loaded into this instance. This is true
    /// unless the runtime was destroyed or never set up.
    pub fn is_loaded(&self, lua: &Lua) -> (r: Result<bool, Error>)
        ensures
            r matches Ok(b) && b == (lua.lute is Some),
    {
        Ok(lua.is_lute_loaded())
    }

    /// Sets the runtime up if it is not already loaded.
    pub fn setup_runtime(&self, lua: &mut Lua) -> (r: Result<(), Error>)
        requires
            old(lua).wf(),
            old(lua).objects@.len() < usize::MAX,
            old(lua).threads@[old(lua).current as int].stack@.len() < usize::MAX,
        ensures
            final(lua).wf(),
            r is Err <==> (old(lua).lute is None && old(lua).alloc_would_fail()),
            r is Ok ==> final(lua).lute is Some,
            old(lua).lute is Some ==> final(lua).lute == old(lua).lute,
    {
        if lua.is_lute_loaded() {
            return Ok(());
        }
        lua.setup_lute_runtime()
    }

    /// Destroys the runtime on this instance, releasing its state.
    /// Reports whether a runtime was actually destroyed.
    pub fn destroy_runtime(self, lua: &mut Lua) -> (r: Result<bool, Error>)
        requires
            old(lua).wf(),
        ensures
            final(lua).wf(),
            r matches Ok(b) && b == (old(lua).lute is Some),
            final(lua).lute is None,
            final(lua).threads_unchanged(old(lua)),
            final(lua).refs_unchanged(old(lua)),
            final(lua).failure_unchanged(old(lua)),
            final(lua).heap_unchanged(old(lua)),
    {
        let was = lua.is_lute_loaded();
        lua.lute = None;
        Ok(was)
    }
}

/// A non-owning copy of an optional table handle.
fn copy_table(t: &Option<Table>) -> (r: Option<Table>)
    ensures
        r is Some <==> t is Some,
        r matches Some(t2) ==> (t matches Some(t1) && t2.0.aux_thread == t1.0.aux_thread
            && t2.0.index == t1.0.index && !t2.0.owned),
{
    match t {
        Some(t1) => Some(Table(t1.0.copy())),
        None => None,
    }
}

/// Records a library flag in the runtime state.
fn lute_set_flag(lua: &mut Lua, bit: u32)
    requires
        old(lua).wf(),
        old(lua).lute is Some,
    ensures
        final(lua).wf(),
        final(lua).lute matches Some(ls2) && (old(lua).lute matches Some(ls1) && ls2 == (LuteState {
            libs: ls1.libs | bit,
            ..ls1
        })),
        final(lua).threads_unchanged(old(lua)),
        final(lua).refs_unchanged(old(lua)),
        final(lua).failure_unchanged(old(lua)),
        final(lua).heap_unchanged(old(lua)),
{
    match &mut lua.lute {
        Some(ls) => {
            ls.libs = ls.libs | bit;
        }
        None => (),
    }
}

/// Loads one extended library: pins a fresh table for it and records
/// its flag.
fn lute_load_one(lua: &mut Lua, bit: u32) -> (r: Result<(), Error>)
    requires
        old(lua).wf(),
        old(lua).lute is Some,
        old(lua).objects@.len() < usize::MAX,
        old(lua).threads@[old(lua).current as int].stack@.len() < usize::MAX,
    ensures
        final(lua).wf(),
        r is Err <==> old(lua).alloc_would_fail(),
        r matches Err(e) ==> e.spec_kind() == ErrorKind::Memory && final(lua).lute == old(lua).lute,
        final(lua).memory_limit == old(lua).memory_limit,
        final(lua).mem_used == final(lua).objects@.len(),
        r is Ok ==> (final(lua).lute matches Some(ls2) && (old(lua).lute matches Some(ls1) && {
            &&& ls2.libs == ls1.libs
            &&& ls2.queue == ls1.queue
            &&& ls2.continuations == ls1.continuations
            &&& ls2.initter == ls1.initter
            &&& (bit == 2u32 ==> ls2.handle.fs is Some)
            &&& (bit == 4u32 ==> ls2.handle.luau is Some)
            &&& (bit == 16u32 ==> ls2.handle.process is Some)
            &&& (bit == 32u32 ==> ls2.handle.task is Some)
            &&& (bit == 64u32 ==> ls2.handle.vm is Some)
            &&& (bit == 128u32 ==> ls2.handle.system is Some)
            &&& (bit == 256u32 ==> ls2.handle.time is Some)
            &&& (bit != 2u32 ==> ls2.handle.fs == ls1.handle.fs)
            &&& (bit != 4u32 ==> ls2.handle.luau == ls1.handle.luau)
            &&& (bit != 16u32 ==> ls2.handle.process == ls1.handle.process)
            &&& (bit != 32u32 ==> ls2.handle.task == ls1.handle.task)
            &&& (bit != 64u32 ==> ls2.handle.vm == ls1.handle.vm)
            &&& (bit != 128u32 ==> ls2.handle.system == ls1.handle.system)
            &&& (bit != 256u32 ==> ls2.handle.time == ls1.handle.time)
        })),
        final(lua).objects@.len() <= old(lua).objects@.len() + 1,
        final(lua).threads_equiv(old(lua)),
        final(lua).failure_unchanged(old(lua)),
{
    let vref = match lua.create_pinned(LuaObj::Table(Vec::new())) {
        Ok(vref) => vref,
        Err(e) => {
            return Err(e);
        }
    };
    match &mut lua.lute {
        Some(ls) => {
            if bit == 2 {
                ls.handle.fs = Some(Table(vref));
            } else if bit == 4 {
                ls.handle.luau = Some(Table(vref));
            } else if bit == 16 {
                ls.handle.process = Some(Table(vref));
            } else if bit == 32 {
                ls.handle.task = Some(Table(vref));
            } else if bit == 64 {
                ls.handle.vm = Some(Table(vref));
            } else if bit == 128 {
                ls.handle.system = Some(Table(vref));
            } else {
                if bit == 256 {
                    ls.handle.time = Some(Table(vref));
                }
            }
        }
        None => (),
    }
    Ok(())
}

} // verus!
