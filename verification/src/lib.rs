//! A safety layer binding a host process to an embedded register-based
//! virtual machine, modelled as explicit verified state.
//!
//! The layer manages interpreter instances, long-lived value references
//! pinned in auxiliary reference threads, stack discipline across fallible
//! operations, error and panic propagation over the host boundary, and the
//! coroutine resume state machine.

mod api;
mod calls;
mod capsule;
mod chunk;
mod dump;
mod error;
mod exec;
mod function;
mod guard;
mod laws;
mod lute;
mod render;
mod refpool;
mod state;
mod stdlib;
mod thread;
mod types;
mod userdata;
mod util;
mod value;

pub use userdata::AnyUserData;
pub use value::CallOutcome;
pub use thread::ContinuationStatus;
pub use types::CoverageInfo;
pub use error::Error;
pub use error::ErrorKind;
pub use value::FuncDef;
pub use function::Function;
pub use types::FunctionInfo;
pub use value::Instr;
pub use state::Lua;
pub use value::LuaObj;
pub use state::LuaOptions;
pub use state::LuaStr;
pub use lute::Lute;
pub use lute::LuteChildVmType;
pub use lute::LuteRuntimeHandle;
pub use lute::LuteSchedulerRunOnceResult;
pub use lute::LuteStdLib;
pub use types::MaybeSend;
pub use error::PanicPayload;
pub use capsule::PreallocatedFailure;
pub use userdata::RegisteredType;
pub use guard::StackGuard;
pub use stdlib::StdLib;
pub use lute::Table;
pub use thread::Thread;
pub use thread::ThreadStatus;
pub use util::TrampolineResult;
pub use userdata::UserDataRegistry;
pub use value::Value;
pub use state::ValueRef;
pub use types::VmState;
pub use value::WrappedFailure;
