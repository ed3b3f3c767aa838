//! Tests of the extended-runtime surface and of base library loading.

use mluau::ErrorKind;
use mluau::Instr;
use mluau::Lua;
use mluau::LuteStdLib;
use mluau::StdLib;

#[test]
fn lute_setup_and_lifecycle() {
    let mut lua = Lua::new();
    assert!(!lua.is_lute_loaded());
    let lute = lua.lute().unwrap();
    assert!(lua.is_lute_loaded());
    assert!(lute.is_loaded(&lua).unwrap());

    // A fresh runtime has no work.
    assert!(!lute.has_work(&lua).unwrap());
    assert!(!lute.has_threads(&lua).unwrap());
    assert!(!lute.has_continuations(&lua).unwrap());

    // Destroying unloads it; setting it up again restores it.
    assert!(lute.destroy_runtime(&mut lua).unwrap());
    assert!(!lua.is_lute_loaded());
    let lute2 = lua.lute().unwrap();
    assert!(lute2.is_loaded(&lua).unwrap());
    assert!(!lute2.destroy_runtime(&mut lua).is_err());
}

#[test]
fn lute_operations_require_a_loaded_runtime() {
    let mut lua = Lua::new();
    let lute = lua.lute().unwrap();
    lute.destroy_runtime(&mut lua).unwrap();
    let lute = mluau::Lute;
    assert_eq!(lute.has_work(&lua).unwrap_err().kind(), ErrorKind::Runtime);
    assert_eq!(lute.fs(&lua).unwrap_err().kind(), ErrorKind::Runtime);
    assert_eq!(
        lute.load_stdlib(&mut lua, LuteStdLib::fs()).unwrap_err().kind(),
        ErrorKind::Runtime
    );
    assert_eq!(
        lute
            .set_runtime_initter(&mut lua, vec![Instr::Return])
            .unwrap_err()
            .kind(),
        ErrorKind::Runtime
    );
}

#[test]
fn lute_stdlib_flags_and_loading() {
    let fs = LuteStdLib::fs();
    let time = LuteStdLib::time();
    let both = fs.union(time);
    assert!(both.contains(fs));
    assert!(both.contains(time));
    assert!(!both.contains(LuteStdLib::vm()));
    assert!(!LuteStdLib::none().contains(fs));
    assert!(LuteStdLib::all().contains(fs));

    let mut lua = Lua::new();
    let lute = lua.lute().unwrap();
    lute.load_stdlib(&mut lua, both).unwrap();
    assert!(lute.fs(&lua).unwrap().is_some());
    assert!(lute.time(&lua).unwrap().is_some());
    assert!(lute.luau(&lua).unwrap().is_none());
    assert!(lute.vm(&lua).unwrap().is_none());
    assert!(lute.process(&lua).unwrap().is_none());
    assert!(lute.task(&lua).unwrap().is_none());
    assert!(lute.system(&lua).unwrap().is_none());

    // The handle copy reflects the loaded set at the time it is taken.
    let handle = lute.handle(&lua).unwrap().unwrap();
    assert!(handle.fs.is_some());
    assert!(handle.luau.is_none());
    assert!(lute.scheduler_run_once_lua(&lua).is_ok());
}

#[test]
fn lute_scheduler_tick_is_empty_without_work() {
    let mut lua = Lua::new();
    let lute = lua.lute().unwrap();
    let tick = lute.run_scheduler_once(&mut lua).unwrap();
    assert!(tick.is_empty());
    assert!(!tick.is_success());
    let e = tick.results(&mut lua).unwrap_err();
    assert!(e.message().contains("run_once was not successful"));
}

#[test]
fn lute_runtime_initter_is_recorded() {
    let mut lua = Lua::new();
    let lute = lua.lute().unwrap();
    lute.set_runtime_initter(&mut lua, vec![Instr::PushInt(1), Instr::Return])
        .unwrap();
    match &lua.lute {
        Some(ls) => assert!(ls.initter.is_some()),
        None => panic!("runtime lost"),
    }
}

#[test]
fn base_stdlib_loading_and_safe_mode() {
    let mut lua = Lua::new();
    lua.load_std_libs(StdLib::table().union(StdLib::math())).unwrap();
    assert_eq!(lua.libs, StdLib::table().union(StdLib::math()).0);
    // Safe mode refuses the debug library.
    lua.mark_safe();
    let e = lua.load_std_libs(StdLib::debug()).unwrap_err();
    assert_eq!(e.kind(), ErrorKind::Safety);
    // Other libraries still load in safe mode.
    lua.load_std_libs(StdLib::coroutine()).unwrap();
    assert!(StdLib::all().contains(StdLib::debug()));
    assert!(!StdLib::none().contains(StdLib::debug()));
}
