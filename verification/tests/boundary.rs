//! Tests of the protected-call wrapper, the callback error boundary and
//! the failure capsule pool.

use mluau::CallOutcome;
use mluau::Error;
use mluau::ErrorKind;
use mluau::Instr;
use mluau::Lua;
use mluau::LuaOptions;
use mluau::PanicPayload;
use mluau::Value;

#[test]
fn load_and_call_return_sum() {
    // Create an interpreter, load `return 1+1`, protected-call it, and
    // expect the result 2 with the stack depth restored.
    let mut lua = Lua::new();
    let depth_before = lua.threads[lua.current].stack.len();
    let f = lua.load_chunk(b"return 1+1").unwrap();
    match f.call(&mut lua, Vec::new()) {
        CallOutcome::Values(vs) => {
            assert_eq!(vs.len(), 1);
            assert_eq!(vs[0], Value::Integer(2));
        }
        _ => panic!("call did not return values"),
    }
    let depth_after = lua.threads[lua.current].stack.len();
    assert_eq!(depth_before, depth_after);
}

#[test]
fn loader_accepts_sums_and_empty_return() {
    let mut lua = Lua::new();
    let f = lua.load_chunk(b"  return 10 + 20+ 12 ").unwrap();
    match f.call(&mut lua, Vec::new()) {
        CallOutcome::Values(vs) => assert_eq!(vs, vec![Value::Integer(42)]),
        _ => panic!("call did not return values"),
    }
    let g = lua.load_chunk(b"return").unwrap();
    match g.call(&mut lua, Vec::new()) {
        CallOutcome::Values(vs) => assert_eq!(vs.len(), 0),
        _ => panic!("call did not return values"),
    }
}

#[test]
fn loader_rejects_bad_sources() {
    let mut lua = Lua::new();
    assert_eq!(lua.load_chunk(b"returns 1").unwrap_err().kind(), ErrorKind::Syntax);
    assert_eq!(lua.load_chunk(b"return x").unwrap_err().kind(), ErrorKind::Syntax);
    assert_eq!(lua.load_chunk(b"return 1 +").unwrap_err().kind(), ErrorKind::Syntax);
    assert_eq!(lua.load_chunk(b"1 + 1").unwrap_err().kind(), ErrorKind::Syntax);
    assert_eq!(lua.load_chunk(b"").unwrap_err().kind(), ErrorKind::Syntax);
    // A literal beyond the integer range is malformed.
    assert_eq!(
        lua.load_chunk(b"return 9223372036854775808").unwrap_err().kind(),
        ErrorKind::Syntax
    );
    // The largest representable literal is accepted.
    let f = lua.load_chunk(b"return 9223372036854775807").unwrap();
    match f.call(&mut lua, Vec::new()) {
        CallOutcome::Values(vs) => assert_eq!(vs, vec![Value::Integer(i64::MAX)]),
        _ => panic!("call did not return values"),
    }
}

#[test]
fn callback_panic_caught_by_pcall_then_resumed_on_direct_call() {
    // A host callback that panics with payload `boom`: invoked under the
    // interpreter's own protected call, the caught error's text contains
    // `boom`; called directly from host code, the panic propagates as a
    // host panic with the identical payload.
    let mut lua = Lua::new();
    let cb = lua
        .create_callback(vec![Instr::Panic("boom".to_string())])
        .unwrap();
    let caught = lua.pcall(&cb, Vec::new()).unwrap_err();
    let text = lua.tostring_value(&caught);
    assert!(text.contains("boom"));

    let cb2 = lua
        .create_callback(vec![Instr::Panic("boom".to_string())])
        .unwrap();
    match cb2.call(&mut lua, Vec::new()) {
        CallOutcome::HostPanic(p) => {
            assert!(p.payload_eq(&PanicPayload::Text("boom".to_string())));
        }
        _ => panic!("direct call did not propagate the panic"),
    }
}

#[test]
fn panic_payload_round_trip_is_identical_and_single_use() {
    let mut lua = Lua::new();
    let cb = lua
        .create_callback(vec![Instr::Panic("boom".to_string())])
        .unwrap();
    let caught = lua.pcall(&cb, Vec::new()).unwrap_err();
    // Retrieving the caught value back into host code resumes the panic
    // with the identical payload.
    match lua.convert_caught(caught) {
        CallOutcome::HostPanic(p) => {
            assert!(p.payload_eq(&PanicPayload::Text("boom".to_string())));
        }
        _ => panic!("retrieval did not resume the panic"),
    }
    // The payload was taken out exactly once: seeing the capsule again
    // reads as nil, never as a second panic.
    match lua.convert_caught(caught) {
        CallOutcome::Values(vs) => assert_eq!(vs, vec![Value::Nil]),
        _ => panic!("a resumed panic must not resume twice"),
    }
}

#[test]
fn callback_error_is_wrapped_with_traceback() {
    let mut lua = Lua::new();
    let cb = lua
        .create_callback(vec![Instr::Raise("kaput".to_string())])
        .unwrap();
    match cb.call(&mut lua, Vec::new()) {
        CallOutcome::Failure(e) => {
            assert_eq!(e.kind(), ErrorKind::Callback);
            let text = e.message();
            assert!(text.contains("stack traceback:"));
            assert!(text.contains("kaput"));
        }
        _ => panic!("call did not fail"),
    }
}

#[test]
fn callback_success_returns_values_and_restores_capsule() {
    let mut lua = Lua::new();
    let cb = lua
        .create_callback(vec![Instr::PushInt(7), Instr::PushInt(8)])
        .unwrap();
    match cb.call(&mut lua, Vec::new()) {
        CallOutcome::Values(vs) => {
            assert_eq!(vs, vec![Value::Integer(7), Value::Integer(8)]);
        }
        _ => panic!("call did not return values"),
    }
}

#[test]
fn capsule_pool_conservation_across_boundary_trips() {
    // Every reserved capsule is either released (unused) or activated
    // and consumed, never both; the pool counters show it.
    let mut lua = Lua::new();
    assert_eq!(lua.failure_top, 0);
    assert_eq!(lua.failure_pool.len(), 0);

    // Success path on first use: a fresh capsule is reserved, never
    // written, and pooled on release.
    let ok_cb = lua.create_callback(vec![Instr::PushInt(1)]).unwrap();
    ok_cb.call(&mut lua, Vec::new());
    assert_eq!(lua.failure_top, 1);
    assert_eq!(lua.failure_pool.len(), 1);

    // Failure path: the pooled reservation is activated and consumed.
    let bad_cb = lua
        .create_callback(vec![Instr::Raise("nope".to_string())])
        .unwrap();
    bad_cb.call(&mut lua, Vec::new());
    assert_eq!(lua.failure_top, 0);
    assert_eq!(lua.failure_pool.len(), 0);

    // Success again re-pools one capsule.
    ok_cb.call(&mut lua, Vec::new());
    assert_eq!(lua.failure_top, 1);
    assert_eq!(lua.failure_pool.len(), 1);

    // Success with a pooled capsule returns it unused: counters hold.
    ok_cb.call(&mut lua, Vec::new());
    assert_eq!(lua.failure_top, 1);
    assert_eq!(lua.failure_pool.len(), 1);
}

#[test]
fn disable_error_userdata_flattens_errors_to_strings() {
    let mut lua = Lua::new_with_options(LuaOptions {
        disable_error_userdata: true,
        ref_thread_max_slots: 7999,
    });
    let cb = lua
        .create_callback(vec![Instr::Raise("flat message".to_string())])
        .unwrap();
    let caught = lua.pcall(&cb, Vec::new()).unwrap_err();
    // The caught value is a plain string carrying the message, not an
    // opaque error object.
    match lua.convert_caught(caught) {
        CallOutcome::Failure(e) => {
            assert_eq!(e.kind(), ErrorKind::Runtime);
            assert!(e.message().contains("flat message"));
        }
        _ => panic!("expected a string-valued error"),
    }
}

#[test]
fn memory_limit_refuses_allocation_with_memory_error() {
    let mut lua = Lua::new();
    assert!(lua.unlikely_memory_error());
    let prev = lua.set_memory_limit(1);
    assert_eq!(prev, 0);
    assert!(!lua.unlikely_memory_error());
    // One object fits under the limit; the next allocation is refused.
    lua.create_string("first".to_string()).unwrap();
    let e = lua.create_string("second".to_string()).unwrap_err();
    assert_eq!(e.kind(), ErrorKind::Memory);
    assert!(e.message().contains("memory allocation error"));
    // Lifting the limit lets allocation proceed again.
    lua.set_memory_limit(0);
    lua.create_string("third".to_string()).unwrap();
}

#[test]
fn tostring_renders_values() {
    let lua = Lua::new();
    assert_eq!(lua.tostring_value(&Value::Nil), "nil");
    assert_eq!(lua.tostring_value(&Value::Boolean(true)), "true");
    assert_eq!(lua.tostring_value(&Value::Boolean(false)), "false");
    assert_eq!(lua.tostring_value(&Value::Integer(42)), "42");
    assert_eq!(lua.tostring_value(&Value::Integer(0)), "0");
    assert_eq!(lua.tostring_value(&Value::Integer(-7)), "-7");
    assert_eq!(lua.tostring_value(&Value::Integer(i64::MIN)), "-9223372036854775808");
}

#[test]
fn error_kinds_and_messages() {
    let e = Error::CoroutineInactive;
    assert_eq!(e.kind(), ErrorKind::CoroutineUnresumable);
    assert_eq!(e.message(), "coroutine is non-resumable");
    let d = Error::CallbackDestructed;
    assert_eq!(d.kind(), ErrorKind::CallbackDestructed);
    assert_eq!(d.message(), "callback has been destructed");
    let c = Error::CallbackError {
        traceback: "tb ".to_string(),
        cause: Box::new(Error::RuntimeError("root".to_string())),
    };
    assert_eq!(c.kind(), ErrorKind::Callback);
    assert_eq!(c.message(), "tb root");
}

#[test]
fn dumped_chunk_loads_back_identically() {
    // The compiled-chunk binary representation round-trips: dumping a
    // loaded chunk and loading the buffer back gives a function with
    // the same behaviour.
    let mut lua = Lua::new();
    let f = lua.load_chunk(b"return 19 + 23").unwrap();
    let buffer = f.dump(&lua).unwrap();
    let g = lua.load_chunk_binary(&buffer).unwrap();
    match g.call(&mut lua, Vec::new()) {
        CallOutcome::Values(vs) => assert_eq!(vs, vec![Value::Integer(42)]),
        _ => panic!("reloaded chunk did not run"),
    }
    // The buffer encodes two pushes and one addition: nineteen bytes.
    assert_eq!(buffer.len(), 19);
    // A host callback cannot be dumped.
    let cb = lua.create_callback(vec![Instr::PushInt(1)]).unwrap();
    assert_eq!(cb.dump(&lua).unwrap_err().kind(), ErrorKind::Runtime);
    // A malformed buffer is rejected.
    assert_eq!(
        lua.load_chunk_binary(&[9, 9, 9]).unwrap_err().kind(),
        ErrorKind::Syntax
    );
    assert_eq!(lua.load_chunk_binary(&[1, 2]).unwrap_err().kind(), ErrorKind::Syntax);
}

#[test]
fn bound_values_stage_above_call_arguments() {
    let mut lua = Lua::new();
    let f = lua
        .create_callback(vec![Instr::AccumArgs, Instr::PushAcc])
        .unwrap();
    let g = f
        .bind(&mut lua, vec![Value::Integer(100), Value::Integer(20)])
        .unwrap();
    match g.call(&mut lua, vec![Value::Integer(3)]) {
        CallOutcome::Values(vs) => assert_eq!(vs, vec![Value::Integer(123)]),
        _ => panic!("bound call did not run"),
    }
    // Function information tells host callbacks and chunks apart.
    let info = g.info(&lua);
    assert_eq!(info.what, "C");
    let chunk = lua.load_chunk(b"return 1").unwrap();
    assert_eq!(chunk.info(&lua).what, "Lua");
}
