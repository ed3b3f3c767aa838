//! Tests of the thread (coroutine) resume state machine.

use mluau::CallOutcome;
use mluau::ContinuationStatus;
use mluau::ErrorKind;
use mluau::Instr;
use mluau::Lua;
use mluau::Thread;
use mluau::ThreadStatus;
use mluau::Value;

fn yielding_body() -> Vec<Instr> {
    // Yields the running sum after each of the first four resumes, then
    // returns it: with the argument sequence 0,1,2,3,4 the observed
    // values are the cumulative sums 0,1,3,6,10 and the fifth resume
    // finishes the thread.
    vec![
        Instr::AccumArgs,
        Instr::PushAcc,
        Instr::Yield,
        Instr::AccumArgs,
        Instr::PushAcc,
        Instr::Yield,
        Instr::AccumArgs,
        Instr::PushAcc,
        Instr::Yield,
        Instr::AccumArgs,
        Instr::PushAcc,
        Instr::Yield,
        Instr::AccumArgs,
        Instr::PushAcc,
    ]
}

fn expect_values(r: CallOutcome) -> Vec<Value> {
    match r {
        CallOutcome::Values(vs) => vs,
        _ => panic!("resume did not hand back values"),
    }
}

#[test]
fn thread_yields_cumulative_sums_then_finishes() {
    // Create a thread from a repeatedly yielding function; resume it
    // with 0,1,2,3,4 and observe the cumulative sums 0,1,3,6,10 and a
    // final Finished status after the fifth resume.
    let mut lua = Lua::new();
    let f = lua.create_callback(yielding_body()).unwrap();
    let th = lua.create_thread(&f).unwrap();
    assert_eq!(th.status(&lua), ThreadStatus::Resumable);

    let expected: [i64; 5] = [0, 1, 3, 6, 10];
    let mut k = 0;
    while k < 5 {
        let vs = expect_values(th.resume(&mut lua, vec![Value::Integer(k as i64)]));
        assert_eq!(vs, vec![Value::Integer(expected[k])]);
        if k < 4 {
            assert_eq!(th.status(&lua), ThreadStatus::Resumable);
        }
        k += 1;
    }
    assert_eq!(th.status(&lua), ThreadStatus::Finished);
}

#[test]
fn resuming_finished_or_running_thread_is_unresumable() {
    let mut lua = Lua::new();
    let f = lua.create_callback(vec![Instr::PushInt(1)]).unwrap();
    let th = lua.create_thread(&f).unwrap();
    expect_values(th.resume(&mut lua, Vec::new()));
    assert_eq!(th.status(&lua), ThreadStatus::Finished);

    // A finished thread refuses to resume, without running any code.
    match th.resume(&mut lua, Vec::new()) {
        CallOutcome::Failure(e) => assert_eq!(e.kind(), ErrorKind::CoroutineUnresumable),
        _ => panic!("resuming a dead coroutine did not fail"),
    }

    // The currently running thread refuses as well.
    let running = Thread(th.0.copy(), lua.current);
    assert_eq!(running.status(&lua), ThreadStatus::Running);
    match running.resume(&mut lua, Vec::new()) {
        CallOutcome::Failure(e) => assert_eq!(e.kind(), ErrorKind::CoroutineUnresumable),
        _ => panic!("resuming the running thread did not fail"),
    }
}

#[test]
fn staged_and_new_arguments_are_all_visible_to_the_body() {
    // A thread with n staged arguments resumed with k more observes
    // exactly n + k values.
    let mut lua = Lua::new();
    let f = lua
        .create_callback(vec![Instr::AccumArgs, Instr::PushAcc])
        .unwrap();
    let th = lua.create_thread(&f).unwrap();
    // Stage two arguments on the thread's own stack.
    lua.threads[th.1].stack.push(Value::Integer(5));
    lua.threads[th.1].stack.push(Value::Integer(6));
    // Resume with one more: the body folds all three.
    let vs = expect_values(th.resume(&mut lua, vec![Value::Integer(7)]));
    assert_eq!(vs, vec![Value::Integer(18)]);
}

#[test]
fn thread_error_propagates_with_resuming_traceback() {
    let mut lua = Lua::new();
    let f = lua
        .create_callback(vec![Instr::Raise("myerror".to_string())])
        .unwrap();
    let th = lua.create_thread(&f).unwrap();
    match th.resume(&mut lua, vec![Value::Integer(123)]) {
        CallOutcome::Failure(e) => {
            assert_eq!(e.kind(), ErrorKind::Callback);
            assert!(e.message().contains("myerror"));
        }
        _ => panic!("resume did not fail"),
    }
    assert_eq!(th.status(&lua), ThreadStatus::Error);
}

#[test]
fn thread_panic_propagates_as_host_panic() {
    let mut lua = Lua::new();
    let f = lua
        .create_callback(vec![Instr::Panic("test_panic".to_string())])
        .unwrap();
    let th = lua.create_thread(&f).unwrap();
    match th.resume(&mut lua, Vec::new()) {
        CallOutcome::HostPanic(p) => {
            assert!(p.payload_eq(&mluau::PanicPayload::Text("test_panic".to_string())));
        }
        _ => panic!("coroutine panic was not propagated"),
    }
    assert_eq!(th.status(&lua), ThreadStatus::Error);
}

#[test]
fn resume_error_fails_the_thread_immediately() {
    let mut lua = Lua::new();
    let f = lua.create_callback(vec![Instr::PushInt(1)]).unwrap();
    let th = lua.create_thread(&f).unwrap();
    match th.resume_error(&mut lua, "myerror".to_string()) {
        CallOutcome::Failure(e) => {
            assert_eq!(e.kind(), ErrorKind::Callback);
            assert!(e.message().contains("myerror"));
        }
        _ => panic!("resume_error did not fail"),
    }
    assert_eq!(th.status(&lua), ThreadStatus::Error);
    // It is then no longer resumable.
    match th.resume_error(&mut lua, "again".to_string()) {
        CallOutcome::Failure(e) => assert_eq!(e.kind(), ErrorKind::CoroutineUnresumable),
        _ => panic!("resuming a failed thread did not fail"),
    }
}

#[test]
fn reset_installs_a_new_body_from_any_non_running_state() {
    let mut lua = Lua::new();
    let once = lua.create_callback(vec![Instr::PushInt(1)]).unwrap();
    let th = lua.create_thread(&once).unwrap();
    expect_values(th.resume(&mut lua, Vec::new()));
    assert_eq!(th.status(&lua), ThreadStatus::Finished);

    // Reset a finished thread with a new body and run it.
    let again = lua.load_chunk(b"return 0").unwrap();
    th.reset(&mut lua, &again).unwrap();
    assert_eq!(th.status(&lua), ThreadStatus::Resumable);
    let vs = expect_values(th.resume(&mut lua, Vec::new()));
    assert_eq!(vs, vec![Value::Integer(0)]);

    // An errored thread resets too (this dialect resets any
    // non-running state).
    let bad = lua
        .create_callback(vec![Instr::Raise("test error".to_string())])
        .unwrap();
    th.reset(&mut lua, &bad).unwrap();
    th.resume(&mut lua, Vec::new());
    assert_eq!(th.status(&lua), ThreadStatus::Error);
    th.reset(&mut lua, &again).unwrap();
    assert_eq!(th.status(&lua), ThreadStatus::Resumable);

    // Resetting the running thread is always rejected.
    let running = Thread(th.0.copy(), lua.current);
    let e = running.reset(&mut lua, &again).unwrap_err();
    assert_eq!(e.kind(), ErrorKind::Runtime);
    assert!(e.message().contains("cannot reset a running thread"));
}

#[test]
fn yield_outside_a_coroutine_is_an_error() {
    let mut lua = Lua::new();
    let f = lua.create_callback(vec![Instr::Yield]).unwrap();
    match f.call(&mut lua, Vec::new()) {
        CallOutcome::Failure(e) => {
            assert!(e.message().contains("attempt to yield from outside a coroutine"));
        }
        _ => panic!("yield outside a coroutine did not fail"),
    }
}

#[test]
fn continuation_status_maps_resume_codes() {
    assert_eq!(ContinuationStatus::from_status(0), ContinuationStatus::Normal);
    assert_eq!(ContinuationStatus::from_status(1), ContinuationStatus::Yielded);
    assert_eq!(ContinuationStatus::from_status(2), ContinuationStatus::Error);
    assert_eq!(ContinuationStatus::from_status(-1), ContinuationStatus::Error);
}

#[test]
fn function_deep_clone_duplicates_the_body() {
    let mut lua = Lua::new();
    let f = lua.load_chunk(b"return 2 + 3").unwrap();
    let g = f.deep_clone(&mut lua).unwrap();
    assert_ne!(f.to_pointer(&lua), g.to_pointer(&lua));
    let vs = match g.call(&mut lua, Vec::new()) {
        CallOutcome::Values(vs) => vs,
        _ => panic!("clone did not run"),
    };
    assert_eq!(vs, vec![Value::Integer(5)]);
}
