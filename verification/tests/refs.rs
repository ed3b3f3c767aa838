//! Tests of the reference thread pool, value references and the stack
//! guard.

use mluau::Lua;
use mluau::LuaOptions;
use mluau::StackGuard;
use mluau::Value;

fn small_pool() -> Lua {
    Lua::new_with_options(LuaOptions {
        disable_error_userdata: false,
        ref_thread_max_slots: 4,
    })
}

#[test]
fn ref_slot_ceiling_holds_under_churn() {
    // Exhaust a 4-slot reference thread's free list by creating and
    // dropping 100 references one at a time: never more than the
    // configured ceiling is live at once, and no slot is reused while
    // still referenced.
    let mut lua = small_pool();
    let mut n = 0;
    while n < 100 {
        let h = lua.create_string(format!("v{}", n)).unwrap();
        // The ceiling bounds the slots the pool thread ever holds.
        assert!(lua.ref_threads[0].slots.len() <= 4);
        assert_eq!(lua.ref_threads.len(), 1);
        lua.release_ref(h.0);
        n += 1;
    }
}

#[test]
fn held_slot_is_never_handed_out_again() {
    let mut lua = small_pool();
    let held = lua.create_string("held".to_string()).unwrap();
    let mut n = 0;
    while n < 50 {
        let h = lua.create_string("churn".to_string()).unwrap();
        assert!(
            !(h.0.aux_thread == held.0.aux_thread && h.0.index == held.0.index),
            "a live slot was handed out again"
        );
        lua.release_ref(h.0);
        n += 1;
    }
    // The held reference still pins its value.
    let p = lua.ref_to_pointer(&held.0);
    assert!(p.is_some());
}

#[test]
fn pool_grows_by_appending_threads_at_the_ceiling() {
    let mut lua = small_pool();
    let mut held = Vec::new();
    let mut n = 0;
    while n < 5 {
        held.push(lua.create_string(format!("k{}", n)).unwrap());
        n += 1;
    }
    // Four slots fill the first reference thread; the fifth forces a
    // fresh thread into the pool.
    assert!(lua.ref_threads.len() == 2);
    assert!(lua.ref_threads[0].slots.len() <= 4);
    for h in held {
        lua.release_ref(h.0);
    }
}

#[test]
fn released_slot_holds_only_the_placeholder() {
    // Releasing a reference nils its slot and frees it: the previous
    // occupant is no longer reachable through the pool.
    let mut lua = Lua::new();
    let h = lua.create_string("gone".to_string()).unwrap();
    let (t, i) = (h.0.aux_thread, h.0.index);
    lua.release_ref(h.0);
    assert!(matches!(lua.ref_threads[t].slots[i], Value::Nil));
    // Reacquiring reuses the freed slot (most recently freed first) and
    // finds no stale occupant.
    let h2 = lua.create_string("fresh".to_string()).unwrap();
    assert_eq!(h2.0.aux_thread, t);
    assert_eq!(h2.0.index, i);
    lua.release_ref(h2.0);
}

#[test]
fn copies_share_identity_and_equality_is_by_value_on_strings() {
    let mut lua = Lua::new();
    let a = lua.create_string("same".to_string()).unwrap();
    let b = a.0.copy();
    assert_eq!(b.aux_thread, a.0.aux_thread);
    assert_eq!(b.index, a.0.index);
    assert!(!b.owned);
    assert!(lua.refs_equal(&a.0, &b));

    // Two strings with the same text compare equal (the interpreter
    // interns strings); different text does not.
    let c = lua.create_string("same".to_string()).unwrap();
    let d = lua.create_string("different".to_string()).unwrap();
    assert!(lua.refs_equal(&a.0, &c.0));
    assert!(!lua.refs_equal(&a.0, &d.0));

    // Identity pointers exist for complex values only.
    assert!(lua.ref_to_pointer(&a.0).is_some());
    lua.release_ref(a.0);
    lua.release_ref(c.0);
    lua.release_ref(d.0);
}

#[test]
fn table_identity_is_by_object() {
    let mut lua = Lua::new();
    let t1 = lua.create_table_with_capacity(0, 0).unwrap();
    let t2 = lua.create_table_with_capacity(0, 0).unwrap();
    assert!(!lua.refs_equal(&t1.0, &t2.0));
    let t1b = t1.0.copy();
    assert!(lua.refs_equal(&t1.0, &t1b));
    assert_ne!(lua.ref_to_pointer(&t1.0), lua.ref_to_pointer(&t2.0));
}

#[test]
fn stack_guard_restores_depth_on_every_path() {
    // Whatever a scope pushes, closing the guard restores the recorded
    // depth, except for slots explicitly kept.
    let mut lua = Lua::new();
    let cur = lua.current;
    lua.threads[cur].stack.push(Value::Integer(1));
    let depth = lua.threads[cur].stack.len();

    let g = StackGuard::new(&lua);
    lua.threads[cur].stack.push(Value::Integer(2));
    lua.threads[cur].stack.push(Value::Integer(3));
    lua.threads[cur].stack.push(Value::Boolean(true));
    g.restore(&mut lua);
    assert_eq!(lua.threads[cur].stack.len(), depth);
    assert_eq!(lua.threads[cur].stack[depth - 1], Value::Integer(1));

    // Kept slots survive the scope.
    let mut g2 = StackGuard::new(&lua);
    lua.threads[cur].stack.push(Value::Integer(9));
    lua.threads[cur].stack.push(Value::Integer(10));
    g2.keep(1);
    g2.restore(&mut lua);
    assert_eq!(lua.threads[cur].stack.len(), depth + 1);
    assert_eq!(lua.threads[cur].stack[depth], Value::Integer(9));

    // A guard over a shallower mark pads with the nil placeholder, as
    // the interpreter's set-top does.
    let g3 = StackGuard::with_top(&lua, cur, depth + 3);
    g3.restore(&mut lua);
    assert_eq!(lua.threads[cur].stack.len(), depth + 3);
    assert_eq!(lua.threads[cur].stack[depth + 2], Value::Nil);
}

#[test]
fn create_sequence_builds_one_based_pairs() {
    let mut lua = Lua::new();
    let t = lua
        .create_sequence_from(vec![Value::Integer(5), Value::Boolean(false)])
        .unwrap();
    let id = lua.ref_to_pointer(&t.0).unwrap();
    match &lua.objects[id] {
        mluau::LuaObj::Table(pairs) => {
            assert_eq!(pairs.len(), 2);
            assert_eq!(pairs[0], (Value::Integer(1), Value::Integer(5)));
            assert_eq!(pairs[1], (Value::Integer(2), Value::Boolean(false)));
        }
        _ => panic!("not a table"),
    }
}

#[test]
fn close_cancels_pending_registry_unreference_operations() {
    let mut lua = Lua::new();
    assert!(lua.registry_unref_list.is_some());
    lua.close();
    assert!(lua.registry_unref_list.is_none());
    assert!(lua.lute.is_none());
}

#[test]
fn nested_guards_compose_by_lifo_restoration() {
    let mut lua = Lua::new();
    let cur = lua.current;
    let depth = lua.threads[cur].stack.len();
    let outer = StackGuard::new(&lua);
    lua.threads[cur].stack.push(Value::Integer(1));
    let inner = StackGuard::new(&lua);
    lua.threads[cur].stack.push(Value::Integer(2));
    lua.threads[cur].stack.push(Value::Integer(3));
    inner.restore(&mut lua);
    assert_eq!(lua.threads[cur].stack.len(), depth + 1);
    outer.restore(&mut lua);
    assert_eq!(lua.threads[cur].stack.len(), depth);
}
