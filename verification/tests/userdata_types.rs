//! Tests of userdata type registration, type checking, and name-call
//! dispatch.

use mluau::ErrorKind;
use mluau::Instr;
use mluau::Lua;
use mluau::TrampolineResult;
use mluau::UserDataRegistry;
use mluau::Value;

#[test]
fn registered_userdata_round_trips_its_type_token() {
    let mut lua = Lua::new();
    let reg = UserDataRegistry::new("Widget".to_string(), 77);
    lua.register_userdata_metatable(reg).unwrap();
    let ud = lua.make_userdata(77).unwrap();
    assert_eq!(lua.get_userdata_type_tag(&ud.0).unwrap(), 77);
}

#[test]
fn unregistered_type_is_a_mismatch_and_non_userdata_too() {
    let mut lua = Lua::new();
    let e = lua.make_userdata(99).unwrap_err();
    assert_eq!(e.kind(), ErrorKind::UserDataTypeMismatch);
    // A non-userdata value read as userdata is a structured mismatch,
    // never a silent coercion.
    let s = lua.create_string("not userdata".to_string()).unwrap();
    let e2 = lua.get_userdata_type_tag(&s.0).unwrap_err();
    assert_eq!(e2.kind(), ErrorKind::UserDataTypeMismatch);
}

#[test]
fn destructed_userdata_is_reported_not_reused() {
    let mut lua = Lua::new();
    let reg = UserDataRegistry::new("Widget".to_string(), 5);
    lua.register_userdata_metatable(reg).unwrap();
    let ud = lua.make_userdata(5).unwrap();
    assert_eq!(lua.take_userdata(&ud.0).unwrap(), 5);
    // The destructor ran once; further use is reported.
    assert_eq!(
        lua.take_userdata(&ud.0).unwrap_err().kind(),
        ErrorKind::UserDataDestructed
    );
    assert_eq!(
        lua.get_userdata_type_tag(&ud.0).unwrap_err().kind(),
        ErrorKind::UserDataDestructed
    );
}

#[test]
fn namecall_dispatches_named_then_dynamic_then_fails() {
    let mut lua = Lua::new();
    let mut reg = UserDataRegistry::new("Counter".to_string(), 1);
    reg.add_method("get".to_string(), vec![Instr::PushInt(41)]);
    reg.set_dynamic_method(vec![Instr::PushInt(7)]);
    lua.register_userdata_metatable(reg).unwrap();
    let ud = lua.make_userdata(1).unwrap();

    // A named method wins.
    match lua.namecall_dispatch(&ud, "get", Vec::new()).unwrap() {
        TrampolineResult::Ret(vs) => assert_eq!(vs, vec![Value::Integer(41)]),
        _ => panic!("named method did not run"),
    }
    // An unknown name falls back to the dynamic method.
    match lua.namecall_dispatch(&ud, "anything", Vec::new()).unwrap() {
        TrampolineResult::Ret(vs) => assert_eq!(vs, vec![Value::Integer(7)]),
        _ => panic!("dynamic method did not run"),
    }
}

#[test]
fn namecall_without_handler_raises_not_found() {
    let mut lua = Lua::new();
    let mut reg = UserDataRegistry::new("Bare".to_string(), 2);
    reg.add_method("only".to_string(), vec![Instr::PushInt(1)]);
    lua.register_userdata_metatable(reg).unwrap();
    let ud = lua.make_userdata(2).unwrap();
    match lua.namecall_dispatch(&ud, "missing", Vec::new()).unwrap() {
        TrampolineResult::Raised(v) => {
            let text = lua.tostring_value(&v);
            assert!(text.contains("method not found: missing"));
        }
        _ => panic!("missing method did not raise"),
    }
}

#[test]
fn namecall_respects_disable_flag() {
    let mut lua = Lua::new();
    let mut reg = UserDataRegistry::new("Plain".to_string(), 3);
    reg.add_method("m".to_string(), vec![Instr::PushInt(1)]);
    reg.disable_namecall_optimization();
    lua.register_userdata_metatable(reg).unwrap();
    let ud = lua.make_userdata(3).unwrap();
    let e = lua.namecall_dispatch(&ud, "m", Vec::new()).unwrap_err();
    assert_eq!(e.kind(), ErrorKind::Runtime);
}

#[test]
fn registry_lists_fields_and_methods_and_first_registration_wins() {
    let mut lua = Lua::new();
    let mut reg = UserDataRegistry::new("Thing".to_string(), 4);
    reg.add_field("kind".to_string(), Value::Integer(9));
    reg.add_method("poke".to_string(), vec![Instr::PushInt(0)]);
    let names = reg.fields(true);
    assert_eq!(names, vec!["kind".to_string(), "poke".to_string()]);
    lua.register_userdata_metatable(reg).unwrap();

    // Registering the same token again keeps the cached registration.
    let count = lua.registered_userdata.len();
    let reg2 = UserDataRegistry::new("Other".to_string(), 4);
    lua.register_userdata_metatable(reg2).unwrap();
    assert_eq!(lua.registered_userdata.len(), count);
}
