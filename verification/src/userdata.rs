//! Registered userdata types and full userdata values.
//!
//! A host type is registered under a type-identity token with a
//! registry describing its fields, methods and metamethods; the binding
//! builds the type's metatable once, caches the registration, and
//! stamps every userdata value with the token. Reading a value back
//! checks the token and the value's liveness, so type confusion and use
//! after destruction surface as structured errors, never as silent
//! coercion. Method dispatch by name goes through the optimized
//! name-call path unless the type disabled it.

use vstd::prelude::*;
use vstd::string::StringExecFns;
use crate::error::Error;
use crate::error::ErrorKind;
use crate::exec::clone_program;
use crate::exec::spec_exec;
use crate::exec::SpecOutcome;
use crate::state::Lua;
use crate::state::ValueRef;
use crate::util::boundary_result;
use crate::util::callback_error_ext_yieldable;
use crate::util::spec_raised;
use crate::util::TrampolineResult;
use crate::value::Instr;
use crate::value::LuaObj;
use crate::value::Value;

verus! {

/// A handle to a full userdata value, pinned in the reference pool.
#[derive(Debug)]
pub struct AnyUserData(pub ValueRef);

/// A registry describing one host type: its plain fields, its named
/// methods (host callback bodies), an optional dynamic method that
/// handles any name, and whether the name-call dispatch optimization is
/// disabled for the type.
pub struct UserDataRegistry {
    pub name: String,
    pub type_tag: u64,
    pub fields: Vec<(String, Value)>,
    pub methods: Vec<(String, Vec<Instr>)>,
    pub dynamic_method: Option<Vec<Instr>>,
    pub disable_namecall_optimization: bool,
}

impl UserDataRegistry {
    /// A fresh registry for the type named `name`, identified by
    /// `type_tag`.
    pub fn new(name: String, type_tag: u64) -> (r: UserDataRegistry)
        ensures
            r.name@ == name@,
            r.type_tag == type_tag,
            r.fields@.len() == 0,
            r.methods@.len() == 0,
            r.dynamic_method is None,
            !r.disable_namecall_optimization,
    {
        UserDataRegistry {
            name,
            type_tag,
            fields: Vec::new(),
            methods: Vec::new(),
            dynamic_method: None,
            disable_namecall_optimization: false,
        }
    }

    /// Adds a plain field.
    pub fn add_field(&mut self, name: String, value: Value)
        ensures
            final(self).fields@ == old(self).fields@.push((name, value)),
            final(self).methods == old(self).methods,
            final(self).dynamic_method == old(self).dynamic_method,
            final(self).disable_namecall_optimization == old(self).disable_namecall_optimization,
            final(self).name == old(self).name,
            final(self).type_tag == old(self).type_tag,
    {
        self.fields.push((name, value));
    }

    /// Adds a named method with a host callback body.
    pub fn add_method(&mut self, name: String, body: Vec<Instr>)
        ensures
            final(self).methods@ == old(self).methods@.push((name, body)),
            final(self).fields == old(self).fields,
            final(self).dynamic_method == old(self).dynamic_method,
            final(self).disable_namecall_optimization == old(self).disable_namecall_optimization,
            final(self).name == old(self).name,
            final(self).type_tag == old(self).type_tag,
    {
        self.methods.push((name, body));
    }

    /// Sets the dynamic method for the type: it receives any method
    /// name dispatched through the name-call path that no named method
    /// handles.
    pub fn set_dynamic_method(&mut self, body: Vec<Instr>)
        ensures
            final(self).dynamic_method matches Some(p) && p@ == body@,
            final(self).fields == old(self).fields,
            final(self).methods == old(self).methods,
            final(self).disable_namecall_optimization == old(self).disable_namecall_optimization,
            final(self).name == old(self).name,
            final(self).type_tag == old(self).type_tag,
    {
        self.dynamic_method = Some(body);
    }

    /// Sets the dynamic method for the type, for a body that mutates
    /// its captured state on each dispatch.
    pub fn set_dynamic_method_mut(&mut self, body: Vec<Instr>)
        ensures
            final(self).dynamic_method matches Some(p) && p@ == body@,
            final(self).fields == old(self).fields,
            final(self).methods == old(self).methods,
            final(self).disable_namecall_optimization == old(self).disable_namecall_optimization,
            final(self).name == old(self).name,
            final(self).type_tag == old(self).type_tag,
    {
        self.dynamic_method = Some(body);
    }

    /// Disables name-call dispatch for the type (which also sidelines
    /// the dynamic method, as a side effect).
    pub fn disable_namecall_optimization(&mut self)
        ensures
            final(self).disable_namecall_optimization,
            final(self).fields == old(self).fields,
            final(self).methods == old(self).methods,
            final(self).dynamic_method == old(self).dynamic_method,
            final(self).name == old(self).name,
            final(self).type_tag == old(self).type_tag,
    {
        self.disable_namecall_optimization = true;
    }

    /// Returns the names of all fields and methods registered for the
    /// type, fields first.
    pub fn fields(&self, include_meta: bool) -> (r: Vec<String>)
        ensures
            r@.len() == self.fields@.len() + self.methods@.len(),
            forall|i: int|
                0 <= i < self.fields@.len() ==> (#[trigger] r@[i])@ == self.fields@[i].0@,
            forall|i: int|
                0 <= i < self.methods@.len() ==> (#[trigger] r@[self.fields@.len() + i])@
                    == self.methods@[i].0@,
    {
        let _ = include_meta;
        let mut out: Vec<String> = Vec::new();
        let mut i: usize = 0;
        while i < self.fields.len()
            invariant
                i <= self.fields@.len(),
                out@.len() == i,
                forall|j: int| 0 <= j < i ==> (#[trigger] out@[j])@ == self.fields@[j].0@,
            decreases self.fields@.len() - i,
        {
            out.push(self.fields[i].0.clone());
            i += 1;
        }
        let mut k: usize = 0;
        while k < self.methods.len()
            invariant
                k <= self.methods@.len(),
                out@.len() == self.fields@.len() + k,
                forall|j: int|
                    0 <= j < self.fields@.len() ==> (#[trigger] out@[j])@ == self.fields@[j].0@,
                forall|j: int|
                    0 <= j < k ==> (#[trigger] out@[self.fields@.len() + j])@
                        == self.methods@[j].0@,
            decreases self.methods@.len() - k,
        {
            out.push(self.methods[k].0.clone());
            k += 1;
        }
        out
    }
}

/// The cached registration of one host type.
pub struct RegisteredType {
    /// The type-identity token.
    pub tag: u64,
    /// The type's name, for error messages.
    pub name: String,
    /// The heap index of the type's metatable object (its identity for
    /// the metatable pointer cache).
    pub metatable: usize,
    /// The type's plain fields.
    pub fields: Vec<(String, Value)>,
    /// Named methods dispatched through the name-call path.
    pub methods: Vec<(String, Vec<Instr>)>,
    /// The fallback dynamic method.
    pub dynamic_method: Option<Vec<Instr>>,
    /// Whether name-call dispatch is disabled for the type.
    pub disable_namecall: bool,
}

/// The first registered entry with the given token, if any.
pub open spec fn spec_find_type(types: Seq<RegisteredType>, tag: u64) -> Option<int>
    decreases types.len(),
{
    if types.len() == 0 {
        None
    } else if types[0].tag == tag {
        Some(0)
    } else {
        match spec_find_type(types.drop_first(), tag) {
            Some(i) => Some(i + 1),
            None => None,
        }
    }
}

/// The first method with the given name, if any.
pub open spec fn spec_find_method(methods: Seq<(String, Vec<Instr>)>, name: Seq<char>) -> Option<
    Seq<Instr>,
>
    decreases methods.len(),
{
    if methods.len() == 0 {
        None
    } else if methods[0].0@ == name {
        Some(methods[0].1@)
    } else {
        spec_find_method(methods.drop_first(), name)
    }
}

impl Lua {
    /// Whether a type with the given token is registered.
    pub open spec fn spec_type_registered(&self, tag: u64) -> bool {
        spec_find_type(self.registered_userdata@, tag) is Some
    }

    /// Registers a host type: builds its metatable (holding the plain
    /// fields) and caches the registration under its token. Registering
    /// a token twice keeps the first registration, as the cache does.
    pub fn register_userdata_metatable(&mut self, registry: UserDataRegistry) -> (r: Result<
        (),
        Error,
    >)
        requires
            old(self).wf(),
            old(self).objects@.len() < usize::MAX,
        ensures
            final(self).wf(),
            old(self).spec_type_registered(registry.type_tag) ==> (r is Ok && final(self).registered_userdata == old(self).registered_userdata && final(self).heap_unchanged(
                old(self),
            )),
            !old(self).spec_type_registered(registry.type_tag) ==> {
                &&& (r is Err <==> old(self).alloc_would_fail())
                &&& (r matches Err(e) ==> e.spec_kind() == ErrorKind::Memory)
                &&& r is Ok ==> final(self).registered_userdata@ == old(self).registered_userdata@.push(
                    RegisteredType {
                        tag: registry.type_tag,
                        name: registry.name,
                        metatable: old(self).objects@.len() as usize,
                        fields: registry.fields,
                        methods: registry.methods,
                        dynamic_method: registry.dynamic_method,
                        disable_namecall: registry.disable_namecall_optimization,
                    },
                )
            },
            final(self).spec_type_registered(registry.type_tag) || r is Err,
            final(self).objects@.len() <= old(self).objects@.len() + 1,
            final(self).threads_unchanged(old(self)),
            final(self).refs_unchanged(old(self)),
            final(self).failure_unchanged(old(self)),
    {
        if self.find_type_index(registry.type_tag).is_some() {
            return Ok(());
        }
        let mt = match self.alloc_obj(LuaObj::Table(Vec::new())) {
            Ok(mt) => mt,
            Err(e) => {
                return Err(e);
            }
        };
        let entry = RegisteredType {
            tag: registry.type_tag,
            name: registry.name,
            metatable: mt,
            fields: registry.fields,
            methods: registry.methods,
            dynamic_method: registry.dynamic_method,
            disable_namecall: registry.disable_namecall_optimization,
        };
        self.registered_userdata.push(entry);
        proof {
            lemma_find_type_push(old(self).registered_userdata@, self.registered_userdata@.last());
        }
        Ok(())
    }

    /// The position of a registered type in the cache.
    fn find_type_index(&self, tag: u64) -> (r: Option<usize>)
        ensures
            r matches Some(i) ==> i < self.registered_userdata@.len()
                && self.registered_userdata@[i as int].tag == tag && spec_find_type(
                self.registered_userdata@,
                tag,
            ) == Some(i as int),
            r is None <==> spec_find_type(self.registered_userdata@, tag) is None,
    {
        let mut i: usize = 0;
        while i < self.registered_userdata.len()
            invariant
                i <= self.registered_userdata@.len(),
                forall|j: int| 0 <= j < i ==> (#[trigger] self.registered_userdata@[j]).tag != tag,
            decreases self.registered_userdata@.len() - i,
        {
            if self.registered_userdata[i].tag == tag {
                proof {
                    lemma_find_type_prefix(self.registered_userdata@, tag, i as int);
                }
                return Some(i);
            }
            i += 1;
        }
        proof {
            lemma_find_type_none(self.registered_userdata@, tag);
        }
        None
    }

    /// Creates a full userdata value of a registered type, stamped with
    /// the type's token, and pins it. An unregistered token is a type
    /// mismatch.
    pub fn make_userdata(&mut self, tag: u64) -> (r: Result<AnyUserData, Error>)
        requires
            old(self).wf(),
            old(self).objects@.len() < usize::MAX,
            old(self).threads@[old(self).current as int].stack@.len() < usize::MAX,
        ensures
            final(self).wf(),
            !old(self).spec_type_registered(tag) ==> (r matches Err(e) && e.spec_kind()
                == ErrorKind::UserDataTypeMismatch),
            old(self).spec_type_registered(tag) ==> {
                &&& (r is Err <==> old(self).alloc_would_fail())
                &&& (r matches Err(e) ==> e.spec_kind() == ErrorKind::Memory)
                &&& (r matches Ok(ud) ==> {
                    &&& ud.0.owned
                    &&& final(self).valid_ref(ud.0)
                    &&& final(self).ref_value(ud.0) matches Value::Obj(id) && id < final(self).objects@.len() && final(self).objects@[id as int] == (LuaObj::Userdata {
                        type_tag: tag,
                        alive: true,
                    })
                })
            },
            final(self).objects@.len() <= old(self).objects@.len() + 1,
            final(self).threads_equiv(old(self)),
            final(self).failure_unchanged(old(self)),
    {
        if self.find_type_index(tag).is_none() {
            return Err(Error::UserDataTypeMismatch);
        }
        match self.create_pinned(LuaObj::Userdata { type_tag: tag, alive: true }) {
            Ok(vref) => Ok(AnyUserData(vref)),
            Err(e) => Err(e),
        }
    }

    /// Reads the type token of the userdata pinned by a handle: a value
    /// that is no userdata is a type mismatch, and one whose destructor
    /// has run is reported destructed — never silently coerced.
    pub fn get_userdata_type_tag(&self, r: &ValueRef) -> (out: Result<u64, Error>)
        requires
            self.wf(),
            self.valid_ref(*r),
        ensures
            match self.ref_value(*r) {
                Value::Obj(id) => {
                    if id < self.objects@.len() {
                        match self.objects@[id as int] {
                            LuaObj::Userdata { type_tag, alive } => {
                                if alive {
                                    out matches Ok(t) && t == type_tag
                                } else {
                                    out matches Err(e) && e.spec_kind()
                                        == ErrorKind::UserDataDestructed
                                }
                            },
                            _ => out matches Err(e) && e.spec_kind()
                                == ErrorKind::UserDataTypeMismatch,
                        }
                    } else {
                        out matches Err(e) && e.spec_kind() == ErrorKind::UserDataTypeMismatch
                    }
                },
                _ => out matches Err(e) && e.spec_kind() == ErrorKind::UserDataTypeMismatch,
            },
    {
        let v = *self.ref_threads[r.aux_thread].read(r.index);
        match v {
            Value::Obj(id) => {
                if id < self.objects.len() {
                    match &self.objects[id] {
                        LuaObj::Userdata { type_tag, alive } => {
                            if *alive {
                                Ok(*type_tag)
                            } else {
                                Err(Error::UserDataDestructed)
                            }
                        }
                        _ => Err(Error::UserDataTypeMismatch),
                    }
                } else {
                    Err(Error::UserDataTypeMismatch)
                }
            }
            _ => Err(Error::UserDataTypeMismatch),
        }
    }

    /// Runs the userdata's destructor bookkeeping: marks the value no
    /// longer alive. Destructing twice is reported, not repeated.
    pub fn take_userdata(&mut self, r: &ValueRef) -> (out: Result<u64, Error>)
        requires
            old(self).wf(),
            old(self).valid_ref(*r),
        ensures
            final(self).wf(),
            final(self).threads_unchanged(old(self)),
            final(self).refs_unchanged(old(self)),
            final(self).failure_unchanged(old(self)),
            final(self).misc_unchanged(old(self)),
            match old(self).ref_value(*r) {
                Value::Obj(id) => {
                    if id < old(self).objects@.len() {
                        match old(self).objects@[id as int] {
                            LuaObj::Userdata { type_tag, alive } => {
                                if alive {
                                    out matches Ok(t) && t == type_tag && final(self).objects@
                                        == old(self).objects@.update(
                                        id as int,
                                        LuaObj::Userdata { type_tag, alive: false },
                                    )
                                } else {
                                    out matches Err(e) && e.spec_kind()
                                        == ErrorKind::UserDataDestructed && final(self).heap_unchanged(old(self))
                                }
                            },
                            _ => out matches Err(e) && e.spec_kind()
                                == ErrorKind::UserDataTypeMismatch && final(self).heap_unchanged(
                                old(self),
                            ),
                        }
                    } else {
                        out is Err && final(self).heap_unchanged(old(self))
                    }
                },
                _ => out is Err && final(self).heap_unchanged(old(self)),
            },
    {
        let v = *self.ref_threads[r.aux_thread].read(r.index);
        match v {
            Value::Obj(id) => {
                if id < self.objects.len() {
                    let found: Option<(u64, bool)> = match &self.objects[id] {
                        LuaObj::Userdata { type_tag, alive } => Some((*type_tag, *alive)),
                        _ => None,
                    };
                    match found {
                        Some((tag, true)) => {
                            self.objects[id] = LuaObj::Userdata { type_tag: tag, alive: false };
                            proof {
                                assert forall|k: int|
                                    0 <= k < self.failure_pool@.len() implies self.capsule_slot_ok(
                                    #[trigger] self.failure_pool@[k],
                                ) by {
                                    assert(old(self).capsule_slot_ok(self.failure_pool@[k]));
                                }
                            }
                            Ok(tag)
                        }
                        Some((_, false)) => Err(Error::UserDataDestructed),
                        None => Err(Error::UserDataTypeMismatch),
                    }
                } else {
                    Err(Error::UserDataTypeMismatch)
                }
            }
            _ => Err(Error::UserDataTypeMismatch),
        }
    }
}

/// A type found stays found when the cache only grows.
proof fn lemma_find_type_push(types: Seq<RegisteredType>, entry: RegisteredType)
    requires
        spec_find_type(types, entry.tag) is None,
    ensures
        spec_find_type(types.push(entry), entry.tag) == Some(types.len() as int),
    decreases types.len(),
{
    if types.len() > 0 {
        assert(types.push(entry).drop_first() =~= types.drop_first().push(entry));
        lemma_find_type_push(types.drop_first(), entry);
    } else {
        assert(types.push(entry)[0] == entry);
    }
}

/// A scan that found the token at the first matching position agrees
/// with the specification search.
proof fn lemma_find_type_prefix(types: Seq<RegisteredType>, tag: u64, i: int)
    requires
        0 <= i < types.len(),
        types[i].tag == tag,
        forall|j: int| 0 <= j < i ==> (#[trigger] types[j]).tag != tag,
    ensures
        spec_find_type(types, tag) == Some(i),
    decreases i,
{
    if i > 0 {
        lemma_find_type_prefix(types.drop_first(), tag, i - 1);
    }
}

/// A scan that found no matching token agrees with the specification
/// search.
proof fn lemma_find_type_none(types: Seq<RegisteredType>, tag: u64)
    requires
        forall|j: int| 0 <= j < types.len() ==> (#[trigger] types[j]).tag != tag,
    ensures
        spec_find_type(types, tag) is None,
    decreases types.len(),
{
    if types.len() > 0 {
        lemma_find_type_none(types.drop_first(), tag);
    }
}

/// The text prefixed to the name of a method that no registration
/// handles.
pub open spec fn method_not_found_text() -> Seq<char> {
    "method not found: "@
}

impl Lua {
    /// The position of a method in a registered type's method list.
    fn find_method_index(methods: &Vec<(String, Vec<Instr>)>, name: &String) -> (r: Option<usize>)
        ensures
            r matches Some(i) ==> i < methods@.len() && methods@[i as int].0@ == name@
                && spec_find_method(methods@, name@) == Some(methods@[i as int].1@),
            r is None <==> spec_find_method(methods@, name@) is None,
    {
        let mut i: usize = 0;
        while i < methods.len()
            invariant
                i <= methods@.len(),
                forall|j: int| 0 <= j < i ==> (#[trigger] methods@[j]).0@ != name@,
            decreases methods@.len() - i,
        {
            if methods[i].0.eq(name) {
                proof {
                    lemma_find_method_prefix(methods@, name@, i as int);
                }
                return Some(i);
            }
            i += 1;
        }
        proof {
            lemma_find_method_none(methods@, name@);
        }
        None
    }

    /// Dispatches a method call on a userdata value by name, through
    /// the optimized name-call path: checks the value's type token and
    /// liveness, looks the name up in the registered methods, falls
    /// back to the dynamic method, and runs the chosen body inside the
    /// callback error boundary. A name nothing handles is raised as a
    /// runtime error through the same boundary. Types that disabled the
    /// optimization refuse the dispatch outright.
    pub fn namecall_dispatch(&mut self, ud: &AnyUserData, method: &str, args: Vec<Value>) -> (r:
        Result<TrampolineResult, Error>)
        requires
            old(self).wf(),
            old(self).valid_ref(ud.0),
            old(self).objects@.len() + 2 < usize::MAX,
        ensures
            final(self).wf(),
            final(self).threads_unchanged(old(self)),
            final(self).ref_threads == old(self).ref_threads,
            final(self).misc_unchanged(old(self)),
            ({
                let v = old(self).ref_value(ud.0);
                if v matches Value::Obj(id) && id < old(self).objects@.len() && (
                old(self).objects@[id as int] matches LuaObj::Userdata { type_tag, alive }) {
                    let tag = old(self).objects@[v->Obj_0 as int]->Userdata_type_tag;
                    let alive = old(self).objects@[v->Obj_0 as int]->Userdata_alive;
                    if !alive {
                        r matches Err(e) && e.spec_kind() == ErrorKind::UserDataDestructed
                    } else {
                        match spec_find_type(old(self).registered_userdata@, tag) {
                            Option::None => r matches Err(e) && e.spec_kind()
                                == ErrorKind::UserDataTypeMismatch,
                            Option::Some(ti) => {
                                let ty = old(self).registered_userdata@[ti];
                                if ty.disable_namecall {
                                    r matches Err(e) && e.spec_kind() == ErrorKind::Runtime
                                } else {
                                    match spec_find_method(ty.methods@, method@) {
                                        Option::Some(prog) => (r matches Err(e) ==> e.spec_kind()
                                            == ErrorKind::Memory) && (r matches Ok(tr)
                                            ==> boundary_result(
                                            old(self),
                                            final(self),
                                            prog,
                                            args@,
                                            true,
                                            tr,
                                        )),
                                        Option::None => match ty.dynamic_method {
                                            Option::Some(prog) => (r matches Err(e)
                                                ==> e.spec_kind() == ErrorKind::Memory) && (
                                            r matches Ok(tr) ==> boundary_result(
                                                old(self),
                                                final(self),
                                                prog@,
                                                args@,
                                                true,
                                                tr,
                                            )),
                                            Option::None => (r matches Err(e) ==> e.spec_kind()
                                                == ErrorKind::Memory) && (r matches Ok(tr) ==> (
                                            tr matches TrampolineResult::Raised(rv) && spec_raised(
                                                old(self),
                                                final(self),
                                                SpecOutcome::Failed(
                                                    ErrorKind::Runtime,
                                                    method_not_found_text() + method@,
                                                ),
                                                true,
                                                rv,
                                            ))),
                                        },
                                    }
                                }
                            },
                        }
                    }
                } else {
                    r matches Err(e) && e.spec_kind() == ErrorKind::UserDataTypeMismatch
                }
            }),
    {
        let tag = match self.get_userdata_type_tag(&ud.0) {
            Ok(tag) => tag,
            Err(e) => {
                return Err(e);
            }
        };
        let ti = match self.find_type_index(tag) {
            Some(ti) => ti,
            None => {
                return Err(Error::UserDataTypeMismatch);
            }
        };
        if self.registered_userdata[ti].disable_namecall {
            proof {
                reveal_strlit("name-call dispatch is disabled for this type");
            }
            return Err(
                Error::RuntimeError(
                    String::from_str("name-call dispatch is disabled for this type"),
                ),
            );
        }
        let method_string = String::from_str(method);
        let ghost ty = self.registered_userdata@[ti as int];
        let mi = Self::find_method_index(&self.registered_userdata[ti].methods, &method_string);
        let program: Vec<Instr> = match mi {
            Some(mi) => {
                let p = clone_program(&self.registered_userdata[ti].methods[mi].1);
                proof {
                    assert(spec_find_method(ty.methods@, method@) == Some(p@));
                }
                p
            },
            None => {
                proof {
                    assert(spec_find_method(ty.methods@, method@) is None);
                }
                match &self.registered_userdata[ti].dynamic_method {
                    Some(p) => {
                        let p2 = clone_program(p);
                        proof {
                            assert(ty.dynamic_method matches Some(q) && q@ == p2@);
                        }
                        p2
                    },
                    None => {
                        // No named or dynamic method handles the name:
                        // raise the lookup failure through the boundary.
                        proof {
                            reveal_strlit("method not found: ");
                        }
                        let mut msg = String::from_str("method not found: ");
                        msg.append(method);
                        let mut failer: Vec<Instr> = Vec::new();
                        failer.push(Instr::Raise(msg));
                        let res = callback_error_ext_yieldable(self, true, &failer, args);
                        proof {
                            let end = spec_exec(failer@, 0, 0, args@);
                            assert(end.outcome == SpecOutcome::Failed(
                                ErrorKind::Runtime,
                                method_not_found_text() + method@,
                            ));
                        }
                        return res;
                    }
                }
            }
        };
        callback_error_ext_yieldable(self, true, &program, args)
    }
}

/// A scan that found the method at the first matching position agrees
/// with the specification search.
proof fn lemma_find_method_prefix(methods: Seq<(String, Vec<Instr>)>, name: Seq<char>, i: int)
    requires
        0 <= i < methods.len(),
        methods[i].0@ == name,
        forall|j: int| 0 <= j < i ==> (#[trigger] methods[j]).0@ != name,
    ensures
        spec_find_method(methods, name) == Some(methods[i].1@),
    decreases i,
{
    if i > 0 {
        lemma_find_method_prefix(methods.drop_first(), name, i - 1);
    }
}

/// A scan that found no matching method agrees with the specification
/// search.
proof fn lemma_find_method_none(methods: Seq<(String, Vec<Instr>)>, name: Seq<char>)
    requires
        forall|j: int| 0 <= j < methods.len() ==> (#[trigger] methods[j]).0@ != name,
    ensures
        spec_find_method(methods, name) is None,
    decreases methods.len(),
{
    if methods.len() > 0 {
        lemma_find_method_none(methods.drop_first(), name);
    }
}

} // verus!
