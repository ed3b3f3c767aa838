//! Rendering of values as text, as the interpreter's string conversion
//! shows them.

use vstd::prelude::*;
use vstd::string::StringExecFns;
use crate::state::Lua;
use crate::util::spec_failure_string;
use crate::value::LuaObj;
use crate::value::Value;
use crate::value::WrappedFailure;

verus! {

/// The character of one decimal digit.
pub open spec fn dec_digit(d: int) -> char {
    if d == 0 {
        '0'
    } else if d == 1 {
        '1'
    } else if d == 2 {
        '2'
    } else if d == 3 {
        '3'
    } else if d == 4 {
        '4'
    } else if d == 5 {
        '5'
    } else if d == 6 {
        '6'
    } else if d == 7 {
        '7'
    } else if d == 8 {
        '8'
    } else {
        '9'
    }
}

/// The decimal digits of a non-negative number, most significant first.
pub open spec fn dec_text(n: int) -> Seq<char>
    decreases n,
{
    if n < 10 {
        seq![dec_digit(n)]
    } else {
        dec_text(n / 10).push(dec_digit(n % 10))
    }
}

/// The decimal rendering of an integer, with a leading minus for a
/// negative one.
pub open spec fn int_text(n: i64) -> Seq<char> {
    if n >= 0 {
        dec_text(n as int)
    } else {
        seq!['-'] + dec_text(-(n as int))
    }
}

/// Relies on the standard formatting of `i64`: it renders exactly the
/// decimal digits of the value, with a leading minus for a negative one.
#[verifier::external_body]
fn int_to_string(n: i64) -> (r: String)
    ensures
        r@ == int_text(n),
{
    format!("{}", n)
}

/// The text the interpreter's string conversion shows for a value:
/// primitives render themselves, strings render their text, a failure
/// capsule renders the stored failure's message, and other complex
/// values render as their type's name.
pub open spec fn spec_tostring(lua: &Lua, v: Value) -> Seq<char> {
    match v {
        Value::Nil => "nil"@,
        Value::Boolean(b) => if b {
            "true"@
        } else {
            "false"@
        },
        Value::Integer(n) => int_text(n),
        Value::Obj(id) => {
            if id < lua.objects@.len() {
                match lua.objects@[id as int] {
                    LuaObj::Str(s) => s@,
                    LuaObj::Capsule(content) => match content {
                        Some(failure) => spec_failure_string(failure),
                        None => "error object"@,
                    },
                    LuaObj::Table(_) => "table"@,
                    LuaObj::Func(_) => "function"@,
                    LuaObj::Coroutine(_) => "thread"@,
                    LuaObj::Userdata { .. } => "userdata"@,
                }
            } else {
                "userdata"@
            }
        },
    }
}

impl Lua {
    /// Renders a value as the interpreter's string conversion would.
    pub fn tostring_value(&self, v: &Value) -> (r: String)
        requires
            self.wf(),
        ensures
            r@ == spec_tostring(self, *v),
    {
        proof {
            reveal_strlit("nil");
            reveal_strlit("true");
            reveal_strlit("false");
            reveal_strlit("error object");
            reveal_strlit("table");
            reveal_strlit("function");
            reveal_strlit("thread");
            reveal_strlit("userdata");
        }
        match v {
            Value::Nil => String::from_str("nil"),
            Value::Boolean(b) => if *b {
                String::from_str("true")
            } else {
                String::from_str("false")
            },
            Value::Integer(n) => int_to_string(*n),
            Value::Obj(id) => {
                if *id < self.objects.len() {
                    match &self.objects[*id] {
                        LuaObj::Str(s) => s.clone(),
                        LuaObj::Capsule(content) => match content {
                            Some(WrappedFailure::Error(e)) => e.message(),
                            Some(WrappedFailure::Panic(p)) => match p {
                                Some(crate::error::PanicPayload::Text(t)) => t.clone(),
                                Some(crate::error::PanicPayload::Opaque(_)) => String::new(),
                                None => String::new(),
                            },
                            None => String::from_str("error object"),
                        },
                        LuaObj::Table(_) => String::from_str("table"),
                        LuaObj::Func(_) => String::from_str("function"),
                        LuaObj::Coroutine(_) => String::from_str("thread"),
                        LuaObj::Userdata { .. } => String::from_str("userdata"),
                    }
                } else {
                    String::from_str("userdata")
                }
            }
        }
    }
}

} // verus!
