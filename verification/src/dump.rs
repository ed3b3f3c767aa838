//! The compiled-chunk binary representation.
//!
//! The one persisted artifact the binding round-trips is the
//! interpreter's compiled-chunk form: an opaque byte buffer out of a
//! dump, and a function handle back in from a binary load. The model's
//! form encodes each loader-produced instruction as an opcode byte with
//! a little-endian operand; loading it back reproduces the body exactly,
//! as the round-trip law at the end states.

use vstd::prelude::*;
use vstd::string::StringExecFns;
use crate::api::no_panic_instr;
use crate::api::spec_func_def;
use crate::api::spec_is_function;
use crate::error::Error;
use crate::error::ErrorKind;
use crate::function::Function;
use crate::state::Lua;
use crate::value::FuncDef;
use crate::value::Instr;
use crate::value::LuaObj;

verus! {

/// The little-endian bytes of a 64-bit operand.
pub open spec fn le_bytes(u: u64) -> Seq<u8> {
    seq![
        (u & 0xff) as u8,
        ((u >> 8) & 0xff) as u8,
        ((u >> 16) & 0xff) as u8,
        ((u >> 24) & 0xff) as u8,
        ((u >> 32) & 0xff) as u8,
        ((u >> 40) & 0xff) as u8,
        ((u >> 48) & 0xff) as u8,
        ((u >> 56) & 0xff) as u8,
    ]
}

/// The 64-bit operand read back from eight little-endian bytes.
pub open spec fn le_value(b: Seq<u8>) -> u64 {
    (b[0] as u64) | ((b[1] as u64) << 8) | ((b[2] as u64) << 16) | ((b[3] as u64) << 24) | ((
    b[4] as u64) << 32) | ((b[5] as u64) << 40) | ((b[6] as u64) << 48) | ((b[7] as u64) << 56)
}

/// Whether a body is dumpable: it holds only the instructions the
/// loader emits (integer pushes and additions).
pub open spec fn dumpable(p: Seq<Instr>) -> bool {
    forall|i: int| 0 <= i < p.len() ==> ((#[trigger] p[i]) is PushInt || p[i] is Add)
}

/// The encoding of one dumpable instruction.
pub open spec fn encode_instr(ins: Instr) -> Seq<u8> {
    match ins {
        Instr::PushInt(n) => seq![1u8] + le_bytes(n as u64),
        _ => seq![3u8],
    }
}

/// The encoding of a dumpable body, front to back.
pub open spec fn encode_program(p: Seq<Instr>) -> Seq<u8>
    decreases p.len(),
{
    if p.len() == 0 {
        Seq::empty()
    } else {
        encode_instr(p[0]) + encode_program(p.drop_first())
    }
}

/// The body read back from a buffer, or nothing if the buffer is
/// malformed.
pub open spec fn decode_program(b: Seq<u8>) -> Option<Seq<Instr>>
    decreases b.len(),
{
    if b.len() == 0 {
        Some(Seq::empty())
    } else if b[0] == 1 {
        if b.len() >= 9 {
            match decode_program(b.skip(9)) {
                Some(rest) => Some(
                    seq![Instr::PushInt(le_value(b.subrange(1, 9)) as i64)] + rest,
                ),
                None => None,
            }
        } else {
            None
        }
    } else if b[0] == 3 {
        match decode_program(b.skip(1)) {
            Some(rest) => Some(seq![Instr::Add] + rest),
            None => None,
        }
    } else {
        None
    }
}

/// The round-trip law: loading a dumped body back reproduces it
/// exactly.
pub proof fn lemma_dump_round_trip(p: Seq<Instr>)
    requires
        dumpable(p),
    ensures
        decode_program(encode_program(p)) == Some(p),
    decreases p.len(),
{
    if p.len() > 0 {
        lemma_dump_round_trip(p.drop_first());
        let b = encode_program(p);
        match p[0] {
            Instr::PushInt(n) => {
                let u = n as u64;
                assert(b[0] == 1);
                assert(b.len() >= 9);
                assert(b.skip(9) =~= encode_program(p.drop_first()));
                assert(b.subrange(1, 9) =~= le_bytes(u));
                lemma_le_round_trip(u);
                assert((le_value(le_bytes(u)) as i64) == n) by {
                    assert(le_value(le_bytes(u)) == u);
                    assert((u as i64) == n) by (bit_vector)
                        requires
                            u == n as u64,
                    ;
                }
                assert(decode_program(b) matches Some(q) && q =~= p);
            },
            _ => {
                assert(p[0] is Add);
                assert(b[0] == 3);
                assert(b.skip(1) =~= encode_program(p.drop_first()));
                assert(decode_program(b) matches Some(q) && q =~= p);
            },
        }
    }
}

/// Reading the little-endian bytes of an operand back gives the
/// operand.
proof fn lemma_le_round_trip(u: u64)
    ensures
        le_value(le_bytes(u)) == u,
{
    let b = le_bytes(u);
    assert(((u & 0xff) as u8 as u64) | ((((u >> 8) & 0xff) as u8 as u64) << 8) | ((((u >> 16)
        & 0xff) as u8 as u64) << 16) | ((((u >> 24) & 0xff) as u8 as u64) << 24) | ((((u >> 32)
        & 0xff) as u8 as u64) << 32) | ((((u >> 40) & 0xff) as u8 as u64) << 40) | ((((u >> 48)
        & 0xff) as u8 as u64) << 48) | ((((u >> 56) & 0xff) as u8 as u64) << 56) == u)
        by (bit_vector);
}

/// Encodes one 64-bit operand onto the buffer, little-endian.
fn push_le(out: &mut Vec<u8>, u: u64)
    requires
        old(out)@.len() + 8 <= usize::MAX,
    ensures
        final(out)@ == old(out)@ + le_bytes(u),
{
    out.push((u & 0xff) as u8);
    out.push(((u >> 8) & 0xff) as u8);
    out.push(((u >> 16) & 0xff) as u8);
    out.push(((u >> 24) & 0xff) as u8);
    out.push(((u >> 32) & 0xff) as u8);
    out.push(((u >> 40) & 0xff) as u8);
    out.push(((u >> 48) & 0xff) as u8);
    out.push(((u >> 56) & 0xff) as u8);
    proof {
        assert(out@ =~= old(out)@ + le_bytes(u));
    }
}

impl Function {
    /// Dumps the function's compiled body as its binary representation.
    /// Only an interpreter function in the loader's form can be dumped;
    /// a host function (or a body carrying bound values) is refused.
    pub fn dump(&self, lua: &Lua) -> (r: Result<Vec<u8>, Error>)
        requires
            lua.wf(),
            spec_is_function(lua, self.0),
            spec_func_def(lua, self.0).program@.len() * 9 + 9 <= usize::MAX,
        ensures
            ({
                let fd = spec_func_def(lua, self.0);
                &&& (r is Err <==> (fd.host || !dumpable(fd.program@)))
                &&& (r matches Err(e) ==> e.spec_kind() == ErrorKind::Runtime)
                &&& (r matches Ok(b) ==> b@ == encode_program(fd.program@))
            }),
    {
        let (program, host) = lua.read_func_body(self);
        if host {
            proof {
                reveal_strlit("unable to dump given function");
            }
            return Err(Error::RuntimeError(String::from_str("unable to dump given function")));
        }
        let mut out: Vec<u8> = Vec::new();
        let mut i: usize = 0;
        while i < program.len()
            invariant
                i <= program@.len(),
                program@ == spec_func_def(lua, self.0).program@,
                !spec_func_def(lua, self.0).host,
                program@.len() * 9 + 9 <= usize::MAX,
                out@.len() <= i * 9,
                dumpable(program@.take(i as int)),
                out@ == encode_program(program@.take(i as int)),
            decreases program@.len() - i,
        {
            let ghost prefix = program@.take(i as int);
            match &program[i] {
                Instr::PushInt(n) => {
                    out.push(1u8);
                    push_le(&mut out, #[verifier::truncate] (*n as u64));
                }
                Instr::Add => {
                    out.push(3u8);
                }
                _ => {
                    proof {
                        assert(!dumpable(program@)) by {
                            assert(!((program@[i as int]) is PushInt || program@[i as int]
                                is Add));
                        }
                    }
                    proof {
                        reveal_strlit("unable to dump given function");
                    }
                    return Err(
                        Error::RuntimeError(String::from_str("unable to dump given function")),
                    );
                }
            }
            proof {
                assert(program@.take(i + 1 as int) =~= prefix.push(program@[i as int]));
                lemma_encode_push(prefix, program@[i as int]);
                assert(out@ =~= encode_program(program@.take(i + 1 as int)));
            }
            i += 1;
        }
        proof {
            assert(program@.take(program@.len() as int) =~= program@);
        }
        Ok(out)
    }
}

/// Appending one instruction appends its encoding.
proof fn lemma_encode_push(p: Seq<Instr>, ins: Instr)
    ensures
        encode_program(p.push(ins)) == encode_program(p) + encode_instr(ins),
    decreases p.len(),
{
    if p.len() == 0 {
        assert(p.push(ins)[0] == ins);
        assert(p.push(ins).drop_first() =~= Seq::<Instr>::empty());
        assert(encode_program(p.push(ins)) =~= encode_instr(ins) + encode_program(
            Seq::<Instr>::empty(),
        ));
        assert(encode_instr(ins) + Seq::<u8>::empty() =~= encode_instr(ins));
        assert(encode_program(p) + encode_instr(ins) =~= encode_instr(ins));
    } else {
        assert(p.push(ins).drop_first() =~= p.drop_first().push(ins));
        lemma_encode_push(p.drop_first(), ins);
        assert(encode_program(p.push(ins)) =~= encode_program(p) + encode_instr(ins));
    }
}

impl Lua {
    /// Loads a compiled chunk from its binary representation, handing a
    /// function back. A malformed buffer is rejected with a syntax
    /// error; otherwise loading fails only when the memory limit
    /// refuses the function object.
    pub fn load_chunk_binary(&mut self, buffer: &[u8]) -> (r: Result<Function, Error>)
        requires
            old(self).wf(),
            old(self).objects@.len() < usize::MAX,
            old(self).threads@[old(self).current as int].stack@.len() < usize::MAX,
        ensures
            final(self).wf(),
            r is Err <==> (decode_program(buffer@) is None || old(self).alloc_would_fail()),
            r matches Err(e) ==> e.spec_kind() == (if decode_program(buffer@) is None {
                ErrorKind::Syntax
            } else {
                ErrorKind::Memory
            }),
            r matches Ok(f) ==> {
                &&& decode_program(buffer@) matches Some(p)
                &&& f.0.owned
                &&& spec_is_function(final(self), f.0)
                &&& spec_func_def(final(self), f.0).program@ == decode_program(buffer@)->Some_0
                &&& !spec_func_def(final(self), f.0).host
                &&& no_panic_instr(spec_func_def(final(self), f.0).program@)
            },
            final(self).objects@.len() <= old(self).objects@.len() + 1,
            final(self).threads_equiv(old(self)),
            final(self).failure_unchanged(old(self)),
            final(self).misc_unchanged(old(self)),
    {
        let program = match undump(buffer) {
            Some(program) => program,
            None => {
                proof {
                    reveal_strlit("syntax error in binary chunk");
                }
                return Err(Error::SyntaxError(String::from_str("syntax error in binary chunk")));
            }
        };
        match self.create_pinned(LuaObj::Func(FuncDef { program, host: false })) {
            Ok(vref) => Ok(Function(vref)),
            Err(e) => Err(e),
        }
    }
}

/// Decodes a binary chunk buffer.
fn undump(buffer: &[u8]) -> (r: Option<Vec<Instr>>)
    ensures
        r matches Some(p) ==> decode_program(buffer@) == Some(p@) && dumpable(p@)
            && no_panic_instr(p@),
        r is None <==> decode_program(buffer@) is None,
{
    let mut out: Vec<Instr> = Vec::new();
    let mut pos: usize = 0;
    let ghost whole = buffer@;
    proof {
        assert(buffer@.skip(0) =~= buffer@);
        match decode_program(buffer@) {
            Some(rest) => {
                assert(out@ + rest =~= rest);
            },
            None => {},
        }
    }
    loop
        invariant
            pos <= buffer@.len(),
            whole == buffer@,
            dumpable(out@),
            no_panic_instr(out@),
            ({
                match decode_program(buffer@.skip(pos as int)) {
                    Some(rest) => decode_program(whole) == Some(out@ + rest),
                    None => decode_program(whole) is None,
                }
            }),
        decreases buffer@.len() - pos,
    {
        if pos == buffer.len() {
            proof {
                assert(buffer@.skip(pos as int) =~= Seq::<u8>::empty());
                assert(out@ + Seq::<Instr>::empty() =~= out@);
            }
            return Some(out);
        }
        let ghost tail = buffer@.skip(pos as int);
        let op = buffer[pos];
        if op == 1 {
            if buffer.len() - pos < 9 {
                proof {
                    assert(tail[0] == 1 && tail.len() < 9);
                }
                return None;
            }
            let u: u64 = (buffer[pos + 1] as u64) | ((buffer[pos + 2] as u64) << 8u64) | ((
            buffer[pos + 3] as u64) << 16u64) | ((buffer[pos + 4] as u64) << 24u64) | ((buffer[pos
                + 5] as u64) << 32u64) | ((buffer[pos + 6] as u64) << 40u64) | ((buffer[pos
                + 7] as u64) << 48u64) | ((buffer[pos + 8] as u64) << 56u64);
            proof {
                assert(tail.subrange(1, 9) =~= buffer@.subrange(pos + 1 as int, pos + 9 as int));
                assert(u == le_value(tail.subrange(1, 9)));
                assert(tail.skip(9) =~= buffer@.skip(pos + 9 as int));
            }
            let ghost out_before = out@;
            out.push(Instr::PushInt(#[verifier::truncate] (u as i64)));
            proof {
                let pi = Instr::PushInt(#[verifier::truncate] (u as i64));
                match decode_program(buffer@.skip(pos + 9 as int)) {
                    Some(rest2) => {
                        assert(decode_program(tail) == Some(seq![pi] + rest2));
                        assert(out_before + (seq![pi] + rest2) =~= out@ + rest2);
                    },
                    None => {
                        assert(decode_program(tail) is None);
                    },
                }
            }
            pos = pos + 9;
        } else if op == 3 {
            proof {
                assert(tail[0] == 3);
                assert(tail.skip(1) =~= buffer@.skip(pos + 1 as int));
            }
            let ghost out_before = out@;
            out.push(Instr::Add);
            proof {
                match decode_program(buffer@.skip(pos + 1 as int)) {
                    Some(rest2) => {
                        assert(decode_program(tail) == Some(seq![Instr::Add] + rest2));
                        assert(out_before + (seq![Instr::Add] + rest2) =~= out@ + rest2);
                    },
                    None => {
                        assert(decode_program(tail) is None);
                    },
                }
            }
            pos = pos + 1;
        } else {
            proof {
                assert(tail[0] != 1 && tail[0] != 3 && tail.len() > 0);
                assert(decode_program(tail) is None);
            }
            return None;
        }
    }
}

} // verus!
