//! Execution of function bodies.
//!
//! A body runs on the owning thread's stack with a private frame (program
//! counter and accumulator). Execution is straight-line and ends by
//! returning, raising, or panicking, or suspends at a yield; the exact
//! behaviour is pinned down by the specification interpreter
//! [`spec_exec`], which every run is proved to follow.

use vstd::prelude::*;
use vstd::string::StringExecFns;
use crate::error::Error;
use crate::error::ErrorKind;
use crate::error::PanicPayload;
use crate::value::Instr;
use crate::value::Value;

verus! {

/// The persisted state of a function body on some thread: its
/// instructions, the next instruction to execute on resume, the
/// accumulator register, and whether the body is a host callback.
pub struct Frame {
    pub program: Vec<Instr>,
    pub pc: usize,
    pub acc: i64,
    pub host: bool,
}

/// The moving part of a run: program counter and accumulator.
struct Cursor {
    pub pc: usize,
    pub acc: i64,
}

/// How one run of a body ended, seen from the executing side.
pub enum ProgOutcome {
    /// The body finished; its results are on the thread stack.
    Returned,
    /// The body suspended at a yield; the yielded values are on the
    /// thread stack and the frame will continue after the yield.
    Yielded,
    /// The body raised an error.
    Failed(Error),
    /// The body panicked on the host side.
    Panicked(PanicPayload),
}

/// The shape of an outcome at specification level: failure messages and
/// panic payloads appear as their character sequences.
pub ghost enum SpecOutcome {
    Returned,
    Yielded,
    Failed(ErrorKind, Seq<char>),
    Panicked(Seq<char>),
}

/// The state in which a run ended: its outcome, the thread stack, and the
/// frame's program counter and accumulator.
pub ghost struct ExecEnd {
    pub outcome: SpecOutcome,
    pub stack: Seq<Value>,
    pub pc: int,
    pub acc: i64,
}

/// The specification-level shape of an execution outcome.
pub open spec fn outcome_view(o: &ProgOutcome) -> SpecOutcome {
    match o {
        ProgOutcome::Returned => SpecOutcome::Returned,
        ProgOutcome::Yielded => SpecOutcome::Yielded,
        ProgOutcome::Failed(e) => SpecOutcome::Failed(e.spec_kind(), e.spec_message()),
        ProgOutcome::Panicked(p) => SpecOutcome::Panicked(p.text()),
    }
}

/// Whether every value of the sequence is an integer.
pub open spec fn all_integers(stack: Seq<Value>) -> bool {
    forall|i: int| 0 <= i < stack.len() ==> stack[i] is Integer
}

/// Folds a stack of integers into the accumulator, top first, with
/// wrapping addition.
pub open spec fn accum(acc: i64, stack: Seq<Value>) -> i64
    decreases stack.len(),
{
    if stack.len() == 0 {
        acc
    } else {
        accum(acc.wrapping_add(stack.last()->Integer_0), stack.drop_last())
    }
}

/// The message of the error raised by arithmetic on a non-integer value.
pub open spec fn arith_error_text() -> Seq<char> {
    "attempt to perform arithmetic on a non-number value"@
}

/// The specification interpreter: how a body runs from the given program
/// counter, accumulator and stack to its end state.
pub open spec fn spec_exec(program: Seq<Instr>, pc: int, acc: i64, stack: Seq<Value>) -> ExecEnd
    decreases program.len() - pc,
{
    if pc < 0 || pc >= program.len() {
        ExecEnd { outcome: SpecOutcome::Returned, stack, pc: program.len() as int, acc }
    } else {
        match program[pc] {
            Instr::PushInt(n) => spec_exec(program, pc + 1, acc, stack.push(Value::Integer(n))),
            Instr::PushVal(v) => spec_exec(program, pc + 1, acc, stack.push(v)),
            Instr::Add => {
                if stack.len() >= 2 && stack[stack.len() - 1] is Integer && stack[stack.len()
                    - 2] is Integer {
                    let b = stack[stack.len() - 1]->Integer_0;
                    let a = stack[stack.len() - 2]->Integer_0;
                    spec_exec(
                        program,
                        pc + 1,
                        acc,
                        stack.take(stack.len() - 2).push(Value::Integer(a.wrapping_add(b))),
                    )
                } else {
                    ExecEnd {
                        outcome: SpecOutcome::Failed(ErrorKind::Runtime, arith_error_text()),
                        stack,
                        pc,
                        acc,
                    }
                }
            },
            Instr::AccumArgs => {
                if all_integers(stack) {
                    spec_exec(program, pc + 1, accum(acc, stack), Seq::empty())
                } else {
                    ExecEnd {
                        outcome: SpecOutcome::Failed(ErrorKind::Runtime, arith_error_text()),
                        stack,
                        pc,
                        acc,
                    }
                }
            },
            Instr::PushAcc => spec_exec(program, pc + 1, acc, stack.push(Value::Integer(acc))),
            Instr::Yield => ExecEnd { outcome: SpecOutcome::Yielded, stack, pc: pc + 1, acc },
            Instr::Return => ExecEnd { outcome: SpecOutcome::Returned, stack, pc, acc },
            Instr::Raise(s) => ExecEnd {
                outcome: SpecOutcome::Failed(ErrorKind::Runtime, s@),
                stack,
                pc,
                acc,
            },
            Instr::Panic(s) => ExecEnd { outcome: SpecOutcome::Panicked(s@), stack, pc, acc },
        }
    }
}

/// The error raised by arithmetic on a non-integer value.
fn arith_error() -> (e: Error)
    ensures
        e.spec_kind() == ErrorKind::Runtime,
        e.spec_message() == arith_error_text(),
{
    proof {
        reveal_strlit("attempt to perform arithmetic on a non-number value");
    }
    Error::RuntimeError(String::from_str("attempt to perform arithmetic on a non-number value"))
}

impl Instr {
    /// A copy of this instruction.
    pub fn duplicate(&self) -> (r: Instr)
        ensures
            r == self,
    {
        match self {
            Instr::PushInt(n) => Instr::PushInt(*n),
            Instr::PushVal(v) => Instr::PushVal(*v),
            Instr::Add => Instr::Add,
            Instr::AccumArgs => Instr::AccumArgs,
            Instr::PushAcc => Instr::PushAcc,
            Instr::Yield => Instr::Yield,
            Instr::Return => Instr::Return,
            Instr::Raise(s) => Instr::Raise(s.clone()),
            Instr::Panic(s) => Instr::Panic(s.clone()),
        }
    }
}

/// A copy of a program.
pub fn clone_program(p: &Vec<Instr>) -> (r: Vec<Instr>)
    ensures
        r@ == p@,
{
    let mut out: Vec<Instr> = Vec::new();
    let mut i: usize = 0;
    while i < p.len()
        invariant
            i <= p.len(),
            out@ == p@.take(i as int),
        decreases p.len() - i,
    {
        out.push(p[i].duplicate());
        proof {
            assert(out@ =~= p@.take(i + 1 as int));
        }
        i += 1;
    }
    proof {
        assert(p@.take(p.len() as int) =~= p@);
    }
    out
}

/// Runs a body from the given program counter and accumulator on the
/// given stack until it ends or suspends, following the specification
/// interpreter exactly; returns the outcome with the final program
/// counter and accumulator.
pub fn exec_program(program: &Vec<Instr>, pc_in: usize, acc_in: i64, stack: &mut Vec<Value>) -> (r:
    (ProgOutcome, usize, i64))
    requires
        pc_in <= program.len(),
    ensures
        ({
            let end = spec_exec(program@, pc_in as int, acc_in, old(stack)@);
            &&& outcome_view(&r.0) == end.outcome
            &&& final(stack)@ == end.stack
            &&& r.1 as int == end.pc
            &&& r.2 == end.acc
            &&& r.1 <= program.len()
            &&& (r.0 matches ProgOutcome::Panicked(p) ==> p is Text)
            &&& (r.0 matches ProgOutcome::Failed(e) ==> e is RuntimeError)
        }),
{
    let ghost goal = spec_exec(program@, pc_in as int, acc_in, old(stack)@);
    let mut frame = Cursor { pc: pc_in, acc: acc_in };
    let n = program.len();
    while frame.pc < n
        invariant
            n == program@.len(),
            frame.pc <= n,
            goal == spec_exec(program@, pc_in as int, acc_in, old(stack)@),
            spec_exec(program@, frame.pc as int, frame.acc, stack@) == goal,
        decreases n - frame.pc,
    {
        let ghost pc_at = frame.pc;
        let ghost acc_at = frame.acc;
        let ghost st_at = stack@;
        let ins = program[frame.pc].duplicate();
        match ins {
            Instr::PushInt(v) => {
                stack.push(Value::Integer(v));
                frame.pc += 1;
            }
            Instr::PushVal(v) => {
                stack.push(v);
                frame.pc += 1;
            }
            Instr::Add => {
                let len = stack.len();
                let mut arith_ok = false;
                if len >= 2 {
                    let b = stack.pop().unwrap();
                    let a = stack.pop().unwrap();
                    match (a, b) {
                        (Value::Integer(x), Value::Integer(y)) => {
                            stack.push(Value::Integer(x.wrapping_add(y)));
                            proof {
                                assert(stack@ =~= st_at.take(st_at.len() - 2).push(
                                    Value::Integer(x.wrapping_add(y)),
                                ));
                            }
                            arith_ok = true;
                        }
                        (a2, b2) => {
                            stack.push(a2);
                            stack.push(b2);
                            proof {
                                assert(stack@ =~= st_at);
                            }
                        }
                    }
                }
                if arith_ok {
                    frame.pc += 1;
                    proof {
                        assert(st_at.len() >= 2);
                        assert(st_at[st_at.len() - 1] is Integer);
                        assert(st_at[st_at.len() - 2] is Integer);
                        assert(spec_exec(program@, pc_at as int, acc_at, st_at) == spec_exec(
                            program@,
                            frame.pc as int,
                            frame.acc,
                            stack@,
                        ));
                    }
                } else {
                    return (ProgOutcome::Failed(arith_error()), frame.pc, frame.acc);
                }
            }
            Instr::AccumArgs => {
                // First pass: every argument on the stack must be an
                // integer, or the whole instruction fails without
                // consuming anything.
                let mut all_int = true;
                let mut i: usize = 0;
                while i < stack.len()
                    invariant
                        stack@ == st_at,
                        i <= stack@.len(),
                        all_int == all_integers(stack@.take(i as int)),
                    decreases stack@.len() - i,
                {
                    match &stack[i] {
                        Value::Integer(_) => {
                            proof {
                                assert(stack@.take(i + 1 as int) =~= stack@.take(i as int).push(
                                    stack@[i as int],
                                ));
                            }
                        }
                        _ => {
                            all_int = false;
                            proof {
                                assert(stack@.take(i + 1 as int)[i as int] == stack@[i as int]);
                            }
                        }
                    }
                    i += 1;
                }
                proof {
                    assert(stack@.take(stack@.len() as int) =~= stack@);
                }
                if !all_int {
                    return (ProgOutcome::Failed(arith_error()), frame.pc, frame.acc);
                }
                // Second pass: fold the arguments into the accumulator,
                // top first.
                let ghost acc_in = frame.acc;
                let ghost st_in = stack@;
                while stack.len() > 0
                    invariant
                        all_integers(stack@),
                        accum(frame.acc, stack@) == accum(acc_in, st_in),
                        frame.pc == pc_at,
                    decreases stack@.len(),
                {
                    let v = stack.pop().unwrap();
                    match v {
                        Value::Integer(x) => {
                            frame.acc = frame.acc.wrapping_add(x);
                        }
                        _ => {
                            proof {
                                assert(false);
                            }
                        }
                    }
                }
                frame.pc += 1;
                proof {
                    assert(stack@ =~= Seq::<Value>::empty());
                    assert(frame.acc == accum(acc_in, st_in));
                    assert(spec_exec(program@, pc_at as int, acc_at, st_at) == spec_exec(
                        program@,
                        frame.pc as int,
                        frame.acc,
                        stack@,
                    ));
                }
            }
            Instr::PushAcc => {
                stack.push(Value::Integer(frame.acc));
                frame.pc += 1;
            }
            Instr::Yield => {
                frame.pc += 1;
                return (ProgOutcome::Yielded, frame.pc, frame.acc);
            }
            Instr::Return => {
                return (ProgOutcome::Returned, frame.pc, frame.acc);
            }
            Instr::Raise(s) => {
                return (ProgOutcome::Failed(Error::RuntimeError(s)), frame.pc, frame.acc);
            }
            Instr::Panic(s) => {
                return (ProgOutcome::Panicked(PanicPayload::Text(s)), frame.pc, frame.acc);
            }
        }
    }
    (ProgOutcome::Returned, frame.pc, frame.acc)
}

/// Empties a stack, handing its contents out in order.
pub fn take_stack(stack: &mut Vec<Value>) -> (r: Vec<Value>)
    ensures
        r@ == old(stack)@,
        final(stack)@.len() == 0,
{
    let mut out: Vec<Value> = Vec::new();
    let mut i: usize = 0;
    while i < stack.len()
        invariant
            i <= stack@.len(),
            stack@ == old(stack)@,
            out@ == stack@.take(i as int),
        decreases stack@.len() - i,
    {
        out.push(stack[i]);
        proof {
            assert(out@ =~= stack@.take(i + 1 as int));
        }
        i += 1;
    }
    stack.clear();
    proof {
        assert(old(stack)@.take(old(stack)@.len() as int) =~= old(stack)@);
    }
    out
}

/// Appends the given values, in order, on top of a stack.
pub fn append_values(stack: &mut Vec<Value>, vals: &Vec<Value>)
    requires
        old(stack)@.len() + vals@.len() <= usize::MAX,
    ensures
        final(stack)@ == old(stack)@ + vals@,
{
    let mut i: usize = 0;
    while i < vals.len()
        invariant
            i <= vals@.len(),
            old(stack)@.len() + vals@.len() <= usize::MAX,
            stack@ == old(stack)@ + vals@.take(i as int),
        decreases vals@.len() - i,
    {
        stack.push(vals[i]);
        proof {
            assert(stack@ =~= old(stack)@ + vals@.take(i + 1 as int));
        }
        i += 1;
    }
    proof {
        assert(vals@.take(vals@.len() as int) =~= vals@);
        assert(stack@ =~= old(stack)@ + vals@);
    }
}

/// Appends a copy of a program onto another.
pub fn append_program(out: &mut Vec<Instr>, p: &Vec<Instr>)
    requires
        old(out)@.len() + p@.len() <= usize::MAX,
    ensures
        final(out)@ == old(out)@ + p@,
{
    let mut i: usize = 0;
    while i < p.len()
        invariant
            i <= p@.len(),
            old(out)@.len() + p@.len() <= usize::MAX,
            out@ == old(out)@ + p@.take(i as int),
        decreases p@.len() - i,
    {
        out.push(p[i].duplicate());
        proof {
            assert(out@ =~= old(out)@ + p@.take(i + 1 as int));
        }
        i += 1;
    }
    proof {
        assert(p@.take(p@.len() as int) =~= p@);
        assert(out@ =~= old(out)@ + p@);
    }
}

} // verus!
