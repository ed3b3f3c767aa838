//! The chunk loader.
//!
//! The binding hands source text to the interpreter's compiler and gets
//! a function handle back. The model's loader accepts the minimal text
//! chunk form `return e` where `e` is empty or a sum of unsigned decimal
//! integer literals, and compiles it to a body that pushes and adds the
//! literals; anything else is rejected with a syntax error, exactly as
//! the grammar below states.

use vstd::prelude::*;
use vstd::string::StringExecFns;
use crate::api::spec_func_def;
use crate::exec::spec_exec;
use crate::value::Value;
use crate::api::spec_is_function;
use crate::error::Error;
use crate::error::ErrorKind;
use crate::function::Function;
use crate::state::Lua;
use crate::value::FuncDef;
use crate::value::Instr;
use crate::value::LuaObj;

verus! {

/// Whitespace bytes accepted between tokens.
pub open spec fn is_ws(b: u8) -> bool {
    b == 32 || b == 9 || b == 10 || b == 13
}

/// Decimal digit bytes.
pub open spec fn is_digit(b: u8) -> bool {
    48 <= b <= 57
}

/// The first position at or after `i` that is not whitespace.
pub open spec fn skip_ws(s: Seq<u8>, i: int) -> int
    decreases s.len() - i,
{
    if 0 <= i < s.len() && is_ws(s[i]) {
        skip_ws(s, i + 1)
    } else {
        i
    }
}

/// The first position at or after `i` that is not a digit.
pub open spec fn digits_end(s: Seq<u8>, i: int) -> int
    decreases s.len() - i,
{
    if 0 <= i < s.len() && is_digit(s[i]) {
        digits_end(s, i + 1)
    } else {
        i
    }
}

/// The value of the digit run `s[i..j)`.
pub open spec fn digits_val(s: Seq<u8>, i: int, j: int) -> int
    decreases j - i,
{
    if i >= j {
        0
    } else {
        digits_val(s, i, j - 1) * 10 + (s[j - 1] - 48)
    }
}

/// Whether the keyword `return` stands at position `i`.
pub open spec fn has_return_at(s: Seq<u8>, i: int) -> bool {
    &&& i + 6 <= s.len()
    &&& s[i] == 114
    &&& s[i + 1] == 101
    &&& s[i + 2] == 116
    &&& s[i + 3] == 117
    &&& s[i + 4] == 114
    &&& s[i + 5] == 110
}

/// Parses the literal terms of the sum starting at position `i` (which
/// must start with a digit), accumulating onto `acc`.
pub open spec fn spec_parse_terms(s: Seq<u8>, i: int, acc: Seq<i64>) -> Option<Seq<i64>>
    decreases s.len() - i + 1,
    via spec_parse_terms_decreases
{
    if !(0 <= i < s.len() && is_digit(s[i])) {
        None
    } else {
        let j = digits_end(s, i);
        let val = digits_val(s, i, j);
        if val > i64::MAX {
            None
        } else {
            let acc2 = acc.push(val as i64);
            let k = skip_ws(s, j);
            if k == s.len() {
                Some(acc2)
            } else if s[k] == 43 {
                let n = skip_ws(s, k + 1);
                if n <= k {
                    None
                } else {
                    spec_parse_terms(s, n, acc2)
                }
            } else {
                None
            }
        }
    }
}

#[via_fn]
proof fn spec_parse_terms_decreases(s: Seq<u8>, i: int, acc: Seq<i64>) {
    if 0 <= i < s.len() && is_digit(s[i]) {
        lemma_digits_end_bounds(s, i);
        lemma_digits_end_bounds(s, i + 1);
        let j = digits_end(s, i);
        lemma_skip_ws_bounds(s, j);
        let k = skip_ws(s, j);
        if k < s.len() {
            lemma_skip_ws_bounds(s, k + 1);
        }
    }
}

/// The grammar of a loadable chunk: optional whitespace, the keyword
/// `return`, and either nothing more or a whitespace-separated sum of
/// decimal literals. The result is the literal list, or nothing when
/// the source is rejected.
pub open spec fn spec_parse_chunk(s: Seq<u8>) -> Option<Seq<i64>> {
    let i = skip_ws(s, 0);
    if !has_return_at(s, i) {
        None
    } else {
        let j = i + 6;
        let k = skip_ws(s, j);
        if k == s.len() {
            Some(Seq::empty())
        } else if j < s.len() && !is_ws(s[j as int]) {
            None
        } else {
            spec_parse_terms(s, k, Seq::empty())
        }
    }
}

/// The body compiled for a literal list: push the first literal, then
/// push and add each further one.
pub open spec fn compile_spec(terms: Seq<i64>) -> Seq<Instr>
    decreases terms.len(),
{
    if terms.len() == 0 {
        Seq::empty()
    } else if terms.len() == 1 {
        seq![Instr::PushInt(terms[0])]
    } else {
        compile_spec(terms.drop_last()) + seq![Instr::PushInt(terms.last()), Instr::Add]
    }
}

/// Positions never move backwards over whitespace.
proof fn lemma_skip_ws_bounds(s: Seq<u8>, i: int)
    requires
        0 <= i <= s.len(),
    ensures
        i <= skip_ws(s, i) <= s.len(),
        skip_ws(s, i) < s.len() ==> !is_ws(s[skip_ws(s, i)]),
    decreases s.len() - i,
{
    if i < s.len() && is_ws(s[i]) {
        lemma_skip_ws_bounds(s, i + 1);
    }
}

/// Positions never move backwards over digits.
proof fn lemma_digits_end_bounds(s: Seq<u8>, i: int)
    requires
        0 <= i <= s.len(),
    ensures
        i <= digits_end(s, i) <= s.len(),
        digits_end(s, i) < s.len() ==> !is_digit(s[digits_end(s, i)]),
        forall|k: int| i <= k < digits_end(s, i) ==> is_digit(#[trigger] s[k]),
    decreases s.len() - i,
{
    if i < s.len() && is_digit(s[i]) {
        lemma_digits_end_bounds(s, i + 1);
    }
}

/// Digit-run values are non-negative and grow with the run.
proof fn lemma_digits_val_monotone(s: Seq<u8>, i: int, j: int)
    requires
        i <= j,
        forall|k: int| i <= k < j ==> 0 <= #[trigger] s[k] - 48 <= 9,
    ensures
        digits_val(s, i, j) >= 0,
        forall|j2: int| i <= j2 <= j ==> #[trigger] digits_val(s, i, j2) <= digits_val(s, i, j),
    decreases j - i,
{
    if i < j {
        lemma_digits_val_monotone(s, i, j - 1);
        assert forall|j2: int| i <= j2 <= j implies #[trigger] digits_val(s, i, j2) <= digits_val(
            s,
            i,
            j,
        ) by {
            if j2 < j {
                assert(digits_val(s, i, j2) <= digits_val(s, i, j - 1));
                assert(digits_val(s, i, j) == digits_val(s, i, j - 1) * 10 + (s[j - 1] - 48));
                assert(digits_val(s, i, j - 1) * 10 >= digits_val(s, i, j - 1)) by (nonlinear_arith)
                    requires
                        digits_val(s, i, j - 1) >= 0,
                ;
            }
        }
    }
}

/// Skips whitespace from position `i`.
fn skip_ws_exec(source: &[u8], i: usize) -> (r: usize)
    requires
        i <= source@.len(),
    ensures
        r as int == skip_ws(source@, i as int),
        i <= r <= source@.len(),
        r < source@.len() ==> !is_ws(source@[r as int]),
    decreases source@.len() - i,
{
    proof {
        lemma_skip_ws_bounds(source@, i as int);
    }
    if i < source.len() {
        let b = source[i];
        if b == 32 || b == 9 || b == 10 || b == 13 {
            return skip_ws_exec(source, i + 1);
        }
    }
    i
}

/// Whether the byte at `j` is a decimal digit.
fn digit_at(source: &[u8], j: usize) -> (r: bool)
    requires
        j < source@.len(),
    ensures
        r == is_digit(source@[j as int]),
{
    let b = source[j];
    48 <= b && b <= 57
}

/// Scans a digit run from position `i` and computes its value, watching
/// for overflow past the integer range.
fn scan_number(source: &[u8], i: usize) -> (r: (usize, Option<i64>))
    requires
        i < source@.len(),
        is_digit(source@[i as int]),
    ensures
        r.0 as int == digits_end(source@, i as int),
        r.1 matches Some(v) ==> digits_val(source@, i as int, r.0 as int) == v && v >= 0,
        r.1 is None <==> digits_val(source@, i as int, r.0 as int) > i64::MAX,
{
    proof {
        lemma_digits_end_bounds(source@, i as int);
        lemma_digits_val_monotone(source@, i as int, digits_end(source@, i as int));
    }
    let ghost jend = digits_end(source@, i as int);
    let mut j = i;
    let mut v: i64 = 0;
    let mut overflow = false;
    while j < source.len() && digit_at(source, j)
        invariant
            i < source@.len(),
            is_digit(source@[i as int]),
            i <= j,
            j as int <= jend,
            jend == digits_end(source@, i as int),
            jend <= source@.len(),
            !overflow ==> v == digits_val(source@, i as int, j as int),
            overflow ==> digits_val(source@, i as int, j as int) > i64::MAX,
            v >= 0,
        decreases source@.len() - j,
    {
        proof {
            lemma_digits_end_bounds(source@, i as int);
            assert(j < jend) by {
                if j as int == jend {
                    assert(!is_digit(source@[jend as int]));
                }
            }
        }
        let d = source[j] - 48;
        if !overflow {
            if v <= (i64::MAX - (d as i64)) / 10 {
                proof {
                    assert(v * 10 + (d as i64) <= i64::MAX) by (nonlinear_arith)
                        requires
                            v >= 0,
                            0 <= d <= 9,
                            v <= (i64::MAX - (d as i64)) / 10,
                    ;
                }
                v = v * 10 + (d as i64);
            } else {
                proof {
                    assert(v * 10 + (d as i64) > i64::MAX) by (nonlinear_arith)
                        requires
                            v >= 0,
                            0 <= d <= 9,
                            v > (i64::MAX - (d as i64)) / 10,
                    ;
                }
                overflow = true;
            }
        }
        proof {
            assert(digits_val(source@, i as int, j + 1 as int) == digits_val(
                source@,
                i as int,
                j as int,
            ) * 10 + (source@[j as int] - 48));
            if overflow && digits_val(source@, i as int, j as int) > i64::MAX {
                assert(digits_val(source@, i as int, j as int) * 10 + (source@[j as int] - 48)
                    > i64::MAX) by (nonlinear_arith)
                    requires
                        digits_val(source@, i as int, j as int) > i64::MAX,
                        source@[j as int] - 48 >= 0,
                ;
            }
        }
        j = j + 1;
    }
    proof {
        lemma_digits_end_bounds(source@, i as int);
        assert(j as int == jend) by {
            if (j as int) < jend {
                assert(is_digit(source@[j as int]));
            }
        }
    }
    if overflow {
        (j, None)
    } else {
        (j, Some(v))
    }
}

impl Lua {
    /// Loads a source chunk: parses it against the loadable grammar and
    /// hands back a function whose body computes the chunk's result.
    /// A source outside the grammar (or with a literal beyond the
    /// integer range) is rejected with a syntax error; with the grammar
    /// satisfied, loading fails only when the memory limit refuses the
    /// function object.
    pub fn load_chunk(&mut self, source: &[u8]) -> (r: Result<Function, Error>)
        requires
            old(self).wf(),
            old(self).objects@.len() < usize::MAX,
            old(self).threads@[old(self).current as int].stack@.len() < usize::MAX,
        ensures
            final(self).wf(),
            r is Err <==> (spec_parse_chunk(source@) is None || old(self).alloc_would_fail()),
            r matches Err(e) ==> e.spec_kind() == (if spec_parse_chunk(source@) is None {
                ErrorKind::Syntax
            } else {
                ErrorKind::Memory
            }),
            r matches Ok(f) ==> {
                &&& spec_parse_chunk(source@) matches Some(terms)
                &&& f.0.owned
                &&& spec_is_function(final(self), f.0)
                &&& spec_func_def(final(self), f.0).program@ == compile_spec(
                    spec_parse_chunk(source@)->Some_0,
                )
                &&& !spec_func_def(final(self), f.0).host
                &&& crate::api::no_panic_instr(spec_func_def(final(self), f.0).program@)
            },
            final(self).objects@.len() <= old(self).objects@.len() + 1,
            final(self).threads_equiv(old(self)),
            final(self).failure_unchanged(old(self)),
            final(self).misc_unchanged(old(self)),
    {
        let terms = match parse_chunk(source) {
            Some(terms) => terms,
            None => {
                proof {
                    reveal_strlit("syntax error near unexpected token");
                }
                return Err(
                    Error::SyntaxError(String::from_str("syntax error near unexpected token")),
                );
            }
        };
        let program = compile_terms(&terms);
        proof {
            assert forall|idx: int|
                0 <= idx < program@.len() implies !((#[trigger] program@[idx]) is Panic) by {
                lemma_compile_no_panic(terms@);
            }
        }
        match self.create_pinned(LuaObj::Func(FuncDef { program, host: false })) {
            Ok(vref) => Ok(Function(vref)),
            Err(e) => Err(e),
        }
    }
}

/// No compiled body holds a panic instruction.
proof fn lemma_compile_no_panic(terms: Seq<i64>)
    ensures
        forall|idx: int| 0 <= idx < compile_spec(terms).len() ==> !((#[trigger] compile_spec(terms)[idx]) is Panic),
    decreases terms.len(),
{
    if terms.len() > 1 {
        lemma_compile_no_panic(terms.drop_last());
    }
}

/// Parses a chunk against the loadable grammar.
fn parse_chunk(source: &[u8]) -> (r: Option<Vec<i64>>)
    ensures
        r matches Some(terms) ==> spec_parse_chunk(source@) == Some(terms@),
        r is None <==> spec_parse_chunk(source@) is None,
{
    let i = skip_ws_exec(source, 0);
    // The keyword `return`.
    if !(source.len() >= 6 && i <= source.len() - 6 && source[i] == 114 && source[i + 1] == 101
        && source[i + 2] == 116 && source[i + 3] == 117 && source[i + 4] == 114 && source[i + 5]
        == 110) {
        return None;
    }
    let j = i + 6;
    let k = skip_ws_exec(source, j);
    if k == source.len() {
        return Some(Vec::new());
    }
    if j < source.len() {
        let b = source[j];
        if !(b == 32 || b == 9 || b == 10 || b == 13) {
            return None;
        }
    }
    let mut acc: Vec<i64> = Vec::new();
    let mut pos = k;
    let ghost s = source@;
    loop
        invariant
            pos <= s.len(),
            s == source@,
            spec_parse_chunk(source@) == spec_parse_terms(s, pos as int, acc@),
        decreases s.len() - pos,
    {
        if !(pos < source.len()) {
            return None;
        }
        let b0 = source[pos];
        if !(48 <= b0 && b0 <= 57) {
            return None;
        }
        let (j2, val) = scan_number(source, pos);
        proof {
            lemma_digits_end_bounds(s, pos as int);
            lemma_digits_end_bounds(s, pos + 1 as int);
            assert(digits_end(s, pos as int) == digits_end(s, pos + 1 as int));
            assert(j2 > pos);
        }
        let v = match val {
            Some(v) => v,
            None => {
                return None;
            }
        };
        acc.push(v);
        let k2 = skip_ws_exec(source, j2);
        if k2 == source.len() {
            return Some(acc);
        }
        if source[k2] == 43 {
            let n = skip_ws_exec(source, k2 + 1);
            if n <= k2 {
                return None;
            }
            pos = n;
        } else {
            return None;
        }
    }
}

/// Compiles a literal list into a body.
fn compile_terms(terms: &Vec<i64>) -> (r: Vec<Instr>)
    ensures
        r@ == compile_spec(terms@),
{
    let mut out: Vec<Instr> = Vec::new();
    let mut idx: usize = 0;
    while idx < terms.len()
        invariant
            idx <= terms@.len(),
            out@ == compile_spec(terms@.take(idx as int)),
        decreases terms@.len() - idx,
    {
        out.push(Instr::PushInt(terms[idx]));
        if idx > 0 {
            out.push(Instr::Add);
        }
        proof {
            let t2 = terms@.take(idx + 1 as int);
            assert(t2.drop_last() =~= terms@.take(idx as int));
            assert(t2.last() == terms@[idx as int]);
            if idx == 0 {
                assert(out@ =~= compile_spec(t2));
            } else {
                assert(out@ =~= compile_spec(t2.drop_last()) + seq![
                    Instr::PushInt(t2.last()),
                    Instr::Add,
                ]);
            }
        }
        idx += 1;
    }
    proof {
        assert(terms@.take(terms@.len() as int) =~= terms@);
    }
    out
}

/// The wrapping sum of the literal terms, first to last.
pub open spec fn sum_terms(terms: Seq<i64>) -> i64
    decreases terms.len(),
{
    if terms.len() == 0 {
        0
    } else if terms.len() == 1 {
        terms[0]
    } else {
        sum_terms(terms.drop_last()).wrapping_add(terms.last())
    }
}

/// A run that fell off the end of a body continues into appended
/// instructions from where it stopped.
proof fn lemma_exec_extend(p: Seq<Instr>, q: Seq<Instr>, pc: int, acc: i64, stack: Seq<Value>)
    requires
        0 <= pc <= p.len(),
        spec_exec(p, pc, acc, stack).outcome is Returned,
        spec_exec(p, pc, acc, stack).pc == p.len(),
    ensures
        spec_exec(p + q, pc, acc, stack) == spec_exec(
            p + q,
            p.len() as int,
            spec_exec(p, pc, acc, stack).acc,
            spec_exec(p, pc, acc, stack).stack,
        ),
    decreases p.len() - pc,
{
    if pc < p.len() {
        assert((p + q)[pc] == p[pc]);
        match p[pc] {
            Instr::PushInt(n) => {
                lemma_exec_extend(p, q, pc + 1, acc, stack.push(Value::Integer(n)));
            },
            Instr::PushVal(v) => {
                lemma_exec_extend(p, q, pc + 1, acc, stack.push(v));
            },
            Instr::Add => {
                assert(stack.len() >= 2 && stack[stack.len() - 1] is Integer && stack[stack.len()
                    - 2] is Integer);
                let b = stack[stack.len() - 1]->Integer_0;
                let a = stack[stack.len() - 2]->Integer_0;
                lemma_exec_extend(
                    p,
                    q,
                    pc + 1,
                    acc,
                    stack.take(stack.len() - 2).push(Value::Integer(a.wrapping_add(b))),
                );
            },
            Instr::AccumArgs => {
                assert(crate::exec::all_integers(stack));
                lemma_exec_extend(p, q, pc + 1, crate::exec::accum(acc, stack), Seq::empty());
            },
            Instr::PushAcc => {
                lemma_exec_extend(p, q, pc + 1, acc, stack.push(Value::Integer(acc)));
            },
            Instr::Yield => {
                assert(false);
            },
            Instr::Return => {
                assert(false);
            },
            Instr::Raise(_) => {
                assert(false);
            },
            Instr::Panic(_) => {
                assert(false);
            },
        }
    }
}

/// What a compiled chunk computes: run on an empty stack, its body
/// returns the wrapping sum of the chunk's literals (or nothing, for a
/// bare return).
pub proof fn lemma_compiled_chunk_evaluates(terms: Seq<i64>)
    ensures
        ({
            let end = spec_exec(compile_spec(terms), 0, 0, Seq::empty());
            &&& end.outcome is Returned
            &&& end.pc == compile_spec(terms).len()
            &&& end.acc == 0i64
            &&& end.stack == if terms.len() == 0 {
                Seq::<Value>::empty()
            } else {
                seq![Value::Integer(sum_terms(terms))]
            }
        }),
    decreases terms.len(),
{
    let p = compile_spec(terms);
    if terms.len() == 0 {
    } else if terms.len() == 1 {
        assert(p =~= seq![Instr::PushInt(terms[0])]);
        assert(spec_exec(p, 0, 0, Seq::empty()) == spec_exec(
            p,
            1,
            0,
            Seq::empty().push(Value::Integer(terms[0])),
        ));
        assert(spec_exec(p, 1, 0, Seq::empty().push(Value::Integer(terms[0]))).stack =~= seq![
            Value::Integer(sum_terms(terms)),
        ]);
    } else {
        let front = terms.drop_last();
        let p1 = compile_spec(front);
        let suffix = seq![Instr::PushInt(terms.last()), Instr::Add];
        assert(p == p1 + suffix);
        lemma_compiled_chunk_evaluates(front);
        let mid = spec_exec(p1, 0, 0, Seq::empty());
        lemma_exec_extend(p1, suffix, 0, 0, Seq::empty());
        let n1 = p1.len() as int;
        assert(p.len() == n1 + 2);
        assert(p[n1] == Instr::PushInt(terms.last()));
        assert(p[n1 + 1] == Instr::Add);
        let s0 = mid.stack;
        assert(s0 =~= seq![Value::Integer(sum_terms(front))]);
        let s1 = s0.push(Value::Integer(terms.last()));
        assert(spec_exec(p, n1, 0, s0) == spec_exec(p, n1 + 1, 0, s1));
        assert(s1.len() == 2 && s1[1] is Integer && s1[0] is Integer);
        let summed = s1.take(0).push(
            Value::Integer(sum_terms(front).wrapping_add(terms.last())),
        );
        assert(spec_exec(p, n1 + 1, 0, s1) == spec_exec(p, n1 + 2, 0, summed));
        assert(spec_exec(p, n1 + 2, 0, summed).stack == summed);
        assert(summed =~= seq![Value::Integer(sum_terms(terms))]);
    }
}

} // verus!
