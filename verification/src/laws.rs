//! Laws the back end obeys, stated once and proved from the same spec
//! functions the executable contracts use.
use vstd::prelude::*;

use crate::arith::{
    lemma_scrop_congruent, lemma_scrop_identity, lemma_scrop_mod, lemma_scrop_mul, wrap_add,
    wrap_mul, wrap_sub, word_range,
};
use crate::ast::Expression;
use crate::bytecode::Instruction;
use crate::compiler::{compile_expr_spec, compile_program_spec, compile_stmts_spec, CompileError};
use crate::float_bits::{fadd_bits, fdiv_bits, fmul_bits, fsub_bits, is_zero_bits};
use crate::value::{Value, ValueModel};
use crate::vm::{add_values, binop_values, div_values, mod_values, mul_values, pow_values, run_from,
    step, sub_values, StepResult, VmError, VmSnap};
use vstd::arithmetic::mul::{lemma_mul_is_associative, lemma_mul_is_commutative};
use vstd::wrapping::i64_specs;

verus! {

/// Wrapping addition is the mathematical sum reduced to the machine width.
pub proof fn lemma_wrap_add_is_crop(a: i64, b: i64)
    ensures
        wrap_add(a, b) == i64_specs::signed_crop(a + b),
{
    if a + b > i64::MAX {
        lemma_scrop_identity(a + b - word_range());
        vstd::arithmetic::div_mod::lemma_mod_multiples_vanish(-1, a + b, word_range());
        lemma_scrop_congruent(a + b - word_range(), a + b);
    } else if a + b < i64::MIN {
        lemma_scrop_identity(a + b + word_range());
        vstd::arithmetic::div_mod::lemma_mod_multiples_vanish(1, a + b, word_range());
        lemma_scrop_congruent(a + b + word_range(), a + b);
    } else {
        lemma_scrop_identity(a + b);
    }
}

/// Wrapping subtraction is the mathematical difference reduced to the
/// machine width.
pub proof fn lemma_wrap_sub_is_crop(a: i64, b: i64)
    ensures
        wrap_sub(a, b) == i64_specs::signed_crop(a - b),
{
    if a - b > i64::MAX {
        lemma_scrop_identity(a - b - word_range());
        vstd::arithmetic::div_mod::lemma_mod_multiples_vanish(-1, a - b, word_range());
        lemma_scrop_congruent(a - b - word_range(), a - b);
    } else if a - b < i64::MIN {
        lemma_scrop_identity(a - b + word_range());
        vstd::arithmetic::div_mod::lemma_mod_multiples_vanish(1, a - b, word_range());
        lemma_scrop_congruent(a - b + word_range(), a - b);
    } else {
        lemma_scrop_identity(a - b);
    }
}

/// Integer addition commutes under machine-width wraparound.
pub proof fn lemma_add_commutative(a: i64, b: i64)
    ensures
        wrap_add(a, b) == wrap_add(b, a),
{
}

/// Subtraction under machine-width wraparound is addition of the negated
/// operand.
pub proof fn lemma_sub_is_add_of_negated(a: i64, b: i64)
    ensures
        wrap_sub(a, b) == wrap_add(a, wrap_sub(0, b)),
{
    lemma_wrap_sub_is_crop(a, b);
    lemma_wrap_sub_is_crop(0, b);
    lemma_wrap_add_is_crop(a, wrap_sub(0, b));
    lemma_scrop_mod(0 - b);
    vstd::arithmetic::div_mod::lemma_add_mod_noop(
        a as int,
        i64_specs::signed_crop(0 - b) as int,
        word_range(),
    );
    vstd::arithmetic::div_mod::lemma_add_mod_noop(a as int, 0 - b, word_range());
    lemma_scrop_congruent(a + i64_specs::signed_crop(0 - b), a - b);
}

/// Integer multiplication commutes under machine-width wraparound.
pub proof fn lemma_mul_commutative(a: i64, b: i64)
    ensures
        wrap_mul(a, b) == wrap_mul(b, a),
{
    lemma_mul_is_commutative(a as int, b as int);
}

/// Integer addition associates under machine-width wraparound.
pub proof fn lemma_add_associative(a: i64, b: i64, c: i64)
    ensures
        wrap_add(wrap_add(a, b), c) == wrap_add(a, wrap_add(b, c)),
{
    lemma_wrap_add_is_crop(a, b);
    lemma_wrap_add_is_crop(b, c);
    lemma_wrap_add_is_crop(wrap_add(a, b), c);
    lemma_wrap_add_is_crop(a, wrap_add(b, c));
    lemma_scrop_mod(a + b);
    lemma_scrop_mod(b + c);
    vstd::arithmetic::div_mod::lemma_add_mod_noop(
        i64_specs::signed_crop(a + b) as int,
        c as int,
        word_range(),
    );
    vstd::arithmetic::div_mod::lemma_add_mod_noop(a + b, c as int, word_range());
    vstd::arithmetic::div_mod::lemma_add_mod_noop(
        a as int,
        i64_specs::signed_crop(b + c) as int,
        word_range(),
    );
    vstd::arithmetic::div_mod::lemma_add_mod_noop(a as int, b + c, word_range());
    lemma_scrop_congruent(i64_specs::signed_crop(a + b) + c, a + b + c);
    lemma_scrop_congruent(a + i64_specs::signed_crop(b + c), a + (b + c));
}

/// Integer multiplication associates under machine-width wraparound.
pub proof fn lemma_mul_associative(a: i64, b: i64, c: i64)
    ensures
        wrap_mul(wrap_mul(a, b), c) == wrap_mul(a, wrap_mul(b, c)),
{
    lemma_scrop_identity(a as int);
    lemma_scrop_identity(b as int);
    lemma_scrop_identity(c as int);
    lemma_scrop_mul(a * b, c as int);
    lemma_scrop_mul(a as int, b * c);
    lemma_scrop_mul(a as int, b as int);
    lemma_scrop_mul(b as int, c as int);
    lemma_mul_is_associative(a as int, b as int, c as int);
}

/// A pair of floats under `Add`, `Subtract`, `Multiply` or a non-zero
/// `Divide` stays a float: no widening is involved, and the result bits
/// are the IEEE-754 operation of the operand bits.
pub proof fn lemma_float_ops_stay_float(a: u64, b: u64)
    ensures
        add_values(ValueModel::Float(a), ValueModel::Float(b)) == Ok::<ValueModel, VmError>(
            ValueModel::Float(fadd_bits(a, b)),
        ),
        sub_values(ValueModel::Float(a), ValueModel::Float(b)) == Ok::<ValueModel, VmError>(
            ValueModel::Float(fsub_bits(a, b)),
        ),
        mul_values(ValueModel::Float(a), ValueModel::Float(b)) == Ok::<ValueModel, VmError>(
            ValueModel::Float(fmul_bits(a, b)),
        ),
        !is_zero_bits(b) ==> div_values(ValueModel::Float(a), ValueModel::Float(b)) == Ok::<
            ValueModel,
            VmError,
        >(ValueModel::Float(fdiv_bits(a, b))),
{
}

/// Whether a value is the integer or float zero.
pub open spec fn zero_divisor(v: ValueModel) -> bool {
    match v {
        ValueModel::Integer(i) => i == 0,
        ValueModel::Float(b) => is_zero_bits(b),
        _ => false,
    }
}

/// Division and remainder by an integer or float zero always fail with
/// the division and modulo errors, for every numeric dividend; they never
/// produce an infinity or a trapped value.
pub proof fn lemma_divide_by_zero_fails(l: ValueModel, r: ValueModel)
    requires
        l is Integer || l is Float,
        zero_divisor(r),
    ensures
        div_values(l, r) == Err::<ValueModel, VmError>(VmError::DivisionByZero),
        mod_values(l, r) == Err::<ValueModel, VmError>(VmError::ModuloByZero),
{
}

/// String `Concatenate` and string `Add` agree on every pair of strings:
/// both yield the concatenation of the two character sequences.
pub proof fn lemma_concatenate_equals_add(a: Seq<char>, b: Seq<char>)
    ensures
        binop_values(Instruction::Concatenate, ValueModel::Str(a), ValueModel::Str(b))
            == binop_values(Instruction::Add, ValueModel::Str(a), ValueModel::Str(b)),
        binop_values(Instruction::Add, ValueModel::Str(a), ValueModel::Str(b)) == Ok::<
            ValueModel,
            VmError,
        >(ValueModel::Str(a + b)),
{
}

/// Exponentiation with a non-negative integer exponent on an integer base
/// yields an integer; a negative integer exponent or any float operand
/// yields a float.
pub proof fn lemma_exponent_result_kind(l: ValueModel, r: ValueModel)
    requires
        l is Integer || l is Float,
        r is Integer || r is Float,
    ensures
        (l is Integer && r is Integer && r->Integer_0 >= 0) ==> pow_values(l, r) matches Ok(
            ValueModel::Integer(_),
        ),
        (r is Float || (r is Integer && r->Integer_0 < 0) || l is Float) ==> pow_values(
            l,
            r,
        ) matches Ok(ValueModel::Float(_)),
{
}

/// The compiler and the machine compose: the compiled program of one
/// integer literal executes to completion from any machine state, prints
/// nothing, and leaves the stack, the globals and the output exactly as
/// they were — the literal is pushed, popped, and `Halt` stops the run.
pub proof fn lemma_compiled_literal_runs_clean(n: i64, s: VmSnap)
    ensures
        compile_program_spec(seq![Expression::IntegerLiteral { value: n }]) is Ok,
        run_from(
            compile_program_spec(seq![Expression::IntegerLiteral { value: n }])->Ok_0,
            0,
            s,
        ) == Ok::<VmSnap, (VmError, VmSnap)>(s),
{
    let es = seq![Expression::IntegerLiteral { value: n }];
    assert(es.drop_first() =~= Seq::<Expression>::empty());
    assert(compile_stmts_spec(es.drop_first()) == Ok::<Seq<Instruction>, CompileError>(
        Seq::empty(),
    ));
    assert(es[0] == Expression::IntegerLiteral { value: n });
    assert(compile_expr_spec(es[0]) == Ok::<Seq<Instruction>, CompileError>(
        seq![Instruction::Constant(Value::Integer(n))],
    ));
    assert(compile_stmts_spec(es) == Ok::<Seq<Instruction>, CompileError>(
        seq![Instruction::Constant(Value::Integer(n))].push(Instruction::Pop) + Seq::empty(),
    ));
    let code = compile_program_spec(es)->Ok_0;
    assert(code =~= seq![
        Instruction::Constant(Value::Integer(n)),
        Instruction::Pop,
        Instruction::Halt,
    ]);
    let s1 = VmSnap { stack: s.stack.push(ValueModel::Integer(n)), globals: s.globals, out: s.out };
    assert(step(code[0], s) == StepResult::Next(s1));
    assert(s1.stack.drop_last() =~= s.stack);
    let s2 = VmSnap { stack: s1.stack.drop_last(), globals: s1.globals, out: s1.out };
    assert(step(code[1], s1) == StepResult::Next(s2));
    assert(step(code[2], s2) == StepResult::Stop(s2));
    assert(s2 == s);
    assert(run_from(code, 2, s2) == Ok::<VmSnap, (VmError, VmSnap)>(s2));
    assert(run_from(code, 1, s1) == Ok::<VmSnap, (VmError, VmSnap)>(s2));
    assert(run_from(code, 0, s) == Ok::<VmSnap, (VmError, VmSnap)>(s2));
}

/// Every compiled expression contributes at least one instruction.
pub proof fn lemma_expr_code_nonempty(e: Expression)
    requires
        compile_expr_spec(e) is Ok,
    ensures
        compile_expr_spec(e)->Ok_0.len() >= 1,
    decreases e,
{
    match e {
        Expression::BinaryOperation { operator, left, right } => {
            if operator == crate::ast::BinaryOperator::Assign {
                match *left {
                    Expression::Identifier { value } => {
                        let code = compile_expr_spec(*right)->Ok_0;
                        assert(compile_expr_spec(e)->Ok_0 == code.push(
                            Instruction::StoreGlobal(value),
                        ));
                        assert(compile_expr_spec(e)->Ok_0.len() >= 1);
                    },
                    _ => {
                        assert(compile_expr_spec(e) is Err);
                        assert(compile_expr_spec(e)->Ok_0.len() >= 1);
                    },
                }
            } else {
                let l = compile_expr_spec(*left)->Ok_0;
                let r2 = compile_expr_spec(*right)->Ok_0;
                assert(compile_expr_spec(e)->Ok_0 == l + r2 + seq![
                    crate::compiler::op_instruction(operator),
                ]);
                assert(compile_expr_spec(e)->Ok_0.len() >= 1);
            }
        },
        Expression::Call { function, arguments } => {
            match *function {
                Expression::IndexName { operator: iop, expression, name } => {
                    match *expression {
                        Expression::Identifier { value } => {
                            let io = crate::compiler::compile_io_spec(name, arguments@);
                            if value@ == "io"@ {
                                assert(compile_expr_spec(e) == io);
                                if name@ == "print"@ || name@ == "printf"@ {
                                    assert(io is Ok ==> io->Ok_0.len() >= 1);
                                }
                                assert(compile_expr_spec(e)->Ok_0.len() >= 1);
                            } else {
                                assert(compile_expr_spec(e)->Ok_0.len() >= 1);
                            }
                        },
                        _ => {
                            assert(compile_expr_spec(e)->Ok_0.len() >= 1);
                        },
                    }
                },
                _ => {
                    assert(compile_expr_spec(e)->Ok_0.len() >= 1);
                },
            }
        },
        Expression::Block { block } => {
            assert(compile_expr_spec(e)->Ok_0.len() >= 1);
        },
        Expression::Program { name, parameters, body } => {
            assert(compile_expr_spec(e)->Ok_0.len() >= 1);
        },
        _ => {
            assert(compile_expr_spec(e)->Ok_0.len() >= 1);
        },
    }
}

/// The code of a statement list holds at least two instructions for every
/// statement (its code and its `Pop`).
pub proof fn lemma_stmts_code_length(es: Seq<Expression>)
    requires
        compile_stmts_spec(es) is Ok,
    ensures
        compile_stmts_spec(es)->Ok_0.len() >= 2 * es.len(),
    decreases es.len(),
{
    if es.len() > 0 {
        lemma_expr_code_nonempty(es[0]);
        lemma_stmts_code_length(es.drop_first());
    }
}

/// Round trip of a compiled program: its instruction count is the length
/// of the statement code — at least one instruction and one `Pop` per
/// top-level expression — plus one for the final `Halt`, which is its
/// last instruction.
pub proof fn lemma_round_trip_instruction_count(es: Seq<Expression>)
    requires
        compile_program_spec(es) is Ok,
    ensures
        compile_stmts_spec(es) is Ok,
        compile_program_spec(es)->Ok_0 == compile_stmts_spec(es)->Ok_0.push(Instruction::Halt),
        compile_program_spec(es)->Ok_0.len() == compile_stmts_spec(es)->Ok_0.len() + 1,
        compile_program_spec(es)->Ok_0.len() >= 2 * es.len() + 1,
        compile_program_spec(es)->Ok_0.last() == Instruction::Halt,
{
    lemma_stmts_code_length(es);
}

} // verus!
