//! The bytecode compiler: one left-to-right walk of the expression tree,
//! emitting a flat instruction sequence.
use vstd::prelude::*;

use crate::ast::{BinaryOperator, Expression};
use crate::bytecode::{Chunk, Instruction};
use crate::value::Value;
use vstd::string::StringExecFns;

verus! {

/// Why a compilation was rejected.
#[derive(Debug, Clone, PartialEq)]
pub enum CompileError {
    /// The left side of an assignment is not an identifier.
    AssignToNonIdentifier,
    /// A call to anything but a member of the built-in `io` module.
    UnknownFunction,
    /// A call to an `io` member other than `print` or `printf`.
    UnknownIoFunction(String),
    /// A node shape this back end does not handle.
    UnsupportedExpression,
}

impl CompileError {
    /// The diagnostic message for this error.
    pub open spec fn message_spec(self) -> Seq<char> {
        match self {
            CompileError::AssignToNonIdentifier => "Left side of assignment must be an identifier"@,
            CompileError::UnknownFunction => "Unknown function"@,
            CompileError::UnknownIoFunction(n) => "Unknown io function: "@ + n@,
            CompileError::UnsupportedExpression => "Unimplemented expression"@,
        }
    }

    /// Renders the diagnostic message.
    pub fn message(&self) -> (r: String)
        ensures
            r@ == self.message_spec(),
    {
        match self {
            CompileError::AssignToNonIdentifier => String::from_str(
                "Left side of assignment must be an identifier",
            ),
            CompileError::UnknownFunction => String::from_str("Unknown function"),
            CompileError::UnknownIoFunction(n) => {
                let mut s = String::from_str("Unknown io function: ");
                s.append(n.as_str());
                s
            },
            CompileError::UnsupportedExpression => String::from_str("Unimplemented expression"),
        }
    }
}

/// The instruction that performs one ordinary binary operator.
/// (`Assign` never reaches this table: it compiles to `StoreGlobal`.)
pub open spec fn op_instruction(op: BinaryOperator) -> Instruction {
    match op {
        BinaryOperator::Add => Instruction::Add,
        BinaryOperator::Subtract => Instruction::Subtract,
        BinaryOperator::Multiply => Instruction::Multiply,
        BinaryOperator::Divide => Instruction::Divide,
        BinaryOperator::Modulo => Instruction::Modulo,
        BinaryOperator::Exponentiate => Instruction::Exponentiate,
        BinaryOperator::Equal => Instruction::Equal,
        BinaryOperator::NotEqual => Instruction::NotEqual,
        BinaryOperator::LessThan => Instruction::LessThan,
        BinaryOperator::LessThanOrEqual => Instruction::LessThanOrEqual,
        BinaryOperator::GreaterThan => Instruction::GreaterThan,
        BinaryOperator::GreaterThanOrEqual => Instruction::GreaterThanOrEqual,
        BinaryOperator::And => Instruction::And,
        BinaryOperator::Or => Instruction::Or,
        BinaryOperator::Concatenate => Instruction::Concatenate,
        BinaryOperator::Assign => Instruction::Halt,
    }
}

/// The code one expression compiles to, or the error that rejects it.
pub open spec fn compile_expr_spec(e: Expression) -> Result<Seq<Instruction>, CompileError>
    decreases e, 2int,
{
    match e {
        Expression::NullLiteral => Ok(seq![Instruction::Constant(Value::Null)]),
        Expression::BooleanLiteral { value } => Ok(
            seq![Instruction::Constant(Value::Boolean(value))],
        ),
        Expression::IntegerLiteral { value } => Ok(
            seq![Instruction::Constant(Value::Integer(value))],
        ),
        Expression::FloatLiteral { value } => Ok(seq![Instruction::Constant(Value::Float(value))]),
        Expression::StringLiteral { value } => Ok(seq![Instruction::Constant(Value::Str(value))]),
        Expression::Identifier { value } => Ok(seq![Instruction::LoadGlobal(value)]),
        Expression::BinaryOperation { operator, left, right } => {
            if operator == BinaryOperator::Assign {
                match *left {
                    Expression::Identifier { value } => match compile_expr_spec(*right) {
                        Ok(code) => Ok(code.push(Instruction::StoreGlobal(value))),
                        Err(er) => Err(er),
                    },
                    _ => Err(CompileError::AssignToNonIdentifier),
                }
            } else {
                match compile_expr_spec(*left) {
                    Ok(l) => match compile_expr_spec(*right) {
                        Ok(r) => Ok(l + r + seq![op_instruction(operator)]),
                        Err(er) => Err(er),
                    },
                    Err(er) => Err(er),
                }
            }
        },
        Expression::Call { function, arguments } => match *function {
            Expression::IndexName { operator: _, expression, name } => match *expression {
                Expression::Identifier { value } => {
                    if value@ == "io"@ {
                        compile_io_spec(name, arguments@)
                    } else {
                        Err(CompileError::UnknownFunction)
                    }
                },
                _ => Err(CompileError::UnknownFunction),
            },
            _ => Err(CompileError::UnknownFunction),
        },
        Expression::Block { block } => match compile_stmts_spec(block.expressions@) {
            Ok(code) => Ok(code.push(Instruction::Constant(Value::Null))),
            Err(er) => Err(er),
        },
        Expression::Program { name: _, parameters: _, body } => match compile_stmts_spec(
            body.expressions@,
        ) {
            Ok(code) => Ok(code.push(Instruction::Constant(Value::Null))),
            Err(er) => Err(er),
        },
        _ => Err(CompileError::UnsupportedExpression),
    }
}

/// The code a statement list compiles to: each expression followed by `Pop`.
pub open spec fn compile_stmts_spec(es: Seq<Expression>) -> Result<Seq<Instruction>, CompileError>
    decreases es, 0int,
{
    if es.len() == 0 {
        Ok(Seq::empty())
    } else {
        match compile_expr_spec(es[0]) {
            Ok(first) => match compile_stmts_spec(es.drop_first()) {
                Ok(rest) => Ok(first.push(Instruction::Pop) + rest),
                Err(er) => Err(er),
            },
            Err(er) => Err(er),
        }
    }
}

/// The code an argument list compiles to: each expression, left to right.
pub open spec fn compile_args_spec(es: Seq<Expression>) -> Result<Seq<Instruction>, CompileError>
    decreases es, 0int,
{
    if es.len() == 0 {
        Ok(Seq::empty())
    } else {
        match compile_expr_spec(es[0]) {
            Ok(first) => match compile_args_spec(es.drop_first()) {
                Ok(rest) => Ok(first + rest),
                Err(er) => Err(er),
            },
            Err(er) => Err(er),
        }
    }
}

/// The code an `io` call compiles to: the arguments, their count as an
/// integer constant, then `Print` or `PrintFormat`.
pub open spec fn compile_io_spec(name: String, args: Seq<Expression>) -> Result<
    Seq<Instruction>,
    CompileError,
>
    decreases args, 1int,
{
    if name@ == "print"@ {
        match compile_args_spec(args) {
            Ok(code) => Ok(
                code.push(Instruction::Constant(Value::Integer(args.len() as i64))).push(
                    Instruction::Print,
                ),
            ),
            Err(er) => Err(er),
        }
    } else if name@ == "printf"@ {
        match compile_args_spec(args) {
            Ok(code) => Ok(
                code.push(Instruction::Constant(Value::Integer(args.len() as i64))).push(
                    Instruction::PrintFormat,
                ),
            ),
            Err(er) => Err(er),
        }
    } else {
        Err(CompileError::UnknownIoFunction(name))
    }
}

/// The code a whole program compiles to: every top-level expression
/// followed by `Pop`, then `Halt`.
pub open spec fn compile_program_spec(es: Seq<Expression>) -> Result<
    Seq<Instruction>,
    CompileError,
> {
    match compile_stmts_spec(es) {
        Ok(code) => Ok(code.push(Instruction::Halt)),
        Err(er) => Err(er),
    }
}

/// Compiles a program's expression list into a chunk.
pub struct Compiler {
    chunk: Chunk,
}

impl Compiler {
    /// The instructions the compiler has emitted into its chunk so far.
    pub closed spec fn emitted(self) -> Seq<Instruction> {
        self.chunk.instructions@
    }

    /// A compiler with an empty chunk.
    pub fn new() -> (c: Compiler)
        ensures
            c.emitted() == Seq::<Instruction>::empty(),
    {
        Compiler { chunk: Chunk::new() }
    }

    /// Compiles every top-level expression, each followed by `Pop`, then
    /// `Halt`, and hands the finished chunk to the caller.
    pub fn compile(&mut self, expressions: &[Expression]) -> (r: Result<Chunk, CompileError>)
        ensures
            match (r, compile_program_spec(expressions@)) {
                (Ok(chunk), Ok(code)) => chunk.instructions@ == old(self).emitted() + code,
                (Err(er), Err(se)) => er == se,
                _ => false,
            },
    {
        match self.compile_statements(expressions) {
            Ok(()) => {
                self.chunk.write(Instruction::Halt);
                let mut out = Chunk::new();
                core::mem::swap(&mut out, &mut self.chunk);
                Ok(out)
            },
            Err(er) => Err(er),
        }
    }

    /// Compiles each expression of a statement list, emitting `Pop` after
    /// every one.
    fn compile_statements(&mut self, es: &[Expression]) -> (r: Result<(), CompileError>)
        ensures
            match (r, compile_stmts_spec(es@)) {
                (Ok(()), Ok(code)) => final(self).chunk.instructions@ == old(
                    self,
                ).chunk.instructions@ + code,
                (Err(er), Err(se)) => er == se,
                _ => false,
            },
        decreases es@, 1int,
    {
        let ghost base = self.chunk.instructions@;
        let ghost whole = es@;
        let mut i: usize = 0;
        proof {
            assert(whole.skip(0) =~= whole);
            assert(self.chunk.instructions@.skip(base.len() as int)
                =~= Seq::<Instruction>::empty());
            assert(self.chunk.instructions@.take(base.len() as int) =~= base);
            if compile_stmts_spec(whole) is Ok {
                assert(Seq::<Instruction>::empty() + compile_stmts_spec(whole)->Ok_0
                    =~= compile_stmts_spec(whole)->Ok_0);
            }
        }
        while i < es.len()
            invariant
                i <= es.len(),
                es@ == whole,
                base == old(self).chunk.instructions@,
                self.chunk.instructions@.len() >= base.len(),
                self.chunk.instructions@.take(base.len() as int) == base,
                match compile_stmts_spec(whole.skip(i as int)) {
                    Ok(rest) => compile_stmts_spec(whole) == Ok::<Seq<Instruction>, CompileError>(
                        self.chunk.instructions@.skip(base.len() as int) + rest,
                    ),
                    Err(er) => compile_stmts_spec(whole) == Err::<Seq<Instruction>, CompileError>(
                        er,
                    ),
                },
            decreases es@.len() - i,
        {
            proof {
                assert(whole.skip(i as int).len() > 0);
                assert(whole.skip(i as int)[0] == whole[i as int]);
                assert(whole.skip(i as int).drop_first() =~= whole.skip(i as int + 1));
            }
            let ghost before = self.chunk.instructions@;
            let res = self.compile_expression(&es[i]);
            match res {
                Ok(()) => {},
                Err(er) => {
                    return Err(er);
                },
            }
            self.chunk.write(Instruction::Pop);
            proof {
                let code = compile_expr_spec(whole[i as int])->Ok_0;
                assert(self.chunk.instructions@ =~= before + code.push(Instruction::Pop));
                assert(self.chunk.instructions@.take(base.len() as int) =~= base);
                if compile_stmts_spec(whole.skip(i as int + 1)) is Ok {
                    let rest2 = compile_stmts_spec(whole.skip(i as int + 1))->Ok_0;
                    assert(before.skip(base.len() as int) + (code.push(Instruction::Pop) + rest2)
                        =~= self.chunk.instructions@.skip(base.len() as int) + rest2);
                }
            }
            i = i + 1;
        }
        proof {
            assert(whole.skip(es@.len() as int) =~= Seq::<Expression>::empty());
            assert(self.chunk.instructions@.skip(base.len() as int) + Seq::<Instruction>::empty()
                =~= self.chunk.instructions@.skip(base.len() as int));
            assert(base + self.chunk.instructions@.skip(base.len() as int)
                =~= self.chunk.instructions@);
        }
        Ok(())
    }

    /// Compiles one expression; its value ends up on top of the stack.
    fn compile_expression(&mut self, e: &Expression) -> (r: Result<(), CompileError>)
        ensures
            match (r, compile_expr_spec(*e)) {
                (Ok(()), Ok(code)) => final(self).chunk.instructions@ == old(
                    self,
                ).chunk.instructions@ + code,
                (Err(er), Err(se)) => er == se,
                _ => false,
            },
        decreases e, 2int,
    {
        match e {
            Expression::NullLiteral => {
                self.chunk.write(Instruction::Constant(Value::Null));
                proof {
                    assert(self.chunk.instructions@ =~= old(self).chunk.instructions@
                        + seq![Instruction::Constant(Value::Null)]);
                }
                Ok(())
            },
            Expression::BooleanLiteral { value } => {
                self.chunk.write(Instruction::Constant(Value::Boolean(*value)));
                proof {
                    assert(self.chunk.instructions@ =~= old(self).chunk.instructions@
                        + seq![Instruction::Constant(Value::Boolean(*value))]);
                }
                Ok(())
            },
            Expression::IntegerLiteral { value } => {
                self.chunk.write(Instruction::Constant(Value::Integer(*value)));
                proof {
                    assert(self.chunk.instructions@ =~= old(self).chunk.instructions@
                        + seq![Instruction::Constant(Value::Integer(*value))]);
                }
                Ok(())
            },
            Expression::FloatLiteral { value } => {
                self.chunk.write(Instruction::Constant(Value::Float(*value)));
                proof {
                    assert(self.chunk.instructions@ =~= old(self).chunk.instructions@
                        + seq![Instruction::Constant(Value::Float(*value))]);
                }
                Ok(())
            },
            Expression::StringLiteral { value } => {
                self.chunk.write(Instruction::Constant(Value::Str(value.clone())));
                proof {
                    assert(self.chunk.instructions@ =~= old(self).chunk.instructions@
                        + seq![Instruction::Constant(Value::Str(*value))]);
                }
                Ok(())
            },
            Expression::Identifier { value } => {
                self.chunk.write(Instruction::LoadGlobal(value.clone()));
                proof {
                    assert(self.chunk.instructions@ =~= old(self).chunk.instructions@
                        + seq![Instruction::LoadGlobal(*value)]);
                }
                Ok(())
            },
            Expression::BinaryOperation { operator, left, right } => {
                if *operator == BinaryOperator::Assign {
                    match &**left {
                        Expression::Identifier { value } => {
                            let res = self.compile_expression(right);
                            match res {
                                Ok(()) => {},
                                Err(er) => {
                                    return Err(er);
                                },
                            }
                            self.chunk.write(Instruction::StoreGlobal(value.clone()));
                            proof {
                                let code = compile_expr_spec(**right)->Ok_0;
                                assert(self.chunk.instructions@ =~= old(self).chunk.instructions@
                                    + code.push(Instruction::StoreGlobal(*value)));
                            }
                            Ok(())
                        },
                        _ => Err(CompileError::AssignToNonIdentifier),
                    }
                } else {
                    let res = self.compile_expression(left);
                    match res {
                        Ok(()) => {},
                        Err(er) => {
                            return Err(er);
                        },
                    }
                    let res = self.compile_expression(right);
                    match res {
                        Ok(()) => {},
                        Err(er) => {
                            return Err(er);
                        },
                    }
                    let instr = match *operator {
                        BinaryOperator::Add => Instruction::Add,
                        BinaryOperator::Subtract => Instruction::Subtract,
                        BinaryOperator::Multiply => Instruction::Multiply,
                        BinaryOperator::Divide => Instruction::Divide,
                        BinaryOperator::Modulo => Instruction::Modulo,
                        BinaryOperator::Exponentiate => Instruction::Exponentiate,
                        BinaryOperator::Equal => Instruction::Equal,
                        BinaryOperator::NotEqual => Instruction::NotEqual,
                        BinaryOperator::LessThan => Instruction::LessThan,
                        BinaryOperator::LessThanOrEqual => Instruction::LessThanOrEqual,
                        BinaryOperator::GreaterThan => Instruction::GreaterThan,
                        BinaryOperator::GreaterThanOrEqual => Instruction::GreaterThanOrEqual,
                        BinaryOperator::And => Instruction::And,
                        BinaryOperator::Or => Instruction::Or,
                        BinaryOperator::Concatenate => Instruction::Concatenate,
                        BinaryOperator::Assign => Instruction::Halt,
                    };
                    self.chunk.write(instr);
                    proof {
                        let l = compile_expr_spec(**left)->Ok_0;
                        let r2 = compile_expr_spec(**right)->Ok_0;
                        assert(instr == op_instruction(*operator));
                        assert(self.chunk.instructions@ =~= old(self).chunk.instructions@
                            + (l + r2 + seq![op_instruction(*operator)]));
                    }
                    Ok(())
                }
            },
            Expression::Call { function, arguments } => {
                match &**function {
                    Expression::IndexName { operator: _, expression, name } => {
                        match &**expression {
                            Expression::Identifier { value } => {
                                if crate::text::str_eq(value.as_str(), "io") {
                                    self.compile_io_function(name, arguments)
                                } else {
                                    Err(CompileError::UnknownFunction)
                                }
                            },
                            _ => Err(CompileError::UnknownFunction),
                        }
                    },
                    _ => Err(CompileError::UnknownFunction),
                }
            },
            Expression::Block { block } => {
                let res = self.compile_statements(block.expressions.as_slice());
                match res {
                    Ok(()) => {},
                    Err(er) => {
                        return Err(er);
                    },
                }
                self.chunk.write(Instruction::Constant(Value::Null));
                proof {
                    let code = compile_stmts_spec(block.expressions@)->Ok_0;
                    assert(self.chunk.instructions@ =~= old(self).chunk.instructions@ + code.push(
                        Instruction::Constant(Value::Null),
                    ));
                }
                Ok(())
            },
            Expression::Program { name: _, parameters: _, body } => {
                let res = self.compile_statements(body.expressions.as_slice());
                match res {
                    Ok(()) => {},
                    Err(er) => {
                        return Err(er);
                    },
                }
                self.chunk.write(Instruction::Constant(Value::Null));
                proof {
                    let code = compile_stmts_spec(body.expressions@)->Ok_0;
                    assert(self.chunk.instructions@ =~= old(self).chunk.instructions@ + code.push(
                        Instruction::Constant(Value::Null),
                    ));
                }
                Ok(())
            },
            _ => Err(CompileError::UnsupportedExpression),
        }
    }

    /// Compiles a call to an `io` built-in: every argument left to right,
    /// the argument count, then the print instruction.
    fn compile_io_function(&mut self, name: &String, arguments: &Vec<Expression>) -> (r: Result<
        (),
        CompileError,
    >)
        ensures
            match (r, compile_io_spec(*name, arguments@)) {
                (Ok(()), Ok(code)) => final(self).chunk.instructions@ == old(
                    self,
                ).chunk.instructions@ + code,
                (Err(er), Err(se)) => er == se,
                _ => false,
            },
        decreases arguments@, 1int,
    {
        let is_print = crate::text::str_eq(name.as_str(), "print");
        let is_printf = crate::text::str_eq(name.as_str(), "printf");
        if !is_print && !is_printf {
            return Err(CompileError::UnknownIoFunction(name.clone()));
        }
        let ghost base = self.chunk.instructions@;
        let ghost whole = arguments@;
        let mut i: usize = 0;
        proof {
            assert(whole.skip(0) =~= whole);
            assert(self.chunk.instructions@.skip(base.len() as int)
                =~= Seq::<Instruction>::empty());
            assert(self.chunk.instructions@.take(base.len() as int) =~= base);
            if compile_args_spec(whole) is Ok {
                assert(Seq::<Instruction>::empty() + compile_args_spec(whole)->Ok_0
                    =~= compile_args_spec(whole)->Ok_0);
            }
        }
        while i < arguments.len()
            invariant
                i <= arguments.len(),
                arguments@ == whole,
                is_print == (name@ == "print"@),
                is_printf == (name@ == "printf"@),
                is_print || is_printf,
                base == old(self).chunk.instructions@,
                self.chunk.instructions@.len() >= base.len(),
                self.chunk.instructions@.take(base.len() as int) == base,
                match compile_args_spec(whole.skip(i as int)) {
                    Ok(rest) => compile_args_spec(whole) == Ok::<Seq<Instruction>, CompileError>(
                        self.chunk.instructions@.skip(base.len() as int) + rest,
                    ),
                    Err(er) => compile_args_spec(whole) == Err::<Seq<Instruction>, CompileError>(
                        er,
                    ),
                },
            decreases arguments@.len() - i,
        {
            proof {
                assert(whole.skip(i as int).len() > 0);
                assert(whole.skip(i as int)[0] == whole[i as int]);
                assert(whole.skip(i as int).drop_first() =~= whole.skip(i as int + 1));
            }
            let ghost before = self.chunk.instructions@;
            let res = self.compile_expression(&arguments[i]);
            match res {
                Ok(()) => {},
                Err(er) => {
                    proof {
                        assert(compile_args_spec(whole.skip(i as int)) == Err::<
                            Seq<Instruction>,
                            CompileError,
                        >(er));
                        assert(compile_args_spec(whole) == Err::<Seq<Instruction>, CompileError>(
                            er,
                        ));
                        assert(compile_io_spec(*name, whole) == Err::<
                            Seq<Instruction>,
                            CompileError,
                        >(er));
                    }
                    return Err(er);
                },
            }
            proof {
                let code = compile_expr_spec(whole[i as int])->Ok_0;
                assert(self.chunk.instructions@ =~= before + code);
                assert(self.chunk.instructions@.take(base.len() as int) =~= base);
                if compile_args_spec(whole.skip(i as int + 1)) is Ok {
                    let rest2 = compile_args_spec(whole.skip(i as int + 1))->Ok_0;
                    assert(before.skip(base.len() as int) + (code + rest2)
                        =~= self.chunk.instructions@.skip(base.len() as int) + rest2);
                }
            }
            i = i + 1;
        }
        let count: i64 = #[verifier::truncate] (arguments.len() as i64);
        self.chunk.write(Instruction::Constant(Value::Integer(count)));
        if is_print {
            self.chunk.write(Instruction::Print);
        } else {
            self.chunk.write(Instruction::PrintFormat);
        }
        proof {
            assert(whole.skip(whole.len() as int) =~= Seq::<Expression>::empty());
            let code = compile_args_spec(whole)->Ok_0;
            assert(base + code =~= base + (code + Seq::<Instruction>::empty()));
            let tail = if is_print {
                Instruction::Print
            } else {
                Instruction::PrintFormat
            };
            assert(self.chunk.instructions@ =~= base + code.push(
                Instruction::Constant(Value::Integer(whole.len() as i64)),
            ).push(tail));
        }
        Ok(())
    }
}

} // verus!

