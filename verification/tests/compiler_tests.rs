use adan_backend::ast::{BinaryOperator, Expression, IndexOperator};
use adan_backend::bytecode::Instruction;
use adan_backend::compiler::{CompileError, Compiler};
use adan_backend::value::Value;

fn num(v: i64) -> Expression {
    Expression::IntegerLiteral { value: v }
}

fn ident(s: &str) -> Expression {
    Expression::Identifier { value: s.to_string() }
}

fn bin(op: BinaryOperator, l: Expression, r: Expression) -> Expression {
    Expression::BinaryOperation { operator: op, left: Box::new(l), right: Box::new(r) }
}

fn io_call(name: &str, args: Vec<Expression>) -> Expression {
    Expression::Call {
        function: Box::new(Expression::IndexName {
            operator: IndexOperator::Dot,
            expression: Box::new(ident("io")),
            name: name.to_string(),
        }),
        arguments: args,
    }
}

#[test]
fn literals_compile_to_constants() {
    let mut c = Compiler::new();
    let chunk = c
        .compile(&[num(42), Expression::NullLiteral, Expression::BooleanLiteral { value: true }])
        .unwrap();
    assert_eq!(
        chunk.instructions,
        vec![
            Instruction::Constant(Value::Integer(42)),
            Instruction::Pop,
            Instruction::Constant(Value::Null),
            Instruction::Pop,
            Instruction::Constant(Value::Boolean(true)),
            Instruction::Pop,
            Instruction::Halt,
        ]
    );
}

#[test]
fn operands_compile_left_then_right_then_operator() {
    let mut c = Compiler::new();
    let chunk = c.compile(&[bin(BinaryOperator::Subtract, num(7), num(3))]).unwrap();
    assert_eq!(
        chunk.instructions,
        vec![
            Instruction::Constant(Value::Integer(7)),
            Instruction::Constant(Value::Integer(3)),
            Instruction::Subtract,
            Instruction::Pop,
            Instruction::Halt,
        ]
    );
}

#[test]
fn assignment_compiles_to_store_global() {
    let mut c = Compiler::new();
    let chunk = c.compile(&[bin(BinaryOperator::Assign, ident("x"), num(1))]).unwrap();
    assert_eq!(
        chunk.instructions,
        vec![
            Instruction::Constant(Value::Integer(1)),
            Instruction::StoreGlobal("x".to_string()),
            Instruction::Pop,
            Instruction::Halt,
        ]
    );
}

#[test]
fn io_print_compiles_arguments_then_count() {
    let mut c = Compiler::new();
    let chunk = c.compile(&[io_call("print", vec![num(1), num(2)])]).unwrap();
    assert_eq!(
        chunk.instructions,
        vec![
            Instruction::Constant(Value::Integer(1)),
            Instruction::Constant(Value::Integer(2)),
            Instruction::Constant(Value::Integer(2)),
            Instruction::Print,
            Instruction::Pop,
            Instruction::Halt,
        ]
    );
}

#[test]
fn assignment_to_non_identifier_is_rejected() {
    let mut c = Compiler::new();
    let r = c.compile(&[bin(BinaryOperator::Assign, num(1), num(2))]);
    assert_eq!(r, Err(CompileError::AssignToNonIdentifier));
    assert_eq!(
        CompileError::AssignToNonIdentifier.message(),
        "Left side of assignment must be an identifier"
    );
}

#[test]
fn unknown_function_is_rejected() {
    let mut c = Compiler::new();
    let r = c.compile(&[Expression::Call {
        function: Box::new(ident("foo")),
        arguments: vec![],
    }]);
    assert_eq!(r, Err(CompileError::UnknownFunction));
}

#[test]
fn unknown_io_function_is_rejected() {
    let mut c = Compiler::new();
    let r = c.compile(&[io_call("read", vec![])]);
    assert_eq!(r, Err(CompileError::UnknownIoFunction("read".to_string())));
    assert_eq!(
        CompileError::UnknownIoFunction("read".to_string()).message(),
        "Unknown io function: read"
    );
}

#[test]
fn round_trip_instruction_count() {
    let exprs = [num(1), bin(BinaryOperator::Add, num(2), num(3)), io_call("print", vec![num(4)])];
    let mut c = Compiler::new();
    let chunk = c.compile(&exprs).unwrap();
    // every top-level expression contributes its code and one Pop; one Halt ends it
    let pops = chunk
        .instructions
        .iter()
        .filter(|i| matches!(i, Instruction::Pop))
        .count();
    assert_eq!(pops, exprs.len());
    assert!(chunk.instructions.len() >= 2 * exprs.len() + 1);
    assert_eq!(chunk.instructions.last(), Some(&Instruction::Halt));
    // the disassembly lists one line per instruction under one header line
    let listing = chunk.disassemble("test");
    assert_eq!(listing.lines().count(), chunk.instructions.len() + 1);
}

#[test]
fn disassemble_lists_offsets_and_tags() {
    let mut c = Compiler::new();
    let chunk = c.compile(&[num(42)]).unwrap();
    let listing = chunk.disassemble("demo");
    assert_eq!(listing, "== demo ==\n0000 Constant(42)\n0001 Pop\n0002 Halt\n");
}

#[test]
fn unsupported_expression_is_rejected() {
    let mut c = Compiler::new();
    let r = c.compile(&[Expression::Error]);
    assert_eq!(r, Err(CompileError::UnsupportedExpression));
}

#[test]
fn block_compiles_each_statement_then_null() {
    let mut c = Compiler::new();
    let chunk = c
        .compile(&[Expression::Block {
            block: adan_backend::ast::Block { expressions: vec![num(1)] },
        }])
        .unwrap();
    assert_eq!(
        chunk.instructions,
        vec![
            Instruction::Constant(Value::Integer(1)),
            Instruction::Pop,
            Instruction::Constant(Value::Null),
            Instruction::Pop,
            Instruction::Halt,
        ]
    );
}
