use adan_backend::ast::{BinaryOperator, Expression};
use adan_backend::bytecode::Instruction;
use adan_backend::compiler::Compiler;
use adan_backend::value::Value;
use adan_backend::vm::{VirtualMachine, VmError};

fn num(v: i64) -> Expression {
    Expression::IntegerLiteral { value: v }
}

fn float(v: f64) -> Expression {
    Expression::FloatLiteral { value: v.to_bits() }
}

fn string(s: &str) -> Expression {
    Expression::StringLiteral { value: s.to_string() }
}

fn ident(s: &str) -> Expression {
    Expression::Identifier { value: s.to_string() }
}

fn bin(op: BinaryOperator, l: Expression, r: Expression) -> Expression {
    Expression::BinaryOperation { operator: op, left: Box::new(l), right: Box::new(r) }
}

fn assign(name: &str, v: Expression) -> Expression {
    bin(BinaryOperator::Assign, ident(name), v)
}

fn io_call(name: &str, args: Vec<Expression>) -> Expression {
    Expression::Call {
        function: Box::new(Expression::IndexName {
            operator: adan_backend::ast::IndexOperator::Dot,
            expression: Box::new(ident("io")),
            name: name.to_string(),
        }),
        arguments: args,
    }
}

fn run(exprs: Vec<Expression>) -> (Result<(), VmError>, VirtualMachine) {
    let mut compiler = Compiler::new();
    let chunk = compiler.compile(&exprs).expect("compilation should succeed");
    let mut vm = VirtualMachine::new();
    let r = vm.execute(&chunk);
    (r, vm)
}

#[test]
fn integer_arithmetic_and_globals() {
    let (r, vm) = run(vec![assign("x", bin(
        BinaryOperator::Add,
        bin(BinaryOperator::Multiply, num(6), num(7)),
        num(0),
    ))]);
    assert!(r.is_ok());
    match vm.global_value("x") {
        Some(Value::Integer(42)) => {}
        other => panic!("expected 42, got {:?}", other),
    }
}

#[test]
fn wrapping_addition() {
    let (r, vm) = run(vec![assign("x", bin(BinaryOperator::Add, num(i64::MAX), num(1)))]);
    assert!(r.is_ok());
    match vm.global_value("x") {
        Some(Value::Integer(v)) => assert_eq!(v, i64::MIN),
        other => panic!("expected wrapped integer, got {:?}", other),
    }
}

#[test]
fn wrapping_add_associative_commutative() {
    let cases: [(i64, i64, i64); 3] = [(1, 2, 3), (i64::MAX, 5, -7), (i64::MIN, i64::MIN, 17)];
    for (a, b, c) in cases {
        let ab_c = a.wrapping_add(b).wrapping_add(c);
        let a_bc = a.wrapping_add(b.wrapping_add(c));
        assert_eq!(ab_c, a_bc);
        let (r1, vm1) = run(vec![assign("x", bin(
            BinaryOperator::Add,
            bin(BinaryOperator::Add, num(a), num(b)),
            num(c),
        ))]);
        let (r2, vm2) = run(vec![assign("x", bin(
            BinaryOperator::Add,
            num(a),
            bin(BinaryOperator::Add, num(b), num(c)),
        ))]);
        assert!(r1.is_ok() && r2.is_ok());
        assert_eq!(vm1.global_value("x"), vm2.global_value("x"));
        assert_eq!(vm1.global_value("x"), Some(Value::Integer(ab_c)));
    }
}

#[test]
fn division_by_integer_zero_fails() {
    let (r, _) = run(vec![bin(BinaryOperator::Divide, num(1), num(0))]);
    assert_eq!(r, Err(VmError::DivisionByZero));
}

#[test]
fn division_by_float_zero_fails() {
    let (r, _) = run(vec![bin(BinaryOperator::Divide, num(1), float(0.0))]);
    assert_eq!(r, Err(VmError::DivisionByZero));
    let (r2, _) = run(vec![bin(BinaryOperator::Divide, float(1.5), float(-0.0))]);
    assert_eq!(r2, Err(VmError::DivisionByZero));
}

#[test]
fn modulo_by_zero_fails() {
    let (r, _) = run(vec![bin(BinaryOperator::Modulo, num(7), num(0))]);
    assert_eq!(r, Err(VmError::ModuloByZero));
    let (r2, _) = run(vec![bin(BinaryOperator::Modulo, float(7.5), float(0.0))]);
    assert_eq!(r2, Err(VmError::ModuloByZero));
}

#[test]
fn float_arithmetic_is_exact_ieee() {
    let (r, vm) = run(vec![assign("x", bin(BinaryOperator::Add, float(1.5), float(2.25)))]);
    assert!(r.is_ok());
    match vm.global_value("x") {
        Some(Value::Float(bits)) => assert_eq!(bits, (1.5f64 + 2.25f64).to_bits()),
        other => panic!("expected float, got {:?}", other),
    }
}

#[test]
fn integer_widens_against_float() {
    let (r, vm) = run(vec![assign("x", bin(BinaryOperator::Add, num(1), float(0.5)))]);
    assert!(r.is_ok());
    match vm.global_value("x") {
        Some(Value::Float(bits)) => assert_eq!(bits, 1.5f64.to_bits()),
        other => panic!("expected float, got {:?}", other),
    }
}

#[test]
fn concatenate_equals_add_for_strings() {
    let (r1, vm1) = run(vec![assign("x", bin(
        BinaryOperator::Concatenate,
        string("a"),
        string("b"),
    ))]);
    let (r2, vm2) = run(vec![assign("x", bin(BinaryOperator::Add, string("a"), string("b")))]);
    assert!(r1.is_ok() && r2.is_ok());
    assert_eq!(vm1.global_value("x"), Some(Value::Str("ab".to_string())));
    assert_eq!(vm2.global_value("x"), Some(Value::Str("ab".to_string())));
}

#[test]
fn concatenate_stringifies_any_operands() {
    let (r, vm) = run(vec![assign("x", bin(
        BinaryOperator::Concatenate,
        num(1),
        Expression::BooleanLiteral { value: true },
    ))]);
    assert!(r.is_ok());
    assert_eq!(vm.global_value("x"), Some(Value::Str("1true".to_string())));
}

#[test]
fn exponent_non_negative_integer_stays_integer() {
    let (r, vm) = run(vec![assign("x", bin(BinaryOperator::Exponentiate, num(2), num(10)))]);
    assert!(r.is_ok());
    assert_eq!(vm.global_value("x"), Some(Value::Integer(1024)));
}

#[test]
fn exponent_negative_integer_gives_float() {
    let (r, vm) = run(vec![assign("x", bin(BinaryOperator::Exponentiate, num(2), num(-1)))]);
    assert!(r.is_ok());
    match vm.global_value("x") {
        Some(Value::Float(bits)) => assert_eq!(bits, 0.5f64.to_bits()),
        other => panic!("expected float 0.5, got {:?}", other),
    }
}

#[test]
fn exponent_float_operand_gives_float() {
    let (r, vm) = run(vec![assign("x", bin(
        BinaryOperator::Exponentiate,
        float(2.0),
        float(3.0),
    ))]);
    assert!(r.is_ok());
    match vm.global_value("x") {
        Some(Value::Float(bits)) => assert_eq!(bits, 8.0f64.to_bits()),
        other => panic!("expected float 8.0, got {:?}", other),
    }
}

#[test]
fn print_spaces_and_newline() {
    let (r, vm) = run(vec![io_call("print", vec![
        num(1),
        string("x"),
        Expression::BooleanLiteral { value: true },
    ])]);
    assert!(r.is_ok());
    assert_eq!(vm.output().as_str(), "1 x true\n");
}

#[test]
fn printf_no_separators_no_newline() {
    let (r, vm) = run(vec![io_call("printf", vec![
        num(1),
        string("x"),
        Expression::BooleanLiteral { value: true },
    ])]);
    assert!(r.is_ok());
    assert_eq!(vm.output().as_str(), "1xtrue");
}

#[test]
fn print_null_and_empty() {
    let (r, vm) = run(vec![io_call("print", vec![Expression::NullLiteral]), io_call(
        "print",
        vec![],
    )]);
    assert!(r.is_ok());
    assert_eq!(vm.output().as_str(), "null\n\n");
}

#[test]
fn comparisons_and_logic() {
    let (r, vm) = run(vec![
        assign("a", bin(BinaryOperator::LessThan, num(1), float(1.5))),
        assign("b", bin(BinaryOperator::GreaterThanOrEqual, float(2.0), num(2))),
        assign("c", bin(BinaryOperator::And, num(1), string(""))),
        assign("d", bin(BinaryOperator::Or, num(0), string("x"))),
    ]);
    assert!(r.is_ok());
    assert_eq!(vm.global_value("a"), Some(Value::Boolean(true)));
    assert_eq!(vm.global_value("b"), Some(Value::Boolean(true)));
    assert_eq!(vm.global_value("c"), Some(Value::Boolean(false)));
    assert_eq!(vm.global_value("d"), Some(Value::Boolean(true)));
}

#[test]
fn equality_is_structural_and_ieee_on_floats() {
    let (r, vm) = run(vec![
        assign("a", bin(BinaryOperator::Equal, num(1), float(1.0))),
        assign("b", bin(BinaryOperator::Equal, float(f64::NAN), float(f64::NAN))),
        assign("c", bin(BinaryOperator::Equal, float(0.0), float(-0.0))),
        assign("d", bin(BinaryOperator::NotEqual, string("a"), string("b"))),
    ]);
    assert!(r.is_ok());
    assert_eq!(vm.global_value("a"), Some(Value::Boolean(false)));
    assert_eq!(vm.global_value("b"), Some(Value::Boolean(false)));
    assert_eq!(vm.global_value("c"), Some(Value::Boolean(true)));
    assert_eq!(vm.global_value("d"), Some(Value::Boolean(true)));
}

#[test]
fn undefined_variable_is_reported() {
    let (r, _) = run(vec![ident("nope")]);
    assert_eq!(r, Err(VmError::UndefinedVariable("nope".to_string())));
    assert_eq!(
        VmError::UndefinedVariable("nope".to_string()).message(),
        "Undefined variable: nope"
    );
}

#[test]
fn invalid_operands_are_reported() {
    let (r, _) = run(vec![bin(BinaryOperator::Subtract, string("a"), num(1))]);
    assert_eq!(r, Err(VmError::InvalidOperands(Instruction::Subtract)));
    assert_eq!(
        VmError::InvalidOperands(Instruction::Subtract).message(),
        "Invalid operands for subtraction"
    );
}

#[test]
fn stack_underflow_on_hand_built_chunk() {
    let mut chunk = adan_backend::bytecode::Chunk::new();
    chunk.write(Instruction::Pop);
    chunk.write(Instruction::Halt);
    let mut vm = VirtualMachine::new();
    assert_eq!(vm.execute(&chunk), Err(VmError::StackUnderflow));
}

#[test]
fn printf_requires_integer_count() {
    let mut chunk = adan_backend::bytecode::Chunk::new();
    chunk.write(Instruction::Constant(Value::Null));
    chunk.write(Instruction::PrintFormat);
    chunk.write(Instruction::Halt);
    let mut vm = VirtualMachine::new();
    assert_eq!(vm.execute(&chunk), Err(VmError::PrintFormatCount));
}

#[test]
fn float_subtraction_and_modulo_values() {
    let (r, vm) = run(vec![
        assign("a", bin(BinaryOperator::Subtract, float(2.5), float(1.25))),
        assign("b", bin(BinaryOperator::Modulo, float(7.5), float(2.0))),
    ]);
    assert!(r.is_ok());
    assert_eq!(vm.global_value("a"), Some(Value::Float((2.5f64 - 1.25f64).to_bits())));
    assert_eq!(vm.global_value("b"), Some(Value::Float((7.5f64 % 2.0f64).to_bits())));
}

#[test]
fn wrapping_multiplication_associates() {
    let cases: [(i64, i64, i64); 2] = [(3, 5, 7), (i64::MAX, 3, i64::MIN / 2)];
    for (a, b, c) in cases {
        let (r1, vm1) = run(vec![assign("x", bin(
            BinaryOperator::Multiply,
            bin(BinaryOperator::Multiply, num(a), num(b)),
            num(c),
        ))]);
        let (r2, vm2) = run(vec![assign("x", bin(
            BinaryOperator::Multiply,
            num(a),
            bin(BinaryOperator::Multiply, num(b), num(c)),
        ))]);
        assert!(r1.is_ok() && r2.is_ok());
        assert_eq!(vm1.global_value("x"), vm2.global_value("x"));
        assert_eq!(
            vm1.global_value("x"),
            Some(Value::Integer(a.wrapping_mul(b).wrapping_mul(c)))
        );
    }
}

#[test]
fn print_requires_integer_count() {
    let mut chunk = adan_backend::bytecode::Chunk::new();
    chunk.write(Instruction::Constant(Value::Str("2".to_string())));
    chunk.write(Instruction::Print);
    chunk.write(Instruction::Halt);
    let mut vm = VirtualMachine::new();
    assert_eq!(vm.execute(&chunk), Err(VmError::PrintCount));
}

#[test]
fn output_before_error_is_kept() {
    let (r, vm) = run(vec![io_call("print", vec![string("first")]), bin(
        BinaryOperator::Divide,
        num(1),
        num(0),
    )]);
    assert_eq!(r, Err(VmError::DivisionByZero));
    assert_eq!(vm.output().as_str(), "first\n");
}

#[test]
fn assignment_keeps_value_on_stack_and_blocks_yield_null() {
    let (r, vm) = run(vec![
        assign("y", assign("x", num(5))),
        assign("z", Expression::Block {
            block: adan_backend::ast::Block { expressions: vec![num(1), num(2)] },
        }),
    ]);
    assert!(r.is_ok());
    assert_eq!(vm.global_value("y"), Some(Value::Integer(5)));
    assert_eq!(vm.global_value("x"), Some(Value::Integer(5)));
    assert_eq!(vm.global_value("z"), Some(Value::Null));
}
