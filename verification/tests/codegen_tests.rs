use adan_backend::aarch64::AArch64MacOSCodeGen;
use adan_backend::ast::{BinaryOperator, Expression, IndexOperator};
use adan_backend::native::NativeGenError;
use adan_backend::x86_64::X86_64CodeGen;

fn num(v: i64) -> Expression {
    Expression::IntegerLiteral { value: v }
}

fn string(s: &str) -> Expression {
    Expression::StringLiteral { value: s.to_string() }
}

fn ident(s: &str) -> Expression {
    Expression::Identifier { value: s.to_string() }
}

fn bin(op: BinaryOperator, l: Expression, r: Expression) -> Expression {
    Expression::BinaryOperation { operator: op, left: Box::new(l), right: Box::new(r) }
}

fn io_call(name: &str, args: Vec<Expression>) -> Expression {
    Expression::Call {
        function: Box::new(Expression::IndexName {
            operator: IndexOperator::Dot,
            expression: Box::new(ident("io")),
            name: name.to_string(),
        }),
        arguments: args,
    }
}

#[test]
fn x86_skeleton_and_literal() {
    let mut gen = X86_64CodeGen::new();
    let out = gen.compile(&[num(42)]).unwrap();
    assert!(out.starts_with("; ADAN compiled to x86-64 assembly (Linux System V ABI)"));
    assert!(out.contains("section .data"));
    assert!(out.contains("LVAR_STORAGE: resq 1000    ; Storage for variables"));
    assert!(out.contains("_main:"));
    assert!(out.contains("    mov rax, 42"));
    assert!(out.contains("    call _exit"));
}

#[test]
fn x86_binary_operation_frames_operands() {
    let mut gen = X86_64CodeGen::new();
    let out = gen.compile(&[bin(BinaryOperator::Add, num(1), num(2))]).unwrap();
    let push = out.find("    push rax        ; Save left operand").unwrap();
    let pop = out.find("    pop rax         ; Left operand in rax").unwrap();
    let add = out.find("    add rax, rbx").unwrap();
    assert!(push < pop && pop < add);
}

#[test]
fn x86_string_literal_goes_to_pool() {
    let mut gen = X86_64CodeGen::new();
    let out = gen.compile(&[string("hi\n")]).unwrap();
    assert!(out.contains("    lea rax, [rel .L0]"));
    assert!(out.contains(".L0: db \"hi\", 10, \"\", 0"));
}

#[test]
fn x86_float_literal_goes_to_pool() {
    let mut gen = X86_64CodeGen::new();
    let out = gen.compile(&[Expression::FloatLiteral { value: 0.5f64.to_bits() }]).unwrap();
    assert!(out.contains("    movsd xmm0, [rel .L0]"));
    assert!(out.contains(".L0: dq "));
}

#[test]
fn x86_identifier_uses_hashed_slot() {
    let mut gen = X86_64CodeGen::new();
    let slot = gen.hash_variable_name("x");
    let out = gen.compile(&[bin(BinaryOperator::Assign, ident("x"), num(1)), ident("x")]).unwrap();
    let store = format!("    mov [rel LVAR_STORAGE + {}], rax", slot * 8);
    let load = format!("    mov rax, [rel LVAR_STORAGE + {}]", slot * 8);
    assert!(out.contains(&store));
    assert!(out.contains(&load));
}

#[test]
fn x86_print_selects_format_and_newline() {
    let mut gen = X86_64CodeGen::new();
    let out = gen.compile(&[io_call("print", vec![num(1), string("x")])]).unwrap();
    assert!(out.contains("    lea rdi, [rel fmt_int]"));
    assert!(out.contains("    lea rdi, [rel fmt_str]"));
    assert!(out.contains("    lea rdi, [rel fmt_space]"));
    assert!(out.contains("    lea rdi, [rel fmt_newline]"));
    let mut gen2 = X86_64CodeGen::new();
    let out2 = gen2.compile(&[io_call("printf", vec![num(1), string("x")])]).unwrap();
    assert!(!out2.contains("    lea rdi, [rel fmt_space]"));
    assert!(!out2.contains("    lea rdi, [rel fmt_newline]"));
}

#[test]
fn boolean_argument_selects_inlined_text() {
    let mut gen = X86_64CodeGen::new();
    let out = gen
        .compile(&[io_call("print", vec![Expression::BooleanLiteral { value: true }])])
        .unwrap();
    assert!(out.contains("    lea rdi, [rel fmt_bool_true]"));
    assert!(out.contains("    lea rdi, [rel fmt_bool_false]"));
    assert!(out.contains("    je .L0"));
    let mut gen2 = AArch64MacOSCodeGen::new();
    let out2 = gen2
        .compile(&[io_call("printf", vec![Expression::BooleanLiteral { value: false }])])
        .unwrap();
    assert!(out2.contains("    csel x0, x1, x0, ne"));
    assert!(out2.contains("    adrp x0, fmt_bool_false@PAGE"));
}

#[test]
fn x86_exponent_uses_fresh_labels() {
    let mut gen = X86_64CodeGen::new();
    let out = gen.compile(&[bin(BinaryOperator::Exponentiate, num(2), num(8))]).unwrap();
    assert!(out.contains("    jle .L1"));
    assert!(out.contains(".L0:"));
    assert!(out.contains("    jnz .L0"));
    assert!(out.contains(".L1:"));
}

#[test]
fn aarch64_skeleton_and_literal() {
    let mut gen = AArch64MacOSCodeGen::new();
    let out = gen.compile(&[num(42)]).unwrap();
    assert!(out.starts_with("; ADAN compiled to ARM64 assembly (macOS)"));
    assert!(out.contains("var_storage: .space 8000    ; Storage for 1000 variables"));
    assert!(out.contains("_main:"));
    assert!(out.contains("    mov x0, #42"));
    assert!(out.contains("    ret"));
}

#[test]
fn aarch64_rejects_concatenation() {
    let mut gen = AArch64MacOSCodeGen::new();
    let r = gen.compile(&[bin(BinaryOperator::Concatenate, string("a"), string("b"))]);
    assert_eq!(r, Err(NativeGenError::ConcatenationUnsupported));
    assert_eq!(
        NativeGenError::ConcatenationUnsupported.message(),
        "String concatenation (..) not yet supported in native compilation. Use VM mode for this feature."
    );
}

#[test]
fn aarch64_escapes_backslash_and_quote() {
    let mut gen = AArch64MacOSCodeGen::new();
    let out = gen.compile(&[string("a\\b\"c\n")]).unwrap();
    assert!(out.contains("L0: .asciz \"a\\\\b\\\"c\\n\""));
}

#[test]
fn aarch64_identifier_uses_hashed_slot() {
    let mut gen = AArch64MacOSCodeGen::new();
    let slot = gen.hash_variable_name("y");
    let out = gen.compile(&[bin(BinaryOperator::Assign, ident("y"), num(3)), ident("y")]).unwrap();
    assert!(out.contains("    adrp x1, var_storage@PAGE"));
    assert!(out.contains(&format!("    str x0, [x1, #{}]", slot * 8)));
    assert!(out.contains(&format!("    ldr x0, [x1, #{}]", slot * 8)));
}

#[test]
fn both_generators_reject_unknown_calls() {
    let call = Expression::Call { function: Box::new(ident("foo")), arguments: vec![] };
    let mut g1 = X86_64CodeGen::new();
    assert_eq!(
        g1.compile(&[call]).unwrap_err(),
        NativeGenError::UnknownFunction
    );
    let call2 = Expression::Call { function: Box::new(ident("bar")), arguments: vec![] };
    let mut g2 = AArch64MacOSCodeGen::new();
    assert_eq!(g2.compile(&[call2]).unwrap_err(), NativeGenError::UnknownFunction);
}

#[test]
fn hash_collision_is_detectable() {
    // "h" and "aa" are distinct names whose hashes agree modulo 1000, so
    // the fixed hashed storage would alias them to one slot.
    let gen = X86_64CodeGen::new();
    assert_ne!("h", "aa");
    assert_eq!(gen.hash_variable_name("h"), gen.hash_variable_name("aa"));
    let gen2 = AArch64MacOSCodeGen::new();
    assert_eq!(gen2.hash_variable_name("h"), gen2.hash_variable_name("aa"));
}

#[test]
fn unknown_io_function_is_rejected_natively() {
    let mut gen = AArch64MacOSCodeGen::new();
    let r = gen.compile(&[io_call("read", vec![])]);
    assert_eq!(r, Err(NativeGenError::UnknownIoFunction("read".to_string())));
}

#[test]
fn unsupported_expression_is_rejected_natively() {
    let mut gen = X86_64CodeGen::new();
    let r = gen.compile(&[Expression::Error]);
    assert_eq!(r, Err(NativeGenError::UnsupportedExpression));
}

#[test]
fn assignment_to_non_identifier_is_rejected_natively() {
    let mut gen = X86_64CodeGen::new();
    let r = gen.compile(&[bin(BinaryOperator::Assign, num(1), num(2))]);
    assert_eq!(r, Err(NativeGenError::AssignToNonIdentifier));
}
