//! The x86-64 code generator (NASM syntax, Linux System V ABI): one walk
//! of the expression tree, emitting assembly text lines, with label-keyed
//! string and float literal pools flushed at the end.
//!
//! The generator's meaning is given by the `gen_*` spec functions over
//! `GenState`; `compile` is proved to produce exactly that text.
use vstd::prelude::*;

use crate::ast::{BinaryOperator, Expression};
use crate::float_bits::{float_text, float_text_of};
use crate::native::{
    hash_name, join_output, joined_lines, pool_texts, slot_of_name, texts, GenState,
    NativeGenError, ValueType,
};
use crate::text::{chars_vec, dec_str, int_str, push_char, push_u64_text, str_eq};
use vstd::string::StringExecFns;
use vstd::string::StringSliceAdditionalSpecFns;
use vstd::wrapping::u64_specs;

verus! {

/// The label counter after one more label.
pub open spec fn next_counter(n: u64) -> u64 {
    u64_specs::wrapping_add(n, 1)
}

/// The text of label number `n`.
pub open spec fn label_text(n: u64) -> Seq<char> {
    ".L"@ + dec_str(n as nat)
}

/// The header comment.
pub open spec fn header_lines() -> Seq<Seq<char>> {
    seq!["; ADAN compiled to x86-64 assembly (Linux System V ABI)"@, ""@]
}

/// The data section with the fixed format strings.
pub open spec fn data_lines() -> Seq<Seq<char>> {
    seq![
        "section .data"@,
        "    fmt_int: db \"%ld\", 0"@,
        "    fmt_float: db \"%.15g\", 0"@,
        "    fmt_str: db \"%s\", 0"@,
        "    fmt_bool_true: db \"true\", 0"@,
        "    fmt_bool_false: db \"false\", 0"@,
        "    fmt_null: db \"null\", 0"@,
        "    fmt_newline: db 10, 0"@,
        "    fmt_space: db \" \", 0"@,
        ""@,
    ]
}

/// The reserved variable storage and the text section prologue.
pub open spec fn text_lines() -> Seq<Seq<char>> {
    seq![
        "section .bss"@,
        "LVAR_STORAGE: resq 1000    ; Storage for variables"@,
        ""@,
        "section .text"@,
        "    global _main"@,
        "    extern _printf"@,
        "    extern _exit"@,
        "    extern _strlen"@,
        "    extern _malloc"@,
        "    extern _strcpy"@,
        "    extern _strcat"@,
        ""@,
    ]
}

/// The program entry point.
pub open spec fn start_lines() -> Seq<Seq<char>> {
    seq!["_main:"@, "    push rbp"@, "    mov rbp, rsp"@, ""@]
}

/// The exit sequence.
pub open spec fn exit_lines() -> Seq<Seq<char>> {
    seq![
        ""@,
        "    ; Exit program"@,
        "    mov rsp, rbp"@,
        "    pop rbp"@,
        "    xor rdi, rdi        ; exit code 0"@,
        "    call _exit"@,
        ""@,
    ]
}

/// One string pool entry line.
pub open spec fn string_entry_line(label: Seq<char>, value: Seq<char>) -> Seq<char> {
    "    "@ + label + ": db "@ + value + ", 0"@
}

/// One float pool entry line.
pub open spec fn float_entry_line(label: Seq<char>, value: Seq<char>) -> Seq<char> {
    "    "@ + label + ": dq "@ + value
}

/// The string pool entry lines from `idx` on.
pub open spec fn string_entry_lines(pool: Seq<(Seq<char>, Seq<char>)>, idx: int) -> Seq<Seq<char>>
    decreases pool.len() - idx,
{
    if idx < 0 || idx >= pool.len() {
        Seq::empty()
    } else {
        seq![string_entry_line(pool[idx].0, pool[idx].1)] + string_entry_lines(pool, idx + 1)
    }
}

/// The float pool entry lines from `idx` on.
pub open spec fn float_entry_lines(pool: Seq<(Seq<char>, Seq<char>)>, idx: int) -> Seq<Seq<char>>
    decreases pool.len() - idx,
{
    if idx < 0 || idx >= pool.len() {
        Seq::empty()
    } else {
        seq![float_entry_line(pool[idx].0, pool[idx].1)] + float_entry_lines(pool, idx + 1)
    }
}

/// The flushed string pool: nothing when empty.
pub open spec fn string_pool_lines(pool: Seq<(Seq<char>, Seq<char>)>) -> Seq<Seq<char>> {
    if pool.len() == 0 {
        Seq::empty()
    } else {
        seq!["section .data"@] + string_entry_lines(pool, 0) + seq![""@]
    }
}

/// The flushed float pool: nothing when empty.
pub open spec fn float_pool_lines(pool: Seq<(Seq<char>, Seq<char>)>) -> Seq<Seq<char>> {
    if pool.len() == 0 {
        Seq::empty()
    } else {
        seq!["section .data"@] + float_entry_lines(pool, 0) + seq![""@]
    }
}

/// The expansion of one character in a NASM string literal.
pub open spec fn escape_piece(c: char) -> Seq<char> {
    if c == '\n' {
        "\", 10, \""@
    } else if c == '\t' {
        "\", 9, \""@
    } else if c == '"' {
        "\\\""@
    } else {
        seq![c]
    }
}

/// The expansions of the characters from `idx` on.
pub open spec fn escape_pieces(s: Seq<char>, idx: int) -> Seq<char>
    decreases s.len() - idx,
{
    if idx < 0 || idx >= s.len() {
        Seq::empty()
    } else {
        escape_piece(s[idx]) + escape_pieces(s, idx + 1)
    }
}

/// A string literal escaped for NASM, in double quotes.
pub open spec fn escaped_string(s: Seq<char>) -> Seq<char> {
    seq!['"'] + escape_pieces(s, 0) + seq!['"']
}

/// The lines of the string concatenation runtime-call sequence.
pub open spec fn concat_lines() -> Seq<Seq<char>> {
    seq![
        "    push rax        ; Save left string"@,
        "    mov rdi, rax    ; Left string for _strlen"@,
        "    call _strlen"@,
        "    mov r12, rax    ; Save left length in r12"@,
        "    pop rax         ; Restore left string"@,
        "    push rax        ; Save left string again"@,
        "    mov rdi, rbx    ; Right string for _strlen"@,
        "    call _strlen"@,
        "    mov r13, rax    ; Save right length in r13"@,
        "    mov rdi, r12    ; Left length"@,
        "    add rdi, r13    ; + right length"@,
        "    add rdi, 1      ; + null terminator"@,
        "    call _malloc"@,
        "    mov r14, rax    ; Save result buffer in r14"@,
        "    mov rdi, r14    ; Destination"@,
        "    pop rsi         ; Source (left string)"@,
        "    push rsi        ; Save left string again"@,
        "    call _strcpy"@,
        "    mov rdi, r14    ; Destination"@,
        "    mov rsi, rbx    ; Source (right string)"@,
        "    call _strcat"@,
        "    pop rax         ; Clean up stack"@,
        "    mov rax, r14    ; Result pointer in rax"@,
    ]
}

/// What one ordinary operator appends after its operands are in `rax` and
/// `rbx`: its lines, the labels it takes, and its result kind.
pub open spec fn operator_lines(op: BinaryOperator, labels: u64) -> Result<
    (Seq<Seq<char>>, u64, ValueType),
    NativeGenError,
> {
    match op {
        BinaryOperator::Add => Ok((seq!["    add rax, rbx"@], labels, ValueType::Integer)),
        BinaryOperator::Subtract => Ok((seq!["    sub rax, rbx"@], labels, ValueType::Integer)),
        BinaryOperator::Multiply => Ok((seq!["    imul rax, rbx"@], labels, ValueType::Integer)),
        BinaryOperator::Divide => Ok(
            (seq!["    xor rdx, rdx"@, "    idiv rbx"@], labels, ValueType::Integer),
        ),
        BinaryOperator::Modulo => Ok(
            (
                seq!["    xor rdx, rdx"@, "    idiv rbx"@, "    mov rax, rdx"@],
                labels,
                ValueType::Integer,
            ),
        ),
        BinaryOperator::Exponentiate => {
            let loop_label = label_text(labels);
            let done_label = label_text(next_counter(labels));
            Ok(
                (
                    seq![
                        "    push rcx"@,
                        "    push rdx"@,
                        "    mov rcx, rbx        ; exponent in rcx"@,
                        "    mov rbx, rax        ; base in rbx"@,
                        "    mov rax, 1          ; result = 1"@,
                        "    test rcx, rcx"@,
                        "    jle "@ + done_label,
                        loop_label + ":"@,
                        "    imul rax, rbx       ; result *= base"@,
                        "    dec rcx"@,
                        "    jnz "@ + loop_label,
                        done_label + ":"@,
                        "    pop rdx"@,
                        "    pop rcx"@,
                    ],
                    next_counter(next_counter(labels)),
                    ValueType::Integer,
                ),
            )
        },
        BinaryOperator::And => Ok(
            (
                seq![
                    "    test rax, rax"@,
                    "    setnz al"@,
                    "    test rbx, rbx"@,
                    "    setnz bl"@,
                    "    and al, bl"@,
                    "    movzx rax, al"@,
                ],
                labels,
                ValueType::Boolean,
            ),
        ),
        BinaryOperator::Or => Ok(
            (
                seq![
                    "    test rax, rax"@,
                    "    setnz al"@,
                    "    test rbx, rbx"@,
                    "    setnz bl"@,
                    "    or al, bl"@,
                    "    movzx rax, al"@,
                ],
                labels,
                ValueType::Boolean,
            ),
        ),
        BinaryOperator::Concatenate => Ok((concat_lines(), labels, ValueType::Str)),
        BinaryOperator::Equal => Ok(
            (
                seq!["    cmp rax, rbx"@, "    sete al"@, "    movzx rax, al"@],
                labels,
                ValueType::Boolean,
            ),
        ),
        BinaryOperator::NotEqual => Ok(
            (
                seq!["    cmp rax, rbx"@, "    setne al"@, "    movzx rax, al"@],
                labels,
                ValueType::Boolean,
            ),
        ),
        BinaryOperator::LessThan => Ok(
            (
                seq!["    cmp rax, rbx"@, "    setl al"@, "    movzx rax, al"@],
                labels,
                ValueType::Boolean,
            ),
        ),
        BinaryOperator::GreaterThan => Ok(
            (
                seq!["    cmp rax, rbx"@, "    setg al"@, "    movzx rax, al"@],
                labels,
                ValueType::Boolean,
            ),
        ),
        BinaryOperator::LessThanOrEqual => Ok(
            (
                seq!["    cmp rax, rbx"@, "    setle al"@, "    movzx rax, al"@],
                labels,
                ValueType::Boolean,
            ),
        ),
        BinaryOperator::GreaterThanOrEqual => Ok(
            (
                seq!["    cmp rax, rbx"@, "    setge al"@, "    movzx rax, al"@],
                labels,
                ValueType::Boolean,
            ),
        ),
        BinaryOperator::Assign => Err(NativeGenError::UnsupportedOperator),
    }
}

/// The lines printing one argument of an `io` call, by its kind; a boolean
/// takes two fresh labels for its inlined `true`/`false` branch.
pub open spec fn print_arg_effect(ty: ValueType, labels: u64, with_sep: bool) -> (
    Seq<Seq<char>>,
    u64,
) {
    let sep_lines: Seq<Seq<char>> = if with_sep {
        seq![
            "    lea rdi, [rel fmt_space]"@,
            "    xor rax, rax"@,
            "    call _printf"@,
        ]
    } else {
        Seq::empty()
    };
    match ty {
        ValueType::Boolean => {
            let false_label = label_text(labels);
            let print_label = label_text(next_counter(labels));
            (
                seq![
                    "    cmp rax, 0"@,
                    "    je "@ + false_label,
                    "    lea rdi, [rel fmt_bool_true]"@,
                    "    jmp "@ + print_label,
                    false_label + ":"@,
                    "    lea rdi, [rel fmt_bool_false]"@,
                    print_label + ":"@,
                    "    xor rax, rax"@,
                    "    call _printf"@,
                ] + sep_lines,
                next_counter(next_counter(labels)),
            )
        },
        _ => {
            let fmt: Seq<char> = match ty {
                ValueType::Integer => "fmt_int"@,
                ValueType::Float => "fmt_float"@,
                ValueType::Str => "fmt_str"@,
                _ => "fmt_null"@,
            };
            (
                seq![
                    "    push rax"@,
                    "    lea rdi, [rel "@ + fmt + "]"@,
                    "    mov rsi, rax"@,
                    "    xor rax, rax"@,
                    "    call _printf"@,
                    "    pop rax"@,
                ] + sep_lines,
                labels,
            )
        },
    }
}

/// The lines printing the trailing newline of an `io.print`.
pub open spec fn newline_lines() -> Seq<Seq<char>> {
    seq!["    lea rdi, [rel fmt_newline]"@, "    xor rax, rax"@, "    call _printf"@]
}

/// The code one expression generates, with the kind of value it leaves in
/// the result register.
pub open spec fn gen_expr(e: Expression, st: GenState) -> Result<
    (GenState, ValueType),
    NativeGenError,
>
    decreases e, 1int,
{
    match e {
        Expression::IntegerLiteral { value } => Ok(
            (
                GenState {
                    lines: st.lines.push("    mov rax, "@ + int_str(value as int)),
                    labels: st.labels,
                    strings: st.strings,
                    floats: st.floats,
                },
                ValueType::Integer,
            ),
        ),
        Expression::FloatLiteral { value } => {
            let lab = label_text(st.labels);
            Ok(
                (
                    GenState {
                        lines: st.lines.push("    movsd xmm0, [rel "@ + lab + "]"@),
                        labels: next_counter(st.labels),
                        strings: st.strings,
                        floats: st.floats.push((lab, float_text_of(value))),
                    },
                    ValueType::Float,
                ),
            )
        },
        Expression::StringLiteral { value } => {
            let lab = label_text(st.labels);
            Ok(
                (
                    GenState {
                        lines: st.lines.push("    lea rax, [rel "@ + lab + "]"@),
                        labels: next_counter(st.labels),
                        strings: st.strings.push((lab, escaped_string(value@))),
                        floats: st.floats,
                    },
                    ValueType::Str,
                ),
            )
        },
        Expression::BooleanLiteral { value } => Ok(
            (
                GenState {
                    lines: st.lines.push(
                        if value {
                            "    mov rax, 1"@
                        } else {
                            "    mov rax, 0"@
                        },
                    ),
                    labels: st.labels,
                    strings: st.strings,
                    floats: st.floats,
                },
                ValueType::Boolean,
            ),
        ),
        Expression::NullLiteral => Ok(
            (
                GenState {
                    lines: st.lines.push("    xor rax, rax"@),
                    labels: st.labels,
                    strings: st.strings,
                    floats: st.floats,
                },
                ValueType::Null,
            ),
        ),
        Expression::BinaryOperation { operator, left, right } => {
            if operator == BinaryOperator::Assign {
                gen_assignment(*left, *right, st)
            } else {
                match gen_expr(*left, st) {
                    Ok((st1, _lt)) => {
                        let st1b = GenState {
                            lines: st1.lines.push("    push rax        ; Save left operand"@),
                            labels: st1.labels,
                            strings: st1.strings,
                            floats: st1.floats,
                        };
                        match gen_expr(*right, st1b) {
                            Ok((st2, _rt)) => {
                                let st2b = GenState {
                                    lines: st2.lines.push(
                                        "    mov rbx, rax    ; Right operand in rbx"@,
                                    ).push("    pop rax         ; Left operand in rax"@),
                                    labels: st2.labels,
                                    strings: st2.strings,
                                    floats: st2.floats,
                                };
                                match operator_lines(operator, st2b.labels) {
                                    Ok((ls, labs, ty)) => Ok(
                                        (
                                            GenState {
                                                lines: st2b.lines + ls,
                                                labels: labs,
                                                strings: st2b.strings,
                                                floats: st2b.floats,
                                            },
                                            ty,
                                        ),
                                    ),
                                    Err(er) => Err(er),
                                }
                            },
                            Err(er) => Err(er),
                        }
                    },
                    Err(er) => Err(er),
                }
            }
        },
        Expression::Identifier { value } => {
            let slot = slot_of_name(value@);
            Ok(
                (
                    GenState {
                        lines: st.lines.push(
                            "    mov rax, [rel LVAR_STORAGE + "@ + dec_str(slot * 8) + "]"@,
                        ),
                        labels: st.labels,
                        strings: st.strings,
                        floats: st.floats,
                    },
                    ValueType::Integer,
                ),
            )
        },
        Expression::Call { function, arguments } => gen_call(*function, arguments@, st),
        Expression::Program { name: _, parameters: _, body } => match gen_seq(
            body.expressions@,
            st,
            ValueType::Null,
        ) {
            Ok((st1, _ty)) => Ok((st1, ValueType::Null)),
            Err(er) => Err(er),
        },
        Expression::Block { block } => gen_seq(block.expressions@, st, ValueType::Null),
        _ => Err(NativeGenError::UnsupportedExpression),
    }
}

/// An assignment: the right side is generated, then stored into the left
/// identifier's hashed slot.
pub open spec fn gen_assignment(left: Expression, right: Expression, st: GenState) -> Result<
    (GenState, ValueType),
    NativeGenError,
>
    decreases right, 2int,
{
    match left {
        Expression::Identifier { value } => {
            let slot = slot_of_name(value@);
            match gen_expr(right, st) {
                Ok((st1, ty)) => Ok(
                    (
                        GenState {
                            lines: st1.lines.push(
                                "    mov [rel LVAR_STORAGE + "@ + dec_str(slot * 8) + "], rax"@,
                            ),
                            labels: st1.labels,
                            strings: st1.strings,
                            floats: st1.floats,
                        },
                        ty,
                    ),
                ),
                Err(er) => Err(er),
            }
        },
        _ => Err(NativeGenError::AssignToNonIdentifier),
    }
}

/// A call: only the `io` built-ins are recognized.
pub open spec fn gen_call(function: Expression, args: Seq<Expression>, st: GenState) -> Result<
    (GenState, ValueType),
    NativeGenError,
>
    decreases args, 2int,
{
    match function {
        Expression::IndexName { operator: _, expression, name } => match *expression {
            Expression::Identifier { value } => {
                if value@ == "io"@ {
                    gen_io(name, args, st)
                } else {
                    Err(NativeGenError::UnknownFunction)
                }
            },
            _ => Err(NativeGenError::UnknownFunction),
        },
        _ => Err(NativeGenError::UnknownFunction),
    }
}

/// A sequence of expressions, each generated in order; the kind of the
/// last one is the sequence's kind.
pub open spec fn gen_seq(es: Seq<Expression>, st: GenState, last: ValueType) -> Result<
    (GenState, ValueType),
    NativeGenError,
>
    decreases es, 0int,
{
    if es.len() == 0 {
        Ok((st, last))
    } else {
        match gen_expr(es[0], st) {
            Ok((st1, ty)) => gen_seq(es.drop_first(), st1, ty),
            Err(er) => Err(er),
        }
    }
}

/// The arguments of an `io` call: each is generated and printed in turn,
/// with a separator after every argument but the last when `with_sep`.
pub open spec fn gen_print_args(args: Seq<Expression>, st: GenState, with_sep: bool) -> Result<
    GenState,
    NativeGenError,
>
    decreases args, 0int,
{
    if args.len() == 0 {
        Ok(st)
    } else {
        match gen_expr(args[0], st) {
            Ok((st1, ty)) => {
                let (ls, labs) = print_arg_effect(ty, st1.labels, with_sep && args.len() > 1);
                gen_print_args(
                    args.drop_first(),
                    GenState {
                        lines: st1.lines + ls,
                        labels: labs,
                        strings: st1.strings,
                        floats: st1.floats,
                    },
                    with_sep,
                )
            },
            Err(er) => Err(er),
        }
    }
}

/// An `io` call: `print` space-separates its arguments and appends a
/// newline; `printf` does neither; anything else is rejected.
pub open spec fn gen_io(name: String, args: Seq<Expression>, st: GenState) -> Result<
    (GenState, ValueType),
    NativeGenError,
>
    decreases args, 1int,
{
    if name@ == "print"@ {
        match gen_print_args(args, st, true) {
            Ok(st1) => Ok(
                (
                    GenState {
                        lines: st1.lines + newline_lines(),
                        labels: st1.labels,
                        strings: st1.strings,
                        floats: st1.floats,
                    },
                    ValueType::Null,
                ),
            ),
            Err(er) => Err(er),
        }
    } else if name@ == "printf"@ {
        match gen_print_args(args, st, false) {
            Ok(st1) => Ok((st1, ValueType::Null)),
            Err(er) => Err(er),
        }
    } else {
        Err(NativeGenError::UnknownIoFunction(name))
    }
}

/// The whole generated module, from a base state: header, data, storage
/// and text sections, the entry point, the program's code, the exit
/// sequence, then both literal pools.
pub open spec fn gen_program(es: Seq<Expression>, base: GenState) -> Result<
    GenState,
    NativeGenError,
> {
    let st0 = GenState {
        lines: base.lines + header_lines() + data_lines() + text_lines() + start_lines(),
        labels: base.labels,
        strings: base.strings,
        floats: base.floats,
    };
    match gen_seq(es, st0, ValueType::Null) {
        Ok((st1, _ty)) => Ok(
            GenState {
                lines: st1.lines + exit_lines() + string_pool_lines(st1.strings)
                    + float_pool_lines(st1.floats),
                labels: st1.labels,
                strings: st1.strings,
                floats: st1.floats,
            },
        ),
        Err(er) => Err(er),
    }
}

/// The final assembly text of a whole program, from a base state.
pub open spec fn gen_program_text(es: Seq<Expression>, base: GenState) -> Result<
    Seq<char>,
    NativeGenError,
> {
    match gen_program(es, base) {
        Ok(st) => Ok(joined_lines(st.lines, 0)),
        Err(er) => Err(er),
    }
}

/// Generates x86-64 assembly text for a whole program.
pub struct X86_64CodeGen {
    output: Vec<String>,
    label_counter: u64,
    string_literals: Vec<(String, String)>,
    float_literals: Vec<(String, String)>,
}

impl X86_64CodeGen {
    /// The generator's state model.
    pub closed spec fn gen_state(self) -> GenState {
        GenState {
            lines: texts(self.output@),
            labels: self.label_counter,
            strings: pool_texts(self.string_literals@),
            floats: pool_texts(self.float_literals@),
        }
    }

    /// A fresh generator: no lines, no labels, empty pools.
    pub fn new() -> (g: X86_64CodeGen)
        ensures
            g.gen_state() == (GenState {
                lines: Seq::<Seq<char>>::empty(),
                labels: 0u64,
                strings: Seq::<(Seq<char>, Seq<char>)>::empty(),
                floats: Seq::<(Seq<char>, Seq<char>)>::empty(),
            }),
    {
        let g = X86_64CodeGen {
            output: Vec::new(),
            label_counter: 0,
            string_literals: Vec::new(),
            float_literals: Vec::new(),
        };
        proof {
            assert(texts(g.output@) =~= Seq::<Seq<char>>::empty());
            assert(pool_texts(g.string_literals@) =~= Seq::<(Seq<char>, Seq<char>)>::empty());
            assert(pool_texts(g.float_literals@) =~= Seq::<(Seq<char>, Seq<char>)>::empty());
        }
        g
    }

    /// Appends one fixed line.
    fn emit(&mut self, line: &str)
        ensures
            final(self).gen_state() == (GenState {
                lines: old(self).gen_state().lines.push(line@),
                labels: old(self).gen_state().labels,
                strings: old(self).gen_state().strings,
                floats: old(self).gen_state().floats,
            }),
    {
        self.output.push(line.to_owned());
        proof {
            assert(texts(self.output@) =~= texts(old(self).output@).push(line@));
        }
    }

    /// Appends one built line.
    fn emit_owned(&mut self, line: String)
        ensures
            final(self).gen_state() == (GenState {
                lines: old(self).gen_state().lines.push(line@),
                labels: old(self).gen_state().labels,
                strings: old(self).gen_state().strings,
                floats: old(self).gen_state().floats,
            }),
    {
        let ghost l = line@;
        self.output.push(line);
        proof {
            assert(texts(self.output@) =~= texts(old(self).output@).push(l));
        }
    }

    /// Emits the header comment.
    fn emit_header(&mut self)
        ensures
            final(self).gen_state() == (GenState {
                lines: old(self).gen_state().lines + header_lines(),
                labels: old(self).gen_state().labels,
                strings: old(self).gen_state().strings,
                floats: old(self).gen_state().floats,
            }),
    {
        self.emit("; ADAN compiled to x86-64 assembly (Linux System V ABI)");
        self.emit("");
        proof {
            assert(texts(self.output@) =~= old(self).gen_state().lines + header_lines());
        }
    }

    /// Emits the data section with the fixed format strings.
    fn emit_data_section(&mut self)
        ensures
            final(self).gen_state() == (GenState {
                lines: old(self).gen_state().lines + data_lines(),
                labels: old(self).gen_state().labels,
                strings: old(self).gen_state().strings,
                floats: old(self).gen_state().floats,
            }),
    {
        self.emit("section .data");
        self.emit("    fmt_int: db \"%ld\", 0");
        self.emit("    fmt_float: db \"%.15g\", 0");
        self.emit("    fmt_str: db \"%s\", 0");
        self.emit("    fmt_bool_true: db \"true\", 0");
        self.emit("    fmt_bool_false: db \"false\", 0");
        self.emit("    fmt_null: db \"null\", 0");
        self.emit("    fmt_newline: db 10, 0");
        self.emit("    fmt_space: db \" \", 0");
        self.emit("");
        proof {
            assert(texts(self.output@) =~= old(self).gen_state().lines + data_lines());
        }
    }

    /// Emits the reserved variable storage and the text section prologue.
    fn emit_text_section(&mut self)
        ensures
            final(self).gen_state() == (GenState {
                lines: old(self).gen_state().lines + text_lines(),
                labels: old(self).gen_state().labels,
                strings: old(self).gen_state().strings,
                floats: old(self).gen_state().floats,
            }),
    {
        self.emit("section .bss");
        self.emit("LVAR_STORAGE: resq 1000    ; Storage for variables");
        self.emit("");
        self.emit("section .text");
        self.emit("    global _main");
        self.emit("    extern _printf");
        self.emit("    extern _exit");
        self.emit("    extern _strlen");
        self.emit("    extern _malloc");
        self.emit("    extern _strcpy");
        self.emit("    extern _strcat");
        self.emit("");
        proof {
            assert(texts(self.output@) =~= old(self).gen_state().lines + text_lines());
        }
    }

    /// Emits the program entry point.
    fn emit_start(&mut self)
        ensures
            final(self).gen_state() == (GenState {
                lines: old(self).gen_state().lines + start_lines(),
                labels: old(self).gen_state().labels,
                strings: old(self).gen_state().strings,
                floats: old(self).gen_state().floats,
            }),
    {
        self.emit("_main:");
        self.emit("    push rbp");
        self.emit("    mov rbp, rsp");
        self.emit("");
        proof {
            assert(texts(self.output@) =~= old(self).gen_state().lines + start_lines());
        }
    }

    /// Emits the exit sequence.
    fn emit_exit(&mut self)
        ensures
            final(self).gen_state() == (GenState {
                lines: old(self).gen_state().lines + exit_lines(),
                labels: old(self).gen_state().labels,
                strings: old(self).gen_state().strings,
                floats: old(self).gen_state().floats,
            }),
    {
        self.emit("");
        self.emit("    ; Exit program");
        self.emit("    mov rsp, rbp");
        self.emit("    pop rbp");
        self.emit("    xor rdi, rdi        ; exit code 0");
        self.emit("    call _exit");
        self.emit("");
        proof {
            assert(texts(self.output@) =~= old(self).gen_state().lines + exit_lines());
        }
    }

    /// Flushes the string literal pool.
    fn emit_string_literals(&mut self)
        ensures
            final(self).gen_state() == (GenState {
                lines: old(self).gen_state().lines + string_pool_lines(
                    old(self).gen_state().strings,
                ),
                labels: old(self).gen_state().labels,
                strings: old(self).gen_state().strings,
                floats: old(self).gen_state().floats,
            }),
    {
        let ghost pool = pool_texts(self.string_literals@);
        let ghost base = self.gen_state().lines;
        if self.string_literals.len() == 0 {
            proof {
                assert(base + string_pool_lines(pool) =~= base);
                assert(final(self).gen_state().lines =~= base);
            }
            return ;
        }
        self.emit("section .data");
        let ghost target = base + seq!["section .data"@] + string_entry_lines(pool, 0);
        let mut i: usize = 0;
        proof {
            assert((base + seq!["section .data"@]) + string_entry_lines(pool, 0) =~= target);
            assert(self.gen_state().lines =~= base + seq!["section .data"@]);
        }
        while i < self.string_literals.len()
            invariant
                i <= self.string_literals@.len(),
                pool == pool_texts(self.string_literals@),
                self.gen_state().labels == old(self).gen_state().labels,
                self.gen_state().strings == old(self).gen_state().strings,
                self.gen_state().floats == old(self).gen_state().floats,
                pool == old(self).gen_state().strings,
                base == old(self).gen_state().lines,
                target == base + seq!["section .data"@] + string_entry_lines(pool, 0),
                self.gen_state().lines + string_entry_lines(pool, i as int) == target,
            decreases self.string_literals@.len() - i,
        {
            let mut line = String::from_str("    ");
            line.append(self.string_literals[i].0.as_str());
            line.append(": db ");
            line.append(self.string_literals[i].1.as_str());
            line.append(", 0");
            let ghost before = self.gen_state().lines;
            proof {
                assert(line@ =~= string_entry_line(pool[i as int].0, pool[i as int].1));
            }
            self.emit_owned(line);
            proof {
                assert(before.push(string_entry_line(pool[i as int].0, pool[i as int].1))
                    + string_entry_lines(pool, i as int + 1) =~= before + string_entry_lines(
                    pool,
                    i as int,
                ));
            }
            i = i + 1;
        }
        self.emit("");
        proof {
            assert(string_entry_lines(pool, pool.len() as int) =~= Seq::<Seq<char>>::empty());
            assert(final(self).gen_state().lines =~= base + string_pool_lines(pool));
        }
    }

    /// Flushes the float literal pool.
    fn emit_float_literals(&mut self)
        ensures
            final(self).gen_state() == (GenState {
                lines: old(self).gen_state().lines + float_pool_lines(
                    old(self).gen_state().floats,
                ),
                labels: old(self).gen_state().labels,
                strings: old(self).gen_state().strings,
                floats: old(self).gen_state().floats,
            }),
    {
        let ghost pool = pool_texts(self.float_literals@);
        let ghost base = self.gen_state().lines;
        if self.float_literals.len() == 0 {
            proof {
                assert(base + float_pool_lines(pool) =~= base);
                assert(final(self).gen_state().lines =~= base);
            }
            return ;
        }
        self.emit("section .data");
        let ghost target = base + seq!["section .data"@] + float_entry_lines(pool, 0);
        let mut i: usize = 0;
        proof {
            assert((base + seq!["section .data"@]) + float_entry_lines(pool, 0) =~= target);
            assert(self.gen_state().lines =~= base + seq!["section .data"@]);
        }
        while i < self.float_literals.len()
            invariant
                i <= self.float_literals@.len(),
                pool == pool_texts(self.float_literals@),
                self.gen_state().labels == old(self).gen_state().labels,
                self.gen_state().strings == old(self).gen_state().strings,
                self.gen_state().floats == old(self).gen_state().floats,
                pool == old(self).gen_state().floats,
                base == old(self).gen_state().lines,
                target == base + seq!["section .data"@] + float_entry_lines(pool, 0),
                self.gen_state().lines + float_entry_lines(pool, i as int) == target,
            decreases self.float_literals@.len() - i,
        {
            let mut line = String::from_str("    ");
            line.append(self.float_literals[i].0.as_str());
            line.append(": dq ");
            line.append(self.float_literals[i].1.as_str());
            let ghost before = self.gen_state().lines;
            proof {
                assert(line@ =~= float_entry_line(pool[i as int].0, pool[i as int].1));
            }
            self.emit_owned(line);
            proof {
                assert(before.push(float_entry_line(pool[i as int].0, pool[i as int].1))
                    + float_entry_lines(pool, i as int + 1) =~= before + float_entry_lines(
                    pool,
                    i as int,
                ));
            }
            i = i + 1;
        }
        self.emit("");
        proof {
            assert(float_entry_lines(pool, pool.len() as int) =~= Seq::<Seq<char>>::empty());
            assert(final(self).gen_state().lines =~= base + float_pool_lines(pool));
        }
    }

    /// Takes a fresh label.
    fn new_label(&mut self) -> (l: String)
        ensures
            l@ == label_text(old(self).gen_state().labels),
            final(self).gen_state() == (GenState {
                lines: old(self).gen_state().lines,
                labels: next_counter(old(self).gen_state().labels),
                strings: old(self).gen_state().strings,
                floats: old(self).gen_state().floats,
            }),
    {
        let mut l = String::from_str(".L");
        push_u64_text(&mut l, self.label_counter);
        self.label_counter = self.label_counter.wrapping_add(1);
        l
    }

    /// The storage slot of a variable name.
    pub fn hash_variable_name(&self, name: &str) -> (slot: usize)
        ensures
            slot == slot_of_name(name@),
            slot < 1000,
    {
        hash_name(name)
    }

    /// Escapes a string literal for the NASM data directive.
    fn escape_string(&self, s: &str) -> (r: String)
        ensures
            r@ == escaped_string(s@),
    {
        let cs = chars_vec(s);
        let mut result = String::from_str("\"");
        proof {
            reveal_strlit("\"");
            assert(result@ =~= seq!['"']);
            assert(seq!['"'] + escape_pieces(s@, 0) =~= result@ + escape_pieces(s@, 0));
        }
        let mut i: usize = 0;
        while i < cs.len()
            invariant
                cs@ == s@,
                i <= cs@.len(),
                result@ + escape_pieces(s@, i as int) == seq!['"'] + escape_pieces(s@, 0),
            decreases cs@.len() - i,
        {
            let c = cs[i];
            let ghost before = result@;
            if c == '\n' {
                result.append("\", 10, \"");
            } else if c == '\t' {
                result.append("\", 9, \"");
            } else if c == '"' {
                result.append("\\\"");
            } else {
                push_char(&mut result, c);
            }
            proof {
                assert(result@ =~= before + escape_piece(s@[i as int]));
                assert((before + escape_piece(s@[i as int])) + escape_pieces(s@, i as int + 1)
                    =~= before + escape_pieces(s@, i as int));
            }
            i = i + 1;
        }
        proof {
            assert(escape_pieces(s@, s@.len() as int) =~= Seq::<char>::empty());
            assert(result@ + Seq::<char>::empty() =~= result@);
        }
        push_char(&mut result, '"');
        proof {
            assert(result@ =~= escaped_string(s@));
        }
        result
    }

    /// Compiles a whole program to assembly text.
    pub fn compile(&mut self, expressions: &[Expression]) -> (r: Result<String, NativeGenError>)
        ensures
            match (r, gen_program_text(expressions@, old(self).gen_state())) {
                (Ok(s), Ok(t)) => s@ == t,
                (Err(e), Err(e2)) => e == e2,
                _ => false,
            },
    {
        self.emit_header();
        self.emit_data_section();
        self.emit_text_section();
        self.emit_start();
        proof {
            assert(self.gen_state().lines =~= old(self).gen_state().lines + header_lines()
                + data_lines() + text_lines() + start_lines());
        }
        match self.compile_sequence(expressions) {
            Ok(_ty) => {},
            Err(er) => {
                return Err(er);
            },
        }
        let ghost stq = self.gen_state();
        self.emit_exit();
        self.emit_string_literals();
        self.emit_float_literals();
        proof {
            assert(self.gen_state().lines =~= stq.lines + exit_lines() + string_pool_lines(
                stq.strings,
            ) + float_pool_lines(stq.floats));
        }
        Ok(join_output(&self.output))
    }

    /// Compiles each expression of a sequence in order.
    fn compile_sequence(&mut self, es: &[Expression]) -> (r: Result<ValueType, NativeGenError>)
        ensures
            match (r, gen_seq(es@, old(self).gen_state(), ValueType::Null)) {
                (Ok(ty), Ok(p)) => ty == p.1 && final(self).gen_state() == p.0,
                (Err(e), Err(e2)) => e == e2,
                _ => false,
            },
        decreases es@, 0int,
    {
        let ghost whole = es@;
        let mut last = ValueType::Null;
        let mut i: usize = 0;
        proof {
            assert(whole.skip(0) =~= whole);
        }
        while i < es.len()
            invariant
                i <= whole.len(),
                es@ == whole,
                match gen_seq(whole.skip(i as int), self.gen_state(), last) {
                    Ok(p) => gen_seq(whole, old(self).gen_state(), ValueType::Null) == Ok::<
                        (GenState, ValueType),
                        NativeGenError,
                    >(p),
                    Err(e) => gen_seq(whole, old(self).gen_state(), ValueType::Null) == Err::<
                        (GenState, ValueType),
                        NativeGenError,
                    >(e),
                },
            decreases whole.len() - i,
        {
            proof {
                assert(whole.skip(i as int).len() > 0);
                assert(whole.skip(i as int)[0] == whole[i as int]);
                assert(whole.skip(i as int).drop_first() =~= whole.skip(i as int + 1));
            }
            match self.compile_expression(&es[i]) {
                Ok(ty) => {
                    last = ty;
                },
                Err(er) => {
                    return Err(er);
                },
            }
            i = i + 1;
        }
        proof {
            assert(whole.skip(whole.len() as int) =~= Seq::<Expression>::empty());
        }
        Ok(last)
    }

    /// Compiles one expression, leaving its value in the result register.
    fn compile_expression(&mut self, e: &Expression) -> (r: Result<ValueType, NativeGenError>)
        ensures
            match (r, gen_expr(*e, old(self).gen_state())) {
                (Ok(ty), Ok(p)) => ty == p.1 && final(self).gen_state() == p.0,
                (Err(er), Err(e2)) => er == e2,
                _ => false,
            },
        decreases e, 1int,
    {
        match e {
            Expression::IntegerLiteral { value } => {
                let mut line = String::from_str("    mov rax, ");
                crate::text::push_i64_text(&mut line, *value);
                self.emit_owned(line);
                Ok(ValueType::Integer)
            },
            Expression::FloatLiteral { value } => {
                let label = self.new_label();
                let text = float_text(*value);
                let ghost lab = label@;
                self.float_literals.push((label, text));
                proof {
                    assert(pool_texts(self.float_literals@) =~= old(
                        self,
                    ).gen_state().floats.push((lab, float_text_of(*value))));
                }
                let mut line = String::from_str("    movsd xmm0, [rel ");
                let entry = &self.float_literals[self.float_literals.len() - 1];
                line.append(entry.0.as_str());
                line.append("]");
                self.emit_owned(line);
                Ok(ValueType::Float)
            },
            Expression::StringLiteral { value } => {
                let label = self.new_label();
                let escaped = self.escape_string(value.as_str());
                let ghost lab = label@;
                self.string_literals.push((label, escaped));
                proof {
                    assert(pool_texts(self.string_literals@) =~= old(
                        self,
                    ).gen_state().strings.push((lab, escaped_string(value@))));
                }
                let mut line = String::from_str("    lea rax, [rel ");
                let entry = &self.string_literals[self.string_literals.len() - 1];
                line.append(entry.0.as_str());
                line.append("]");
                self.emit_owned(line);
                Ok(ValueType::Str)
            },
            Expression::BooleanLiteral { value } => {
                if *value {
                    self.emit("    mov rax, 1");
                } else {
                    self.emit("    mov rax, 0");
                }
                Ok(ValueType::Boolean)
            },
            Expression::NullLiteral => {
                self.emit("    xor rax, rax");
                Ok(ValueType::Null)
            },
            Expression::BinaryOperation { operator, left, right } => {
                if *operator == BinaryOperator::Assign {
                    self.compile_assignment(left, right)
                } else {
                    match self.compile_expression(left) {
                        Ok(_lt) => {},
                        Err(er) => {
                            return Err(er);
                        },
                    }
                    self.emit("    push rax        ; Save left operand");
                    match self.compile_expression(right) {
                        Ok(_rt) => {},
                        Err(er) => {
                            return Err(er);
                        },
                    }
                    self.emit("    mov rbx, rax    ; Right operand in rbx");
                    self.emit("    pop rax         ; Left operand in rax");
                    let ghost st2b = self.gen_state();
                    let result_type = match operator {
                        BinaryOperator::Add => {
                            self.emit("    add rax, rbx");
                            ValueType::Integer
                        },
                        BinaryOperator::Subtract => {
                            self.emit("    sub rax, rbx");
                            ValueType::Integer
                        },
                        BinaryOperator::Multiply => {
                            self.emit("    imul rax, rbx");
                            ValueType::Integer
                        },
                        BinaryOperator::Divide => {
                            self.emit("    xor rdx, rdx");
                            self.emit("    idiv rbx");
                            ValueType::Integer
                        },
                        BinaryOperator::Modulo => {
                            self.emit("    xor rdx, rdx");
                            self.emit("    idiv rbx");
                            self.emit("    mov rax, rdx");
                            ValueType::Integer
                        },
                        BinaryOperator::Exponentiate => {
                            self.emit("    push rcx");
                            self.emit("    push rdx");
                            self.emit("    mov rcx, rbx        ; exponent in rcx");
                            self.emit("    mov rbx, rax        ; base in rbx");
                            self.emit("    mov rax, 1          ; result = 1");
                            self.emit("    test rcx, rcx");
                            let loop_label = self.new_label();
                            let done_label = self.new_label();
                            let mut l1 = String::from_str("    jle ");
                            l1.append(done_label.as_str());
                            self.emit_owned(l1);
                            let mut l2 = loop_label.clone();
                            l2.append(":");
                            self.emit_owned(l2);
                            self.emit("    imul rax, rbx       ; result *= base");
                            self.emit("    dec rcx");
                            let mut l3 = String::from_str("    jnz ");
                            l3.append(loop_label.as_str());
                            self.emit_owned(l3);
                            let mut l4 = done_label.clone();
                            l4.append(":");
                            self.emit_owned(l4);
                            self.emit("    pop rdx");
                            self.emit("    pop rcx");
                            ValueType::Integer
                        },
                        BinaryOperator::And => {
                            self.emit("    test rax, rax");
                            self.emit("    setnz al");
                            self.emit("    test rbx, rbx");
                            self.emit("    setnz bl");
                            self.emit("    and al, bl");
                            self.emit("    movzx rax, al");
                            ValueType::Boolean
                        },
                        BinaryOperator::Or => {
                            self.emit("    test rax, rax");
                            self.emit("    setnz al");
                            self.emit("    test rbx, rbx");
                            self.emit("    setnz bl");
                            self.emit("    or al, bl");
                            self.emit("    movzx rax, al");
                            ValueType::Boolean
                        },
                        BinaryOperator::Concatenate => {
                            self.emit("    push rax        ; Save left string");
                            self.emit("    mov rdi, rax    ; Left string for _strlen");
                            self.emit("    call _strlen");
                            self.emit("    mov r12, rax    ; Save left length in r12");
                            self.emit("    pop rax         ; Restore left string");
                            self.emit("    push rax        ; Save left string again");
                            self.emit("    mov rdi, rbx    ; Right string for _strlen");
                            self.emit("    call _strlen");
                            self.emit("    mov r13, rax    ; Save right length in r13");
                            self.emit("    mov rdi, r12    ; Left length");
                            self.emit("    add rdi, r13    ; + right length");
                            self.emit("    add rdi, 1      ; + null terminator");
                            self.emit("    call _malloc");
                            self.emit("    mov r14, rax    ; Save result buffer in r14");
                            self.emit("    mov rdi, r14    ; Destination");
                            self.emit("    pop rsi         ; Source (left string)");
                            self.emit("    push rsi        ; Save left string again");
                            self.emit("    call _strcpy");
                            self.emit("    mov rdi, r14    ; Destination");
                            self.emit("    mov rsi, rbx    ; Source (right string)");
                            self.emit("    call _strcat");
                            self.emit("    pop rax         ; Clean up stack");
                            self.emit("    mov rax, r14    ; Result pointer in rax");
                            ValueType::Str
                        },
                        BinaryOperator::Equal => {
                            self.emit("    cmp rax, rbx");
                            self.emit("    sete al");
                            self.emit("    movzx rax, al");
                            ValueType::Boolean
                        },
                        BinaryOperator::NotEqual => {
                            self.emit("    cmp rax, rbx");
                            self.emit("    setne al");
                            self.emit("    movzx rax, al");
                            ValueType::Boolean
                        },
                        BinaryOperator::LessThan => {
                            self.emit("    cmp rax, rbx");
                            self.emit("    setl al");
                            self.emit("    movzx rax, al");
                            ValueType::Boolean
                        },
                        BinaryOperator::GreaterThan => {
                            self.emit("    cmp rax, rbx");
                            self.emit("    setg al");
                            self.emit("    movzx rax, al");
                            ValueType::Boolean
                        },
                        BinaryOperator::LessThanOrEqual => {
                            self.emit("    cmp rax, rbx");
                            self.emit("    setle al");
                            self.emit("    movzx rax, al");
                            ValueType::Boolean
                        },
                        BinaryOperator::GreaterThanOrEqual => {
                            self.emit("    cmp rax, rbx");
                            self.emit("    setge al");
                            self.emit("    movzx rax, al");
                            ValueType::Boolean
                        },
                        BinaryOperator::Assign => {
                            return Err(NativeGenError::UnsupportedOperator);
                        },
                    };
                    proof {
                        let spec_ls = operator_lines(*operator, st2b.labels)->Ok_0;
                        assert(self.gen_state().lines =~= st2b.lines + spec_ls.0);
                    }
                    Ok(result_type)
                }
            },
            Expression::Identifier { value } => {
                let slot = self.hash_variable_name(value.as_str());
                let mut line = String::from_str("    mov rax, [rel LVAR_STORAGE + ");
                push_u64_text(&mut line, (slot as u64) * 8);
                line.append("]");
                self.emit_owned(line);
                Ok(ValueType::Integer)
            },
            Expression::Call { function, arguments } => self.compile_call(function, arguments),
            Expression::Program { name: _, parameters: _, body } => {
                match self.compile_sequence(body.expressions.as_slice()) {
                    Ok(_ty) => Ok(ValueType::Null),
                    Err(er) => Err(er),
                }
            },
            Expression::Block { block } => self.compile_sequence(block.expressions.as_slice()),
            _ => Err(NativeGenError::UnsupportedExpression),
        }
    }

    /// Compiles an assignment: the right side, then a store into the left
    /// identifier's hashed slot.
    fn compile_assignment(&mut self, left: &Expression, right: &Expression) -> (r: Result<
        ValueType,
        NativeGenError,
    >)
        ensures
            match (r, gen_assignment(*left, *right, old(self).gen_state())) {
                (Ok(ty), Ok(p)) => ty == p.1 && final(self).gen_state() == p.0,
                (Err(er), Err(e2)) => er == e2,
                _ => false,
            },
        decreases right, 2int,
    {
        match left {
            Expression::Identifier { value } => {
                let value_type = match self.compile_expression(right) {
                    Ok(ty) => ty,
                    Err(er) => {
                        return Err(er);
                    },
                };
                let slot = self.hash_variable_name(value.as_str());
                let mut line = String::from_str("    mov [rel LVAR_STORAGE + ");
                push_u64_text(&mut line, (slot as u64) * 8);
                line.append("], rax");
                self.emit_owned(line);
                Ok(value_type)
            },
            _ => Err(NativeGenError::AssignToNonIdentifier),
        }
    }

    /// Compiles a call: only the `io` built-ins are recognized.
    fn compile_call(&mut self, function: &Expression, arguments: &Vec<Expression>) -> (r: Result<
        ValueType,
        NativeGenError,
    >)
        ensures
            match (r, gen_call(*function, arguments@, old(self).gen_state())) {
                (Ok(ty), Ok(p)) => ty == p.1 && final(self).gen_state() == p.0,
                (Err(er), Err(e2)) => er == e2,
                _ => false,
            },
        decreases arguments@, 2int,
    {
        match function {
            Expression::IndexName { operator: _, expression, name } => {
                match &**expression {
                    Expression::Identifier { value } => {
                        if str_eq(value.as_str(), "io") {
                            self.compile_io_function(name, arguments)
                        } else {
                            Err(NativeGenError::UnknownFunction)
                        }
                    },
                    _ => Err(NativeGenError::UnknownFunction),
                }
            },
            _ => Err(NativeGenError::UnknownFunction),
        }
    }

    /// Emits the printing of one argument by its kind.
    fn print_arg(&mut self, ty: ValueType, with_sep: bool)
        ensures
            final(self).gen_state() == ({
                let effect = print_arg_effect(ty, old(self).gen_state().labels, with_sep);
                GenState {
                    lines: old(self).gen_state().lines + effect.0,
                    labels: effect.1,
                    strings: old(self).gen_state().strings,
                    floats: old(self).gen_state().floats,
                }
            }),
    {
        match ty {
            ValueType::Boolean => {
                let false_label = self.new_label();
                let print_label = self.new_label();
                self.emit("    cmp rax, 0");
                let mut l1 = String::from_str("    je ");
                l1.append(false_label.as_str());
                self.emit_owned(l1);
                self.emit("    lea rdi, [rel fmt_bool_true]");
                let mut l2 = String::from_str("    jmp ");
                l2.append(print_label.as_str());
                self.emit_owned(l2);
                let mut l3 = false_label.clone();
                l3.append(":");
                self.emit_owned(l3);
                self.emit("    lea rdi, [rel fmt_bool_false]");
                let mut l4 = print_label.clone();
                l4.append(":");
                self.emit_owned(l4);
                self.emit("    xor rax, rax");
                self.emit("    call _printf");
                if with_sep {
                    self.emit("    lea rdi, [rel fmt_space]");
                    self.emit("    xor rax, rax");
                    self.emit("    call _printf");
                }
                proof {
                    let effect = print_arg_effect(ty, old(self).gen_state().labels, with_sep);
                    assert(self.gen_state().lines =~= old(self).gen_state().lines + effect.0);
                }
            },
            _ => {
                let fmt = match ty {
                    ValueType::Integer => "fmt_int",
                    ValueType::Float => "fmt_float",
                    ValueType::Str => "fmt_str",
                    _ => "fmt_null",
                };
                self.emit("    push rax");
                let mut l1 = String::from_str("    lea rdi, [rel ");
                l1.append(fmt);
                l1.append("]");
                self.emit_owned(l1);
                self.emit("    mov rsi, rax");
                self.emit("    xor rax, rax");
                self.emit("    call _printf");
                self.emit("    pop rax");
                if with_sep {
                    self.emit("    lea rdi, [rel fmt_space]");
                    self.emit("    xor rax, rax");
                    self.emit("    call _printf");
                }
                proof {
                    let effect = print_arg_effect(ty, old(self).gen_state().labels, with_sep);
                    assert(self.gen_state().lines =~= old(self).gen_state().lines + effect.0);
                }
            },
        }
    }

    /// Compiles an `io` call: the arguments are generated and printed one
    /// by one, `print` with separators and a trailing newline.
    fn compile_io_function(&mut self, name: &String, arguments: &Vec<Expression>) -> (r: Result<
        ValueType,
        NativeGenError,
    >)
        ensures
            match (r, gen_io(*name, arguments@, old(self).gen_state())) {
                (Ok(ty), Ok(p)) => ty == p.1 && final(self).gen_state() == p.0,
                (Err(er), Err(e2)) => er == e2,
                _ => false,
            },
        decreases arguments@, 1int,
    {
        let is_print = str_eq(name.as_str(), "print");
        let is_printf = str_eq(name.as_str(), "printf");
        if !is_print && !is_printf {
            return Err(NativeGenError::UnknownIoFunction(name.clone()));
        }
        let ghost whole = arguments@;
        let mut i: usize = 0;
        proof {
            assert(whole.skip(0) =~= whole);
        }
        while i < arguments.len()
            invariant
                i <= whole.len(),
                arguments@ == whole,
                is_print == (name@ == "print"@),
                is_printf == (name@ == "printf"@),
                is_print || is_printf,
                match gen_print_args(whole.skip(i as int), self.gen_state(), is_print) {
                    Ok(st) => gen_print_args(whole, old(self).gen_state(), is_print) == Ok::<
                        GenState,
                        NativeGenError,
                    >(st),
                    Err(e) => gen_print_args(whole, old(self).gen_state(), is_print) == Err::<
                        GenState,
                        NativeGenError,
                    >(e),
                },
            decreases whole.len() - i,
        {
            proof {
                assert(whole.skip(i as int).len() > 0);
                assert(whole.skip(i as int)[0] == whole[i as int]);
                assert(whole.skip(i as int).drop_first() =~= whole.skip(i as int + 1));
            }
            let arg_type = match self.compile_expression(&arguments[i]) {
                Ok(ty) => ty,
                Err(er) => {
                    return Err(er);
                },
            };
            self.print_arg(arg_type, is_print && i + 1 < arguments.len());
            i = i + 1;
        }
        proof {
            assert(whole.skip(whole.len() as int) =~= Seq::<Expression>::empty());
        }
        if is_print {
            let ghost st1 = self.gen_state();
            self.emit("    lea rdi, [rel fmt_newline]");
            self.emit("    xor rax, rax");
            self.emit("    call _printf");
            proof {
                assert(self.gen_state().lines =~= st1.lines + newline_lines());
            }
        }
        Ok(ValueType::Null)
    }
}

} // verus!
