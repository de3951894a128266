//! The AArch64 code generator (GAS syntax, macOS): one walk of the
//! expression tree, emitting assembly text lines, with label-keyed string
//! and float literal pools flushed at the end.  String concatenation is
//! not lowered by this generator and is rejected with an error.
//!
//! The generator's meaning is given by the `gen_*` spec functions over
//! `GenState`; `compile` is proved to produce exactly that text.
use vstd::prelude::*;

use crate::ast::{BinaryOperator, Expression};
use crate::float_bits::{float_text, float_text_of};
use crate::native::{
    hash_name, join_output, joined_lines, pool_texts, slot_of_name, texts, GenState,
    NativeGenError, ValueType,
};
use crate::text::{chars_vec, dec_str, push_char, push_u64_text, str_eq};
use vstd::string::StringExecFns;
use vstd::wrapping::u64_specs;

verus! {

/// The label counter after one more label.
pub open spec fn next_counter(n: u64) -> u64 {
    u64_specs::wrapping_add(n, 1)
}

/// The text of label number `n`.
pub open spec fn label_text(n: u64) -> Seq<char> {
    "L"@ + dec_str(n as nat)
}

/// The header comment.
pub open spec fn header_lines() -> Seq<Seq<char>> {
    seq!["; ADAN compiled to ARM64 assembly (macOS)"@, ""@]
}

/// The data section with the fixed format strings.
pub open spec fn data_lines() -> Seq<Seq<char>> {
    seq![
        ".data"@,
        ".align 3"@,
        "fmt_int: .asciz \"%lld\""@,
        "fmt_float: .asciz \"%.15g\""@,
        "fmt_str: .asciz \"%s\""@,
        "fmt_bool_true: .asciz \"true\""@,
        "fmt_bool_false: .asciz \"false\""@,
        "fmt_null: .asciz \"null\""@,
        "fmt_newline: .asciz \"\\n\""@,
        "fmt_space: .asciz \" \""@,
        ""@,
    ]
}

/// The reserved variable storage and the text section prologue.
pub open spec fn text_lines() -> Seq<Seq<char>> {
    seq![
        ".bss"@,
        ".align 3"@,
        "var_storage: .space 8000    ; Storage for 1000 variables"@,
        ""@,
        ".text"@,
        ".global _main"@,
        ".align 2"@,
        ""@,
    ]
}

/// The program entry point.
pub open spec fn start_lines() -> Seq<Seq<char>> {
    seq!["_main:"@, "    stp x29, x30, [sp, #-16]!"@, "    mov x29, sp"@, ""@]
}

/// The exit sequence.
pub open spec fn exit_lines() -> Seq<Seq<char>> {
    seq![
        ""@,
        "    ; Exit program"@,
        "    mov w0, #0              ; exit code 0"@,
        "    ldp x29, x30, [sp], #16"@,
        "    ret"@,
        ""@,
    ]
}

/// One string pool entry line.
pub open spec fn string_entry_line(label: Seq<char>, value: Seq<char>) -> Seq<char> {
    label + ": .asciz "@ + value
}

/// One float pool entry line.
pub open spec fn float_entry_line(label: Seq<char>, value: Seq<char>) -> Seq<char> {
    label + ": .double "@ + value
}

/// The string pool entry lines from `idx` on.
pub open spec fn string_entry_lines(pool: Seq<(Seq<char>, Seq<char>)>, idx: int) -> Seq<Seq<char>>
    decreases pool.len() - idx,
{
    if idx < 0 || idx >= pool.len() {
        Seq::empty()
    } else {
        seq![string_entry_line(pool[idx].0, pool[idx].1)] + string_entry_lines(pool, idx + 1)
    }
}

/// The float pool entry lines from `idx` on.
pub open spec fn float_entry_lines(pool: Seq<(Seq<char>, Seq<char>)>, idx: int) -> Seq<Seq<char>>
    decreases pool.len() - idx,
{
    if idx < 0 || idx >= pool.len() {
        Seq::empty()
    } else {
        seq![float_entry_line(pool[idx].0, pool[idx].1)] + float_entry_lines(pool, idx + 1)
    }
}

/// The flushed string pool: nothing when empty.
pub open spec fn string_pool_lines(pool: Seq<(Seq<char>, Seq<char>)>) -> Seq<Seq<char>> {
    if pool.len() == 0 {
        Seq::empty()
    } else {
        seq![".data"@, ".align 3"@] + string_entry_lines(pool, 0) + seq![""@]
    }
}

/// The flushed float pool: nothing when empty.
pub open spec fn float_pool_lines(pool: Seq<(Seq<char>, Seq<char>)>) -> Seq<Seq<char>> {
    if pool.len() == 0 {
        Seq::empty()
    } else {
        seq![".data"@, ".align 3"@] + float_entry_lines(pool, 0) + seq![""@]
    }
}

/// The expansion of one character in a GAS string literal.
pub open spec fn escape_piece(c: char) -> Seq<char> {
    if c == '\n' {
        "\\n"@
    } else if c == '\t' {
        "\\t"@
    } else if c == '"' {
        "\\\""@
    } else if c == '\\' {
        "\\\\"@
    } else {
        seq![c]
    }
}

/// The expansions of the characters from `idx` on.
pub open spec fn escape_pieces(s: Seq<char>, idx: int) -> Seq<char>
    decreases s.len() - idx,
{
    if idx < 0 || idx >= s.len() {
        Seq::empty()
    } else {
        escape_piece(s[idx]) + escape_pieces(s, idx + 1)
    }
}

/// A string literal escaped for GAS, in double quotes.
pub open spec fn escaped_string(s: Seq<char>) -> Seq<char> {
    seq!['"'] + escape_pieces(s, 0) + seq!['"']
}

/// What one ordinary operator appends after its operands are in `x0` and
/// `x1`: its lines and its result kind.  The power loop uses two fixed
/// labels; concatenation is not lowered.
pub open spec fn operator_lines(op: BinaryOperator) -> Result<
    (Seq<Seq<char>>, ValueType),
    NativeGenError,
> {
    match op {
        BinaryOperator::Add => Ok((seq!["    add x0, x0, x1"@], ValueType::Integer)),
        BinaryOperator::Subtract => Ok((seq!["    sub x0, x0, x1"@], ValueType::Integer)),
        BinaryOperator::Multiply => Ok((seq!["    mul x0, x0, x1"@], ValueType::Integer)),
        BinaryOperator::Divide => Ok((seq!["    sdiv x0, x0, x1"@], ValueType::Integer)),
        BinaryOperator::Modulo => Ok(
            (seq!["    sdiv x2, x0, x1"@, "    msub x0, x2, x1, x0"@], ValueType::Integer),
        ),
        BinaryOperator::Exponentiate => Ok(
            (
                seq![
                    "    mov x2, x1              ; exponent in x2"@,
                    "    mov x3, x0              ; base in x3"@,
                    "    mov x0, #1              ; result = 1"@,
                    "    cmp x2, #0"@,
                    "    ble Lpow_done"@,
                    "Lpow_loop:"@,
                    "    mul x0, x0, x3          ; result *= base"@,
                    "    sub x2, x2, #1"@,
                    "    cmp x2, #0"@,
                    "    bgt Lpow_loop"@,
                    "Lpow_done:"@,
                ],
                ValueType::Integer,
            ),
        ),
        BinaryOperator::And => Ok(
            (
                seq![
                    "    cmp x0, #0"@,
                    "    cset x0, ne             ; x0 = (x0 != 0)"@,
                    "    cmp x1, #0"@,
                    "    cset x1, ne             ; x1 = (x1 != 0)"@,
                    "    and x0, x0, x1          ; x0 = x0 && x1"@,
                ],
                ValueType::Boolean,
            ),
        ),
        BinaryOperator::Or => Ok(
            (
                seq![
                    "    cmp x0, #0"@,
                    "    cset x0, ne             ; x0 = (x0 != 0)"@,
                    "    cmp x1, #0"@,
                    "    cset x1, ne             ; x1 = (x1 != 0)"@,
                    "    orr x0, x0, x1          ; x0 = x0 || x1"@,
                ],
                ValueType::Boolean,
            ),
        ),
        BinaryOperator::Concatenate => Err(NativeGenError::ConcatenationUnsupported),
        BinaryOperator::Equal => Ok(
            (seq!["    cmp x0, x1"@, "    cset x0, eq"@], ValueType::Boolean),
        ),
        BinaryOperator::NotEqual => Ok(
            (seq!["    cmp x0, x1"@, "    cset x0, ne"@], ValueType::Boolean),
        ),
        BinaryOperator::LessThan => Ok(
            (seq!["    cmp x0, x1"@, "    cset x0, lt"@], ValueType::Boolean),
        ),
        BinaryOperator::GreaterThan => Ok(
            (seq!["    cmp x0, x1"@, "    cset x0, gt"@], ValueType::Boolean),
        ),
        BinaryOperator::LessThanOrEqual => Ok(
            (seq!["    cmp x0, x1"@, "    cset x0, le"@], ValueType::Boolean),
        ),
        BinaryOperator::GreaterThanOrEqual => Ok(
            (seq!["    cmp x0, x1"@, "    cset x0, ge"@], ValueType::Boolean),
        ),
        BinaryOperator::Assign => Err(NativeGenError::UnsupportedOperator),
    }
}

/// The three lines addressing the variable storage block.
pub open spec fn storage_addr_lines() -> Seq<Seq<char>> {
    seq!["    adrp x1, var_storage@PAGE"@, "    add x1, x1, var_storage@PAGEOFF"@]
}

/// The lines printing one argument of an `io` call, by its kind; a
/// boolean selects its text with a conditional-select sequence.  The
/// value-move line carries a comment only in separated (`print`) mode.
pub open spec fn print_arg_effect(ty: ValueType, with_sep: bool, commented: bool) -> Seq<
    Seq<char>,
> {
    let sep_lines: Seq<Seq<char>> = if with_sep {
        seq![
            "    adrp x0, fmt_space@PAGE"@,
            "    add x0, x0, fmt_space@PAGEOFF"@,
            "    bl _printf"@,
        ]
    } else {
        Seq::empty()
    };
    match ty {
        ValueType::Boolean => seq![
            "    cmp x0, #0"@,
            "    adrp x0, fmt_bool_false@PAGE"@,
            "    add x0, x0, fmt_bool_false@PAGEOFF"@,
            "    adrp x1, fmt_bool_true@PAGE"@,
            "    add x1, x1, fmt_bool_true@PAGEOFF"@,
            "    csel x0, x1, x0, ne"@,
            "    bl _printf"@,
        ] + sep_lines,
        _ => {
            let fmt: Seq<char> = match ty {
                ValueType::Integer => "fmt_int"@,
                ValueType::Float => "fmt_float"@,
                ValueType::Str => "fmt_str"@,
                _ => "fmt_null"@,
            };
            let move_line: Seq<char> = if commented {
                "    mov x1, x0              ; Value to print"@
            } else {
                "    mov x1, x0"@
            };
            seq![
                move_line,
                "    adrp x0, "@ + fmt + "@PAGE"@,
                "    add x0, x0, "@ + fmt + "@PAGEOFF"@,
                "    bl _printf"@,
            ] + sep_lines
        },
    }
}

/// The lines printing the trailing newline of an `io.print`.
pub open spec fn newline_lines() -> Seq<Seq<char>> {
    seq![
        "    adrp x0, fmt_newline@PAGE"@,
        "    add x0, x0, fmt_newline@PAGEOFF"@,
        "    bl _printf"@,
    ]
}

/// The code one expression generates, with the kind of value it leaves in
/// the result register.
pub open spec fn gen_expr(e: Expression, st: GenState) -> Result<
    (GenState, ValueType),
    NativeGenError,
>
    decreases e, 1int,
{
    match e {
        Expression::IntegerLiteral { value } => Ok(
            (
                GenState {
                    lines: st.lines.push("    mov x0, #"@ + crate::text::int_str(value as int)),
                    labels: st.labels,
                    strings: st.strings,
                    floats: st.floats,
                },
                ValueType::Integer,
            ),
        ),
        Expression::FloatLiteral { value } => {
            let lab = label_text(st.labels);
            Ok(
                (
                    GenState {
                        lines: st.lines.push("    adrp x1, "@ + lab + "@PAGE"@).push(
                            "    add x1, x1, "@ + lab + "@PAGEOFF"@,
                        ).push("    ldr d0, [x1]"@),
                        labels: next_counter(st.labels),
                        strings: st.strings,
                        floats: st.floats.push((lab, float_text_of(value))),
                    },
                    ValueType::Float,
                ),
            )
        },
        Expression::StringLiteral { value } => {
            let lab = label_text(st.labels);
            Ok(
                (
                    GenState {
                        lines: st.lines.push("    adrp x0, "@ + lab + "@PAGE"@).push(
                            "    add x0, x0, "@ + lab + "@PAGEOFF"@,
                        ),
                        labels: next_counter(st.labels),
                        strings: st.strings.push((lab, escaped_string(value@))),
                        floats: st.floats,
                    },
                    ValueType::Str,
                ),
            )
        },
        Expression::BooleanLiteral { value } => Ok(
            (
                GenState {
                    lines: st.lines.push(
                        if value {
                            "    mov x0, #1"@
                        } else {
                            "    mov x0, #0"@
                        },
                    ),
                    labels: st.labels,
                    strings: st.strings,
                    floats: st.floats,
                },
                ValueType::Boolean,
            ),
        ),
        Expression::NullLiteral => Ok(
            (
                GenState {
                    lines: st.lines.push("    mov x0, #0"@),
                    labels: st.labels,
                    strings: st.strings,
                    floats: st.floats,
                },
                ValueType::Null,
            ),
        ),
        Expression::BinaryOperation { operator, left, right } => {
            if operator == BinaryOperator::Assign {
                gen_assignment(*left, *right, st)
            } else {
                match gen_expr(*left, st) {
                    Ok((st1, _lt)) => {
                        let st1b = GenState {
                            lines: st1.lines.push("    str x0, [sp, #-16]!    ; Save left operand"@),
                            labels: st1.labels,
                            strings: st1.strings,
                            floats: st1.floats,
                        };
                        match gen_expr(*right, st1b) {
                            Ok((st2, _rt)) => {
                                let st2b = GenState {
                                    lines: st2.lines.push(
                                        "    mov x1, x0              ; Right in x1"@,
                                    ).push("    ldr x0, [sp], #16      ; Left in x0"@),
                                    labels: st2.labels,
                                    strings: st2.strings,
                                    floats: st2.floats,
                                };
                                match operator_lines(operator) {
                                    Ok((ls, ty)) => Ok(
                                        (
                                            GenState {
                                                lines: st2b.lines + ls,
                                                labels: st2b.labels,
                                                strings: st2b.strings,
                                                floats: st2b.floats,
                                            },
                                            ty,
                                        ),
                                    ),
                                    Err(er) => Err(er),
                                }
                            },
                            Err(er) => Err(er),
                        }
                    },
                    Err(er) => Err(er),
                }
            }
        },
        Expression::Identifier { value } => {
            let slot = slot_of_name(value@);
            Ok(
                (
                    GenState {
                        lines: st.lines + storage_addr_lines() + seq![
                            "    ldr x0, [x1, #"@ + dec_str(slot * 8) + "]"@,
                        ],
                        labels: st.labels,
                        strings: st.strings,
                        floats: st.floats,
                    },
                    ValueType::Integer,
                ),
            )
        },
        Expression::Call { function, arguments } => gen_call(*function, arguments@, st),
        Expression::Program { name: _, parameters: _, body } => match gen_seq(
            body.expressions@,
            st,
            ValueType::Null,
        ) {
            Ok((st1, _ty)) => Ok((st1, ValueType::Null)),
            Err(er) => Err(er),
        },
        Expression::Block { block } => gen_seq(block.expressions@, st, ValueType::Null),
        _ => Err(NativeGenError::UnsupportedExpression),
    }
}

/// An assignment: the right side is generated, then stored into the left
/// identifier's hashed slot.
pub open spec fn gen_assignment(left: Expression, right: Expression, st: GenState) -> Result<
    (GenState, ValueType),
    NativeGenError,
>
    decreases right, 2int,
{
    match left {
        Expression::Identifier { value } => {
            let slot = slot_of_name(value@);
            match gen_expr(right, st) {
                Ok((st1, ty)) => Ok(
                    (
                        GenState {
                            lines: st1.lines + storage_addr_lines() + seq![
                                "    str x0, [x1, #"@ + dec_str(slot * 8) + "]"@,
                            ],
                            labels: st1.labels,
                            strings: st1.strings,
                            floats: st1.floats,
                        },
                        ty,
                    ),
                ),
                Err(er) => Err(er),
            }
        },
        _ => Err(NativeGenError::AssignToNonIdentifier),
    }
}

/// A call: only the `io` built-ins are recognized.
pub open spec fn gen_call(function: Expression, args: Seq<Expression>, st: GenState) -> Result<
    (GenState, ValueType),
    NativeGenError,
>
    decreases args, 2int,
{
    match function {
        Expression::IndexName { operator: _, expression, name } => match *expression {
            Expression::Identifier { value } => {
                if value@ == "io"@ {
                    gen_io(name, args, st)
                } else {
                    Err(NativeGenError::UnknownFunction)
                }
            },
            _ => Err(NativeGenError::UnknownFunction),
        },
        _ => Err(NativeGenError::UnknownFunction),
    }
}

/// A sequence of expressions, each generated in order; the kind of the
/// last one is the sequence's kind.
pub open spec fn gen_seq(es: Seq<Expression>, st: GenState, last: ValueType) -> Result<
    (GenState, ValueType),
    NativeGenError,
>
    decreases es, 0int,
{
    if es.len() == 0 {
        Ok((st, last))
    } else {
        match gen_expr(es[0], st) {
            Ok((st1, ty)) => gen_seq(es.drop_first(), st1, ty),
            Err(er) => Err(er),
        }
    }
}

/// The arguments of an `io` call: each is generated and printed in turn,
/// with a separator after every argument but the last when `with_sep`.
pub open spec fn gen_print_args(args: Seq<Expression>, st: GenState, with_sep: bool) -> Result<
    GenState,
    NativeGenError,
>
    decreases args, 0int,
{
    if args.len() == 0 {
        Ok(st)
    } else {
        match gen_expr(args[0], st) {
            Ok((st1, ty)) => {
                let ls = print_arg_effect(ty, with_sep && args.len() > 1, with_sep);
                gen_print_args(
                    args.drop_first(),
                    GenState {
                        lines: st1.lines + ls,
                        labels: st1.labels,
                        strings: st1.strings,
                        floats: st1.floats,
                    },
                    with_sep,
                )
            },
            Err(er) => Err(er),
        }
    }
}

/// An `io` call: `print` space-separates its arguments and appends a
/// newline; `printf` does neither; anything else is rejected.
pub open spec fn gen_io(name: String, args: Seq<Expression>, st: GenState) -> Result<
    (GenState, ValueType),
    NativeGenError,
>
    decreases args, 1int,
{
    if name@ == "print"@ {
        match gen_print_args(args, st, true) {
            Ok(st1) => Ok(
                (
                    GenState {
                        lines: st1.lines + newline_lines(),
                        labels: st1.labels,
                        strings: st1.strings,
                        floats: st1.floats,
                    },
                    ValueType::Null,
                ),
            ),
            Err(er) => Err(er),
        }
    } else if name@ == "printf"@ {
        match gen_print_args(args, st, false) {
            Ok(st1) => Ok((st1, ValueType::Null)),
            Err(er) => Err(er),
        }
    } else {
        Err(NativeGenError::UnknownIoFunction(name))
    }
}

/// The whole generated module, from a base state.
pub open spec fn gen_program(es: Seq<Expression>, base: GenState) -> Result<
    GenState,
    NativeGenError,
> {
    let st0 = GenState {
        lines: base.lines + header_lines() + data_lines() + text_lines() + start_lines(),
        labels: base.labels,
        strings: base.strings,
        floats: base.floats,
    };
    match gen_seq(es, st0, ValueType::Null) {
        Ok((st1, _ty)) => Ok(
            GenState {
                lines: st1.lines + exit_lines() + string_pool_lines(st1.strings)
                    + float_pool_lines(st1.floats),
                labels: st1.labels,
                strings: st1.strings,
                floats: st1.floats,
            },
        ),
        Err(er) => Err(er),
    }
}

/// The final assembly text of a whole program, from a base state.
pub open spec fn gen_program_text(es: Seq<Expression>, base: GenState) -> Result<
    Seq<char>,
    NativeGenError,
> {
    match gen_program(es, base) {
        Ok(st) => Ok(joined_lines(st.lines, 0)),
        Err(er) => Err(er),
    }
}

/// Generates AArch64 (macOS) assembly text for a whole program.
pub struct AArch64MacOSCodeGen {
    output: Vec<String>,
    label_counter: u64,
    string_literals: Vec<(String, String)>,
    float_literals: Vec<(String, String)>,
}

impl AArch64MacOSCodeGen {
    /// The generator's state model.
    pub closed spec fn gen_state(self) -> GenState {
        GenState {
            lines: texts(self.output@),
            labels: self.label_counter,
            strings: pool_texts(self.string_literals@),
            floats: pool_texts(self.float_literals@),
        }
    }

    /// A fresh generator: no lines, no labels, empty pools.
    pub fn new() -> (g: AArch64MacOSCodeGen)
        ensures
            g.gen_state() == (GenState {
                lines: Seq::<Seq<char>>::empty(),
                labels: 0u64,
                strings: Seq::<(Seq<char>, Seq<char>)>::empty(),
                floats: Seq::<(Seq<char>, Seq<char>)>::empty(),
            }),
    {
        let g = AArch64MacOSCodeGen {
            output: Vec::new(),
            label_counter: 0,
            string_literals: Vec::new(),
            float_literals: Vec::new(),
        };
        proof {
            assert(texts(g.output@) =~= Seq::<Seq<char>>::empty());
            assert(pool_texts(g.string_literals@) =~= Seq::<(Seq<char>, Seq<char>)>::empty());
            assert(pool_texts(g.float_literals@) =~= Seq::<(Seq<char>, Seq<char>)>::empty());
        }
        g
    }

    /// Appends one fixed line.
    fn emit(&mut self, line: &str)
        ensures
            final(self).gen_state() == (GenState {
                lines: old(self).gen_state().lines.push(line@),
                labels: old(self).gen_state().labels,
                strings: old(self).gen_state().strings,
                floats: old(self).gen_state().floats,
            }),
    {
        self.output.push(line.to_owned());
        proof {
            assert(texts(self.output@) =~= texts(old(self).output@).push(line@));
        }
    }

    /// Appends one built line.
    fn emit_owned(&mut self, line: String)
        ensures
            final(self).gen_state() == (GenState {
                lines: old(self).gen_state().lines.push(line@),
                labels: old(self).gen_state().labels,
                strings: old(self).gen_state().strings,
                floats: old(self).gen_state().floats,
            }),
    {
        let ghost l = line@;
        self.output.push(line);
        proof {
            assert(texts(self.output@) =~= texts(old(self).output@).push(l));
        }
    }

    /// Emits the header comment.
    fn emit_header(&mut self)
        ensures
            final(self).gen_state() == (GenState {
                lines: old(self).gen_state().lines + header_lines(),
                labels: old(self).gen_state().labels,
                strings: old(self).gen_state().strings,
                floats: old(self).gen_state().floats,
            }),
    {
        self.emit("; ADAN compiled to ARM64 assembly (macOS)");
        self.emit("");
        proof {
            assert(texts(self.output@) =~= old(self).gen_state().lines + header_lines());
        }
    }

    /// Emits the data section with the fixed format strings.
    fn emit_data_section(&mut self)
        ensures
            final(self).gen_state() == (GenState {
                lines: old(self).gen_state().lines + data_lines(),
                labels: old(self).gen_state().labels,
                strings: old(self).gen_state().strings,
                floats: old(self).gen_state().floats,
            }),
    {
        self.emit(".data");
        self.emit(".align 3");
        self.emit("fmt_int: .asciz \"%lld\"");
        self.emit("fmt_float: .asciz \"%.15g\"");
        self.emit("fmt_str: .asciz \"%s\"");
        self.emit("fmt_bool_true: .asciz \"true\"");
        self.emit("fmt_bool_false: .asciz \"false\"");
        self.emit("fmt_null: .asciz \"null\"");
        self.emit("fmt_newline: .asciz \"\\n\"");
        self.emit("fmt_space: .asciz \" \"");
        self.emit("");
        proof {
            assert(texts(self.output@) =~= old(self).gen_state().lines + data_lines());
        }
    }

    /// Emits the reserved variable storage and the text section prologue.
    fn emit_text_section(&mut self)
        ensures
            final(self).gen_state() == (GenState {
                lines: old(self).gen_state().lines + text_lines(),
                labels: old(self).gen_state().labels,
                strings: old(self).gen_state().strings,
                floats: old(self).gen_state().floats,
            }),
    {
        self.emit(".bss");
        self.emit(".align 3");
        self.emit("var_storage: .space 8000    ; Storage for 1000 variables");
        self.emit("");
        self.emit(".text");
        self.emit(".global _main");
        self.emit(".align 2");
        self.emit("");
        proof {
            assert(texts(self.output@) =~= old(self).gen_state().lines + text_lines());
        }
    }

    /// Emits the program entry point.
    fn emit_start(&mut self)
        ensures
            final(self).gen_state() == (GenState {
                lines: old(self).gen_state().lines + start_lines(),
                labels: old(self).gen_state().labels,
                strings: old(self).gen_state().strings,
                floats: old(self).gen_state().floats,
            }),
    {
        self.emit("_main:");
        self.emit("    stp x29, x30, [sp, #-16]!");
        self.emit("    mov x29, sp");
        self.emit("");
        proof {
            assert(texts(self.output@) =~= old(self).gen_state().lines + start_lines());
        }
    }

    /// Emits the exit sequence.
    fn emit_exit(&mut self)
        ensures
            final(self).gen_state() == (GenState {
                lines: old(self).gen_state().lines + exit_lines(),
                labels: old(self).gen_state().labels,
                strings: old(self).gen_state().strings,
                floats: old(self).gen_state().floats,
            }),
    {
        self.emit("");
        self.emit("    ; Exit program");
        self.emit("    mov w0, #0              ; exit code 0");
        self.emit("    ldp x29, x30, [sp], #16");
        self.emit("    ret");
        self.emit("");
        proof {
            assert(texts(self.output@) =~= old(self).gen_state().lines + exit_lines());
        }
    }

    /// Flushes the string literal pool.
    fn emit_string_literals(&mut self)
        ensures
            final(self).gen_state() == (GenState {
                lines: old(self).gen_state().lines + string_pool_lines(
                    old(self).gen_state().strings,
                ),
                labels: old(self).gen_state().labels,
                strings: old(self).gen_state().strings,
                floats: old(self).gen_state().floats,
            }),
    {
        let ghost pool = pool_texts(self.string_literals@);
        let ghost base = self.gen_state().lines;
        if self.string_literals.len() == 0 {
            proof {
                assert(base + string_pool_lines(pool) =~= base);
                assert(final(self).gen_state().lines =~= base);
            }
            return ;
        }
        self.emit(".data");
        self.emit(".align 3");
        let ghost target = base + seq![".data"@, ".align 3"@] + string_entry_lines(pool, 0);
        let mut i: usize = 0;
        proof {
            assert((base + seq![".data"@, ".align 3"@]) + string_entry_lines(pool, 0)
                =~= target);
            assert(self.gen_state().lines =~= base + seq![".data"@, ".align 3"@]);
        }
        while i < self.string_literals.len()
            invariant
                i <= self.string_literals@.len(),
                pool == pool_texts(self.string_literals@),
                self.gen_state().labels == old(self).gen_state().labels,
                self.gen_state().strings == old(self).gen_state().strings,
                self.gen_state().floats == old(self).gen_state().floats,
                pool == old(self).gen_state().strings,
                base == old(self).gen_state().lines,
                target == base + seq![".data"@, ".align 3"@] + string_entry_lines(pool, 0),
                self.gen_state().lines + string_entry_lines(pool, i as int) == target,
            decreases self.string_literals@.len() - i,
        {
            let mut line = self.string_literals[i].0.clone();
            line.append(": .asciz ");
            line.append(self.string_literals[i].1.as_str());
            let ghost before = self.gen_state().lines;
            proof {
                assert(line@ =~= string_entry_line(pool[i as int].0, pool[i as int].1));
            }
            self.emit_owned(line);
            proof {
                assert(before.push(string_entry_line(pool[i as int].0, pool[i as int].1))
                    + string_entry_lines(pool, i as int + 1) =~= before + string_entry_lines(
                    pool,
                    i as int,
                ));
            }
            i = i + 1;
        }
        self.emit("");
        proof {
            assert(string_entry_lines(pool, pool.len() as int) =~= Seq::<Seq<char>>::empty());
            assert(final(self).gen_state().lines =~= base + string_pool_lines(pool));
        }
    }

    /// Flushes the float literal pool.
    fn emit_float_literals(&mut self)
        ensures
            final(self).gen_state() == (GenState {
                lines: old(self).gen_state().lines + float_pool_lines(
                    old(self).gen_state().floats,
                ),
                labels: old(self).gen_state().labels,
                strings: old(self).gen_state().strings,
                floats: old(self).gen_state().floats,
            }),
    {
        let ghost pool = pool_texts(self.float_literals@);
        let ghost base = self.gen_state().lines;
        if self.float_literals.len() == 0 {
            proof {
                assert(base + float_pool_lines(pool) =~= base);
                assert(final(self).gen_state().lines =~= base);
            }
            return ;
        }
        self.emit(".data");
        self.emit(".align 3");
        let ghost target = base + seq![".data"@, ".align 3"@] + float_entry_lines(pool, 0);
        let mut i: usize = 0;
        proof {
            assert((base + seq![".data"@, ".align 3"@]) + float_entry_lines(pool, 0) =~= target);
            assert(self.gen_state().lines =~= base + seq![".data"@, ".align 3"@]);
        }
        while i < self.float_literals.len()
            invariant
                i <= self.float_literals@.len(),
                pool == pool_texts(self.float_literals@),
                self.gen_state().labels == old(self).gen_state().labels,
                self.gen_state().strings == old(self).gen_state().strings,
                self.gen_state().floats == old(self).gen_state().floats,
                pool == old(self).gen_state().floats,
                base == old(self).gen_state().lines,
                target == base + seq![".data"@, ".align 3"@] + float_entry_lines(pool, 0),
                self.gen_state().lines + float_entry_lines(pool, i as int) == target,
            decreases self.float_literals@.len() - i,
        {
            let mut line = self.float_literals[i].0.clone();
            line.append(": .double ");
            line.append(self.float_literals[i].1.as_str());
            let ghost before = self.gen_state().lines;
            proof {
                assert(line@ =~= float_entry_line(pool[i as int].0, pool[i as int].1));
            }
            self.emit_owned(line);
            proof {
                assert(before.push(float_entry_line(pool[i as int].0, pool[i as int].1))
                    + float_entry_lines(pool, i as int + 1) =~= before + float_entry_lines(
                    pool,
                    i as int,
                ));
            }
            i = i + 1;
        }
        self.emit("");
        proof {
            assert(float_entry_lines(pool, pool.len() as int) =~= Seq::<Seq<char>>::empty());
            assert(final(self).gen_state().lines =~= base + float_pool_lines(pool));
        }
    }

    /// Takes a fresh label.
    fn new_label(&mut self) -> (l: String)
        ensures
            l@ == label_text(old(self).gen_state().labels),
            final(self).gen_state() == (GenState {
                lines: old(self).gen_state().lines,
                labels: next_counter(old(self).gen_state().labels),
                strings: old(self).gen_state().strings,
                floats: old(self).gen_state().floats,
            }),
    {
        let mut l = String::from_str("L");
        push_u64_text(&mut l, self.label_counter);
        self.label_counter = self.label_counter.wrapping_add(1);
        l
    }

    /// The storage slot of a variable name.
    pub fn hash_variable_name(&self, name: &str) -> (slot: usize)
        ensures
            slot == slot_of_name(name@),
            slot < 1000,
    {
        hash_name(name)
    }

    /// Escapes a string literal for the GAS data directive.
    fn escape_string(&self, s: &str) -> (r: String)
        ensures
            r@ == escaped_string(s@),
    {
        let cs = chars_vec(s);
        let mut result = String::from_str("\"");
        proof {
            reveal_strlit("\"");
            assert(result@ =~= seq!['"']);
            assert(seq!['"'] + escape_pieces(s@, 0) =~= result@ + escape_pieces(s@, 0));
        }
        let mut i: usize = 0;
        while i < cs.len()
            invariant
                cs@ == s@,
                i <= cs@.len(),
                result@ + escape_pieces(s@, i as int) == seq!['"'] + escape_pieces(s@, 0),
            decreases cs@.len() - i,
        {
            let c = cs[i];
            let ghost before = result@;
            if c == '\n' {
                result.append("\\n");
            } else if c == '\t' {
                result.append("\\t");
            } else if c == '"' {
                result.append("\\\"");
            } else if c == '\\' {
                result.append("\\\\");
            } else {
                push_char(&mut result, c);
            }
            proof {
                assert(result@ =~= before + escape_piece(s@[i as int]));
                assert((before + escape_piece(s@[i as int])) + escape_pieces(s@, i as int + 1)
                    =~= before + escape_pieces(s@, i as int));
            }
            i = i + 1;
        }
        proof {
            assert(escape_pieces(s@, s@.len() as int) =~= Seq::<char>::empty());
            assert(result@ + Seq::<char>::empty() =~= result@);
        }
        push_char(&mut result, '"');
        proof {
            assert(result@ =~= escaped_string(s@));
        }
        result
    }

    /// Compiles a whole program to assembly text.
    pub fn compile(&mut self, expressions: &[Expression]) -> (r: Result<String, NativeGenError>)
        ensures
            match (r, gen_program_text(expressions@, old(self).gen_state())) {
                (Ok(s), Ok(t)) => s@ == t,
                (Err(e), Err(e2)) => e == e2,
                _ => false,
            },
    {
        self.emit_header();
        self.emit_data_section();
        self.emit_text_section();
        self.emit_start();
        proof {
            assert(self.gen_state().lines =~= old(self).gen_state().lines + header_lines()
                + data_lines() + text_lines() + start_lines());
        }
        match self.compile_sequence(expressions) {
            Ok(_ty) => {},
            Err(er) => {
                return Err(er);
            },
        }
        let ghost stq = self.gen_state();
        self.emit_exit();
        self.emit_string_literals();
        self.emit_float_literals();
        proof {
            assert(self.gen_state().lines =~= stq.lines + exit_lines() + string_pool_lines(
                stq.strings,
            ) + float_pool_lines(stq.floats));
        }
        Ok(join_output(&self.output))
    }

    /// Compiles each expression of a sequence in order.
    fn compile_sequence(&mut self, es: &[Expression]) -> (r: Result<ValueType, NativeGenError>)
        ensures
            match (r, gen_seq(es@, old(self).gen_state(), ValueType::Null)) {
                (Ok(ty), Ok(p)) => ty == p.1 && final(self).gen_state() == p.0,
                (Err(e), Err(e2)) => e == e2,
                _ => false,
            },
        decreases es@, 0int,
    {
        let ghost whole = es@;
        let mut last = ValueType::Null;
        let mut i: usize = 0;
        proof {
            assert(whole.skip(0) =~= whole);
        }
        while i < es.len()
            invariant
                i <= whole.len(),
                es@ == whole,
                match gen_seq(whole.skip(i as int), self.gen_state(), last) {
                    Ok(p) => gen_seq(whole, old(self).gen_state(), ValueType::Null) == Ok::<
                        (GenState, ValueType),
                        NativeGenError,
                    >(p),
                    Err(e) => gen_seq(whole, old(self).gen_state(), ValueType::Null) == Err::<
                        (GenState, ValueType),
                        NativeGenError,
                    >(e),
                },
            decreases whole.len() - i,
        {
            proof {
                assert(whole.skip(i as int).len() > 0);
                assert(whole.skip(i as int)[0] == whole[i as int]);
                assert(whole.skip(i as int).drop_first() =~= whole.skip(i as int + 1));
            }
            match self.compile_expression(&es[i]) {
                Ok(ty) => {
                    last = ty;
                },
                Err(er) => {
                    return Err(er);
                },
            }
            i = i + 1;
        }
        proof {
            assert(whole.skip(whole.len() as int) =~= Seq::<Expression>::empty());
        }
        Ok(last)
    }

    /// Compiles one expression, leaving its value in the result register.
    fn compile_expression(&mut self, e: &Expression) -> (r: Result<ValueType, NativeGenError>)
        ensures
            match (r, gen_expr(*e, old(self).gen_state())) {
                (Ok(ty), Ok(p)) => ty == p.1 && final(self).gen_state() == p.0,
                (Err(er), Err(e2)) => er == e2,
                _ => false,
            },
        decreases e, 1int,
    {
        match e {
            Expression::IntegerLiteral { value } => {
                let mut line = String::from_str("    mov x0, #");
                crate::text::push_i64_text(&mut line, *value);
                self.emit_owned(line);
                Ok(ValueType::Integer)
            },
            Expression::FloatLiteral { value } => {
                let label = self.new_label();
                let text = float_text(*value);
                let ghost lab = label@;
                let mut l1 = String::from_str("    adrp x1, ");
                l1.append(label.as_str());
                l1.append("@PAGE");
                let mut l2 = String::from_str("    add x1, x1, ");
                l2.append(label.as_str());
                l2.append("@PAGEOFF");
                self.float_literals.push((label, text));
                proof {
                    assert(pool_texts(self.float_literals@) =~= old(
                        self,
                    ).gen_state().floats.push((lab, float_text_of(*value))));
                }
                self.emit_owned(l1);
                self.emit_owned(l2);
                self.emit("    ldr d0, [x1]");
                Ok(ValueType::Float)
            },
            Expression::StringLiteral { value } => {
                let label = self.new_label();
                let escaped = self.escape_string(value.as_str());
                let ghost lab = label@;
                let mut l1 = String::from_str("    adrp x0, ");
                l1.append(label.as_str());
                l1.append("@PAGE");
                let mut l2 = String::from_str("    add x0, x0, ");
                l2.append(label.as_str());
                l2.append("@PAGEOFF");
                self.string_literals.push((label, escaped));
                proof {
                    assert(pool_texts(self.string_literals@) =~= old(
                        self,
                    ).gen_state().strings.push((lab, escaped_string(value@))));
                }
                self.emit_owned(l1);
                self.emit_owned(l2);
                Ok(ValueType::Str)
            },
            Expression::BooleanLiteral { value } => {
                if *value {
                    self.emit("    mov x0, #1");
                } else {
                    self.emit("    mov x0, #0");
                }
                Ok(ValueType::Boolean)
            },
            Expression::NullLiteral => {
                self.emit("    mov x0, #0");
                Ok(ValueType::Null)
            },
            Expression::BinaryOperation { operator, left, right } => {
                if *operator == BinaryOperator::Assign {
                    self.compile_assignment(left, right)
                } else {
                    match self.compile_expression(left) {
                        Ok(_lt) => {},
                        Err(er) => {
                            return Err(er);
                        },
                    }
                    self.emit("    str x0, [sp, #-16]!    ; Save left operand");
                    match self.compile_expression(right) {
                        Ok(_rt) => {},
                        Err(er) => {
                            return Err(er);
                        },
                    }
                    self.emit("    mov x1, x0              ; Right in x1");
                    self.emit("    ldr x0, [sp], #16      ; Left in x0");
                    let ghost st2b = self.gen_state();
                    let result_type = match operator {
                        BinaryOperator::Add => {
                            self.emit("    add x0, x0, x1");
                            ValueType::Integer
                        },
                        BinaryOperator::Subtract => {
                            self.emit("    sub x0, x0, x1");
                            ValueType::Integer
                        },
                        BinaryOperator::Multiply => {
                            self.emit("    mul x0, x0, x1");
                            ValueType::Integer
                        },
                        BinaryOperator::Divide => {
                            self.emit("    sdiv x0, x0, x1");
                            ValueType::Integer
                        },
                        BinaryOperator::Modulo => {
                            self.emit("    sdiv x2, x0, x1");
                            self.emit("    msub x0, x2, x1, x0");
                            ValueType::Integer
                        },
                        BinaryOperator::Exponentiate => {
                            self.emit("    mov x2, x1              ; exponent in x2");
                            self.emit("    mov x3, x0              ; base in x3");
                            self.emit("    mov x0, #1              ; result = 1");
                            self.emit("    cmp x2, #0");
                            self.emit("    ble Lpow_done");
                            self.emit("Lpow_loop:");
                            self.emit("    mul x0, x0, x3          ; result *= base");
                            self.emit("    sub x2, x2, #1");
                            self.emit("    cmp x2, #0");
                            self.emit("    bgt Lpow_loop");
                            self.emit("Lpow_done:");
                            ValueType::Integer
                        },
                        BinaryOperator::And => {
                            self.emit("    cmp x0, #0");
                            self.emit("    cset x0, ne             ; x0 = (x0 != 0)");
                            self.emit("    cmp x1, #0");
                            self.emit("    cset x1, ne             ; x1 = (x1 != 0)");
                            self.emit("    and x0, x0, x1          ; x0 = x0 && x1");
                            ValueType::Boolean
                        },
                        BinaryOperator::Or => {
                            self.emit("    cmp x0, #0");
                            self.emit("    cset x0, ne             ; x0 = (x0 != 0)");
                            self.emit("    cmp x1, #0");
                            self.emit("    cset x1, ne             ; x1 = (x1 != 0)");
                            self.emit("    orr x0, x0, x1          ; x0 = x0 || x1");
                            ValueType::Boolean
                        },
                        BinaryOperator::Concatenate => {
                            return Err(NativeGenError::ConcatenationUnsupported);
                        },
                        BinaryOperator::Equal => {
                            self.emit("    cmp x0, x1");
                            self.emit("    cset x0, eq");
                            ValueType::Boolean
                        },
                        BinaryOperator::NotEqual => {
                            self.emit("    cmp x0, x1");
                            self.emit("    cset x0, ne");
                            ValueType::Boolean
                        },
                        BinaryOperator::LessThan => {
                            self.emit("    cmp x0, x1");
                            self.emit("    cset x0, lt");
                            ValueType::Boolean
                        },
                        BinaryOperator::GreaterThan => {
                            self.emit("    cmp x0, x1");
                            self.emit("    cset x0, gt");
                            ValueType::Boolean
                        },
                        BinaryOperator::LessThanOrEqual => {
                            self.emit("    cmp x0, x1");
                            self.emit("    cset x0, le");
                            ValueType::Boolean
                        },
                        BinaryOperator::GreaterThanOrEqual => {
                            self.emit("    cmp x0, x1");
                            self.emit("    cset x0, ge");
                            ValueType::Boolean
                        },
                        BinaryOperator::Assign => {
                            return Err(NativeGenError::UnsupportedOperator);
                        },
                    };
                    proof {
                        let spec_ls = operator_lines(*operator)->Ok_0;
                        assert(self.gen_state().lines =~= st2b.lines + spec_ls.0);
                    }
                    Ok(result_type)
                }
            },
            Expression::Identifier { value } => {
                let slot = self.hash_variable_name(value.as_str());
                self.emit("    adrp x1, var_storage@PAGE");
                self.emit("    add x1, x1, var_storage@PAGEOFF");
                let mut line = String::from_str("    ldr x0, [x1, #");
                push_u64_text(&mut line, (slot as u64) * 8);
                line.append("]");
                self.emit_owned(line);
                proof {
                    assert(self.gen_state().lines =~= old(self).gen_state().lines
                        + storage_addr_lines() + seq![
                        "    ldr x0, [x1, #"@ + dec_str(slot_of_name(value@) * 8) + "]"@,
                    ]);
                }
                Ok(ValueType::Integer)
            },
            Expression::Call { function, arguments } => self.compile_call(function, arguments),
            Expression::Program { name: _, parameters: _, body } => {
                match self.compile_sequence(body.expressions.as_slice()) {
                    Ok(_ty) => Ok(ValueType::Null),
                    Err(er) => Err(er),
                }
            },
            Expression::Block { block } => self.compile_sequence(block.expressions.as_slice()),
            _ => Err(NativeGenError::UnsupportedExpression),
        }
    }

    /// Compiles an assignment: the right side, then a store into the left
    /// identifier's hashed slot.
    fn compile_assignment(&mut self, left: &Expression, right: &Expression) -> (r: Result<
        ValueType,
        NativeGenError,
    >)
        ensures
            match (r, gen_assignment(*left, *right, old(self).gen_state())) {
                (Ok(ty), Ok(p)) => ty == p.1 && final(self).gen_state() == p.0,
                (Err(er), Err(e2)) => er == e2,
                _ => false,
            },
        decreases right, 2int,
    {
        match left {
            Expression::Identifier { value } => {
                let value_type = match self.compile_expression(right) {
                    Ok(ty) => ty,
                    Err(er) => {
                        return Err(er);
                    },
                };
                let ghost st1 = self.gen_state();
                let slot = self.hash_variable_name(value.as_str());
                self.emit("    adrp x1, var_storage@PAGE");
                self.emit("    add x1, x1, var_storage@PAGEOFF");
                let mut line = String::from_str("    str x0, [x1, #");
                push_u64_text(&mut line, (slot as u64) * 8);
                line.append("]");
                self.emit_owned(line);
                proof {
                    assert(self.gen_state().lines =~= st1.lines + storage_addr_lines() + seq![
                        "    str x0, [x1, #"@ + dec_str(slot_of_name(value@) * 8) + "]"@,
                    ]);
                }
                Ok(value_type)
            },
            _ => Err(NativeGenError::AssignToNonIdentifier),
        }
    }

    /// Compiles a call: only the `io` built-ins are recognized.
    fn compile_call(&mut self, function: &Expression, arguments: &Vec<Expression>) -> (r: Result<
        ValueType,
        NativeGenError,
    >)
        ensures
            match (r, gen_call(*function, arguments@, old(self).gen_state())) {
                (Ok(ty), Ok(p)) => ty == p.1 && final(self).gen_state() == p.0,
                (Err(er), Err(e2)) => er == e2,
                _ => false,
            },
        decreases arguments@, 2int,
    {
        match function {
            Expression::IndexName { operator: _, expression, name } => {
                match &**expression {
                    Expression::Identifier { value } => {
                        if str_eq(value.as_str(), "io") {
                            self.compile_io_function(name, arguments)
                        } else {
                            Err(NativeGenError::UnknownFunction)
                        }
                    },
                    _ => Err(NativeGenError::UnknownFunction),
                }
            },
            _ => Err(NativeGenError::UnknownFunction),
        }
    }

    /// Emits the printing of one argument by its kind.
    fn print_arg(&mut self, ty: ValueType, with_sep: bool, commented: bool)
        ensures
            final(self).gen_state() == (GenState {
                lines: old(self).gen_state().lines + print_arg_effect(ty, with_sep, commented),
                labels: old(self).gen_state().labels,
                strings: old(self).gen_state().strings,
                floats: old(self).gen_state().floats,
            }),
    {
        match ty {
            ValueType::Boolean => {
                self.emit("    cmp x0, #0");
                self.emit("    adrp x0, fmt_bool_false@PAGE");
                self.emit("    add x0, x0, fmt_bool_false@PAGEOFF");
                self.emit("    adrp x1, fmt_bool_true@PAGE");
                self.emit("    add x1, x1, fmt_bool_true@PAGEOFF");
                self.emit("    csel x0, x1, x0, ne");
                self.emit("    bl _printf");
                if with_sep {
                    self.emit("    adrp x0, fmt_space@PAGE");
                    self.emit("    add x0, x0, fmt_space@PAGEOFF");
                    self.emit("    bl _printf");
                }
                proof {
                    assert(self.gen_state().lines =~= old(self).gen_state().lines
                        + print_arg_effect(ty, with_sep, commented));
                }
            },
            _ => {
                let fmt = match ty {
                    ValueType::Integer => "fmt_int",
                    ValueType::Float => "fmt_float",
                    ValueType::Str => "fmt_str",
                    _ => "fmt_null",
                };
                if commented {
                    self.emit("    mov x1, x0              ; Value to print");
                } else {
                    self.emit("    mov x1, x0");
                }
                let mut l1 = String::from_str("    adrp x0, ");
                l1.append(fmt);
                l1.append("@PAGE");
                self.emit_owned(l1);
                let mut l2 = String::from_str("    add x0, x0, ");
                l2.append(fmt);
                l2.append("@PAGEOFF");
                self.emit_owned(l2);
                self.emit("    bl _printf");
                if with_sep {
                    self.emit("    adrp x0, fmt_space@PAGE");
                    self.emit("    add x0, x0, fmt_space@PAGEOFF");
                    self.emit("    bl _printf");
                }
                proof {
                    assert(self.gen_state().lines =~= old(self).gen_state().lines
                        + print_arg_effect(ty, with_sep, commented));
                }
            },
        }
    }

    /// Compiles an `io` call: the arguments are generated and printed one
    /// by one, `print` with separators and a trailing newline.
    fn compile_io_function(&mut self, name: &String, arguments: &Vec<Expression>) -> (r: Result<
        ValueType,
        NativeGenError,
    >)
        ensures
            match (r, gen_io(*name, arguments@, old(self).gen_state())) {
                (Ok(ty), Ok(p)) => ty == p.1 && final(self).gen_state() == p.0,
                (Err(er), Err(e2)) => er == e2,
                _ => false,
            },
        decreases arguments@, 1int,
    {
        let is_print = str_eq(name.as_str(), "print");
        let is_printf = str_eq(name.as_str(), "printf");
        if !is_print && !is_printf {
            return Err(NativeGenError::UnknownIoFunction(name.clone()));
        }
        let ghost whole = arguments@;
        let mut i: usize = 0;
        proof {
            assert(whole.skip(0) =~= whole);
        }
        while i < arguments.len()
            invariant
                i <= whole.len(),
                arguments@ == whole,
                is_print == (name@ == "print"@),
                is_printf == (name@ == "printf"@),
                is_print || is_printf,
                match gen_print_args(whole.skip(i as int), self.gen_state(), is_print) {
                    Ok(st) => gen_print_args(whole, old(self).gen_state(), is_print) == Ok::<
                        GenState,
                        NativeGenError,
                    >(st),
                    Err(e) => gen_print_args(whole, old(self).gen_state(), is_print) == Err::<
                        GenState,
                        NativeGenError,
                    >(e),
                },
            decreases whole.len() - i,
        {
            proof {
                assert(whole.skip(i as int).len() > 0);
                assert(whole.skip(i as int)[0] == whole[i as int]);
                assert(whole.skip(i as int).drop_first() =~= whole.skip(i as int + 1));
            }
            let arg_type = match self.compile_expression(&arguments[i]) {
                Ok(ty) => ty,
                Err(er) => {
                    return Err(er);
                },
            };
            self.print_arg(arg_type, is_print && i + 1 < arguments.len(), is_print);
            i = i + 1;
        }
        proof {
            assert(whole.skip(whole.len() as int) =~= Seq::<Expression>::empty());
        }
        if is_print {
            let ghost st1 = self.gen_state();
            self.emit("    adrp x0, fmt_newline@PAGE");
            self.emit("    add x0, x0, fmt_newline@PAGEOFF");
            self.emit("    bl _printf");
            proof {
                assert(self.gen_state().lines =~= st1.lines + newline_lines());
            }
        }
        Ok(ValueType::Null)
    }
}

} // verus!
