//! The stack virtual machine: a single pass over a compiled instruction
//! sequence, against an explicit value stack and a global-name table.
//!
//! The machine's meaning is given by the spec functions `step` and
//! `run_from` over `VmSnap`, the mathematical state (stack, globals,
//! accumulated output); `execute` is proved to follow them exactly.
use vstd::prelude::*;

use crate::arith::{div_trunc, div_trunc_i64, exp32_of, ipow_wrap, ipow_wrapping, rem_trunc,
    rem_trunc_i64, wrap_add, wrap_mul, wrap_sub};
use crate::bytecode::{Chunk, Instruction};
use crate::float_bits::{exact_int_of, fadd_bits, fdiv_bits, float_add, float_div,
    float_exact_int, float_is_zero, float_le, float_le_bits, float_lt, float_lt_bits, float_mul,
    float_of_int, float_pow, float_rem, float_sub, fmod_bits, fmul_bits, fpow_bits, fsub_bits,
    int_to_float, is_zero_bits, ONE_BITS, QNAN_BITS};
use crate::globals::Globals;
use crate::text::{magnitude_u64, push_char};
use crate::value::{clone_value, eq_value, text_of, truthy, values_equal, push_value_text, Value,
    ValueModel};
use vstd::string::StringExecFns;

verus! {

/// A runtime failure; it aborts execution immediately.
#[derive(Debug, Clone, PartialEq)]
pub enum VmError {
    /// A `LoadGlobal` of a name never stored.
    UndefinedVariable(String),
    /// A pop from an empty stack.
    StackUnderflow,
    /// A division whose divisor is integer or float zero.
    DivisionByZero,
    /// A remainder whose divisor is integer or float zero.
    ModuloByZero,
    /// A two-operand instruction on values it does not accept.
    InvalidOperands(Instruction),
    /// A `Print` whose argument count is not an integer.
    PrintCount,
    /// A `PrintFormat` whose argument count is not an integer.
    PrintFormatCount,
}

impl VmError {
    /// The diagnostic message for this error.
    pub open spec fn message_spec(self) -> Seq<char> {
        match self {
            VmError::UndefinedVariable(n) => "Undefined variable: "@ + n@,
            VmError::StackUnderflow => "Stack underflow"@,
            VmError::DivisionByZero => "Division by zero"@,
            VmError::ModuloByZero => "Modulo by zero"@,
            VmError::InvalidOperands(i) => match i {
                Instruction::Add => "Invalid operands for addition"@,
                Instruction::Subtract => "Invalid operands for subtraction"@,
                Instruction::Multiply => "Invalid operands for multiplication"@,
                Instruction::Divide => "Invalid operands for division"@,
                Instruction::Modulo => "Invalid operands for modulo"@,
                Instruction::Exponentiate => "Invalid operands for exponentiation"@,
                Instruction::LessThan => "Invalid operands for less than"@,
                Instruction::LessThanOrEqual => "Invalid operands for less than or equal"@,
                Instruction::GreaterThan => "Invalid operands for greater than"@,
                Instruction::GreaterThanOrEqual => "Invalid operands for greater than or equal"@,
                _ => "Invalid operands"@,
            },
            VmError::PrintCount => "Print requires integer argument count"@,
            VmError::PrintFormatCount => "PrintFormat requires integer argument count"@,
        }
    }

    /// Renders the diagnostic message.
    pub fn message(&self) -> (r: String)
        ensures
            r@ == self.message_spec(),
    {
        match self {
            VmError::UndefinedVariable(n) => {
                let mut s = String::from_str("Undefined variable: ");
                s.append(n.as_str());
                s
            },
            VmError::StackUnderflow => String::from_str("Stack underflow"),
            VmError::DivisionByZero => String::from_str("Division by zero"),
            VmError::ModuloByZero => String::from_str("Modulo by zero"),
            VmError::InvalidOperands(i) => match i {
                Instruction::Add => String::from_str("Invalid operands for addition"),
                Instruction::Subtract => String::from_str("Invalid operands for subtraction"),
                Instruction::Multiply => String::from_str("Invalid operands for multiplication"),
                Instruction::Divide => String::from_str("Invalid operands for division"),
                Instruction::Modulo => String::from_str("Invalid operands for modulo"),
                Instruction::Exponentiate => String::from_str(
                    "Invalid operands for exponentiation",
                ),
                Instruction::LessThan => String::from_str("Invalid operands for less than"),
                Instruction::LessThanOrEqual => String::from_str(
                    "Invalid operands for less than or equal",
                ),
                Instruction::GreaterThan => String::from_str("Invalid operands for greater than"),
                Instruction::GreaterThanOrEqual => String::from_str(
                    "Invalid operands for greater than or equal",
                ),
                _ => String::from_str("Invalid operands"),
            },
            VmError::PrintCount => String::from_str("Print requires integer argument count"),
            VmError::PrintFormatCount => String::from_str(
                "PrintFormat requires integer argument count",
            ),
        }
    }
}

/// The sum of two values: integers wrap, floats follow IEEE-754, a mixed
/// pair widens the integer, and two strings concatenate.
pub open spec fn add_values(l: ValueModel, r: ValueModel) -> Result<ValueModel, VmError> {
    match (l, r) {
        (ValueModel::Integer(a), ValueModel::Integer(b)) => Ok(ValueModel::Integer(wrap_add(a, b))),
        (ValueModel::Float(a), ValueModel::Float(b)) => Ok(ValueModel::Float(fadd_bits(a, b))),
        (ValueModel::Integer(a), ValueModel::Float(b)) => Ok(
            ValueModel::Float(fadd_bits(float_of_int(a), b)),
        ),
        (ValueModel::Float(a), ValueModel::Integer(b)) => Ok(
            ValueModel::Float(fadd_bits(a, float_of_int(b))),
        ),
        (ValueModel::Str(a), ValueModel::Str(b)) => Ok(ValueModel::Str(a + b)),
        _ => Err(VmError::InvalidOperands(Instruction::Add)),
    }
}

/// The difference of two values: numeric only, with integer widening.
pub open spec fn sub_values(l: ValueModel, r: ValueModel) -> Result<ValueModel, VmError> {
    match (l, r) {
        (ValueModel::Integer(a), ValueModel::Integer(b)) => Ok(ValueModel::Integer(wrap_sub(a, b))),
        (ValueModel::Float(a), ValueModel::Float(b)) => Ok(ValueModel::Float(fsub_bits(a, b))),
        (ValueModel::Integer(a), ValueModel::Float(b)) => Ok(
            ValueModel::Float(fsub_bits(float_of_int(a), b)),
        ),
        (ValueModel::Float(a), ValueModel::Integer(b)) => Ok(
            ValueModel::Float(fsub_bits(a, float_of_int(b))),
        ),
        _ => Err(VmError::InvalidOperands(Instruction::Subtract)),
    }
}

/// The product of two values: numeric only, with integer widening.
pub open spec fn mul_values(l: ValueModel, r: ValueModel) -> Result<ValueModel, VmError> {
    match (l, r) {
        (ValueModel::Integer(a), ValueModel::Integer(b)) => Ok(ValueModel::Integer(wrap_mul(a, b))),
        (ValueModel::Float(a), ValueModel::Float(b)) => Ok(ValueModel::Float(fmul_bits(a, b))),
        (ValueModel::Integer(a), ValueModel::Float(b)) => Ok(
            ValueModel::Float(fmul_bits(float_of_int(a), b)),
        ),
        (ValueModel::Float(a), ValueModel::Integer(b)) => Ok(
            ValueModel::Float(fmul_bits(a, float_of_int(b))),
        ),
        _ => Err(VmError::InvalidOperands(Instruction::Multiply)),
    }
}

/// The quotient of two values: a zero divisor, integer or float, is an
/// error, never a trap or an infinity.
pub open spec fn div_values(l: ValueModel, r: ValueModel) -> Result<ValueModel, VmError> {
    match (l, r) {
        (ValueModel::Integer(a), ValueModel::Integer(b)) => if b == 0 {
            Err(VmError::DivisionByZero)
        } else {
            Ok(ValueModel::Integer(div_trunc(a, b)))
        },
        (ValueModel::Float(a), ValueModel::Float(b)) => if is_zero_bits(b) {
            Err(VmError::DivisionByZero)
        } else {
            Ok(ValueModel::Float(fdiv_bits(a, b)))
        },
        (ValueModel::Integer(a), ValueModel::Float(b)) => if is_zero_bits(b) {
            Err(VmError::DivisionByZero)
        } else {
            Ok(ValueModel::Float(fdiv_bits(float_of_int(a), b)))
        },
        (ValueModel::Float(a), ValueModel::Integer(b)) => if b == 0 {
            Err(VmError::DivisionByZero)
        } else {
            Ok(ValueModel::Float(fdiv_bits(a, float_of_int(b))))
        },
        _ => Err(VmError::InvalidOperands(Instruction::Divide)),
    }
}

/// The remainder of two values, with the same widening and zero-divisor
/// rule as division.
pub open spec fn mod_values(l: ValueModel, r: ValueModel) -> Result<ValueModel, VmError> {
    match (l, r) {
        (ValueModel::Integer(a), ValueModel::Integer(b)) => if b == 0 {
            Err(VmError::ModuloByZero)
        } else {
            Ok(ValueModel::Integer(rem_trunc(a, b)))
        },
        (ValueModel::Float(a), ValueModel::Float(b)) => if is_zero_bits(b) {
            Err(VmError::ModuloByZero)
        } else {
            Ok(ValueModel::Float(fmod_bits(a, b)))
        },
        (ValueModel::Integer(a), ValueModel::Float(b)) => if is_zero_bits(b) {
            Err(VmError::ModuloByZero)
        } else {
            Ok(ValueModel::Float(fmod_bits(float_of_int(a), b)))
        },
        (ValueModel::Float(a), ValueModel::Integer(b)) => if b == 0 {
            Err(VmError::ModuloByZero)
        } else {
            Ok(ValueModel::Float(fmod_bits(a, float_of_int(b))))
        },
        _ => Err(VmError::InvalidOperands(Instruction::Modulo)),
    }
}

/// A float raised to a float exponent: an exact integer exponent raises by
/// squaring (a negative one through the reciprocal); any other exponent
/// yields the quiet NaN — a non-integer power has no portable exact value.
pub open spec fn pow_float_exp(base: u64, eb: u64) -> u64 {
    if is_zero_bits(eb) {
        ONE_BITS
    } else {
        match exact_int_of(eb) {
            Some(n) => if n >= 0 {
                fpow_bits(base, n as nat)
            } else {
                fdiv_bits(ONE_BITS, fpow_bits(base, (-(n as int)) as nat))
            },
            None => QNAN_BITS,
        }
    }
}

/// A value raised to a value: an integer base with a non-negative integer
/// exponent stays an integer (the exponent is taken modulo 2^32 as the
/// machine does); every other accepted pairing yields a float.
pub open spec fn pow_values(l: ValueModel, r: ValueModel) -> Result<ValueModel, VmError> {
    match (l, r) {
        (ValueModel::Integer(a), ValueModel::Integer(b)) => if b >= 0 {
            Ok(ValueModel::Integer(ipow_wrap(a, exp32_of(b))))
        } else {
            Ok(
                ValueModel::Float(
                    fdiv_bits(ONE_BITS, fpow_bits(float_of_int(a), (-(b as int)) as nat)),
                ),
            )
        },
        (ValueModel::Float(a), ValueModel::Integer(b)) => if b >= 0 {
            Ok(ValueModel::Float(fpow_bits(a, b as nat)))
        } else {
            Ok(ValueModel::Float(fdiv_bits(ONE_BITS, fpow_bits(a, (-(b as int)) as nat))))
        },
        (ValueModel::Integer(a), ValueModel::Float(eb)) => Ok(
            ValueModel::Float(pow_float_exp(float_of_int(a), eb)),
        ),
        (ValueModel::Float(a), ValueModel::Float(eb)) => Ok(
            ValueModel::Float(pow_float_exp(a, eb)),
        ),
        _ => Err(VmError::InvalidOperands(Instruction::Exponentiate)),
    }
}

/// Strict order of two values: numeric only, with integer widening.
pub open spec fn lt_values(l: ValueModel, r: ValueModel) -> Result<ValueModel, VmError> {
    match (l, r) {
        (ValueModel::Integer(a), ValueModel::Integer(b)) => Ok(ValueModel::Boolean(a < b)),
        (ValueModel::Float(a), ValueModel::Float(b)) => Ok(ValueModel::Boolean(float_lt_bits(a, b))),
        (ValueModel::Integer(a), ValueModel::Float(b)) => Ok(
            ValueModel::Boolean(float_lt_bits(float_of_int(a), b)),
        ),
        (ValueModel::Float(a), ValueModel::Integer(b)) => Ok(
            ValueModel::Boolean(float_lt_bits(a, float_of_int(b))),
        ),
        _ => Err(VmError::InvalidOperands(Instruction::LessThan)),
    }
}

/// Non-strict order of two values: numeric only, with integer widening.
pub open spec fn le_values(l: ValueModel, r: ValueModel) -> Result<ValueModel, VmError> {
    match (l, r) {
        (ValueModel::Integer(a), ValueModel::Integer(b)) => Ok(ValueModel::Boolean(a <= b)),
        (ValueModel::Float(a), ValueModel::Float(b)) => Ok(ValueModel::Boolean(float_le_bits(a, b))),
        (ValueModel::Integer(a), ValueModel::Float(b)) => Ok(
            ValueModel::Boolean(float_le_bits(float_of_int(a), b)),
        ),
        (ValueModel::Float(a), ValueModel::Integer(b)) => Ok(
            ValueModel::Boolean(float_le_bits(a, float_of_int(b))),
        ),
        _ => Err(VmError::InvalidOperands(Instruction::LessThanOrEqual)),
    }
}

/// Strict reverse order of two values: numeric only, with integer widening.
pub open spec fn gt_values(l: ValueModel, r: ValueModel) -> Result<ValueModel, VmError> {
    match (l, r) {
        (ValueModel::Integer(a), ValueModel::Integer(b)) => Ok(ValueModel::Boolean(a > b)),
        (ValueModel::Float(a), ValueModel::Float(b)) => Ok(ValueModel::Boolean(float_lt_bits(b, a))),
        (ValueModel::Integer(a), ValueModel::Float(b)) => Ok(
            ValueModel::Boolean(float_lt_bits(b, float_of_int(a))),
        ),
        (ValueModel::Float(a), ValueModel::Integer(b)) => Ok(
            ValueModel::Boolean(float_lt_bits(float_of_int(b), a)),
        ),
        _ => Err(VmError::InvalidOperands(Instruction::GreaterThan)),
    }
}

/// Non-strict reverse order of two values: numeric only, with integer
/// widening.
pub open spec fn ge_values(l: ValueModel, r: ValueModel) -> Result<ValueModel, VmError> {
    match (l, r) {
        (ValueModel::Integer(a), ValueModel::Integer(b)) => Ok(ValueModel::Boolean(a >= b)),
        (ValueModel::Float(a), ValueModel::Float(b)) => Ok(ValueModel::Boolean(float_le_bits(b, a))),
        (ValueModel::Integer(a), ValueModel::Float(b)) => Ok(
            ValueModel::Boolean(float_le_bits(b, float_of_int(a))),
        ),
        (ValueModel::Float(a), ValueModel::Integer(b)) => Ok(
            ValueModel::Boolean(float_le_bits(float_of_int(b), a)),
        ),
        _ => Err(VmError::InvalidOperands(Instruction::GreaterThanOrEqual)),
    }
}

/// What a two-operand instruction does to its popped operands.
pub open spec fn binop_values(i: Instruction, l: ValueModel, r: ValueModel) -> Result<
    ValueModel,
    VmError,
> {
    match i {
        Instruction::Add => add_values(l, r),
        Instruction::Subtract => sub_values(l, r),
        Instruction::Multiply => mul_values(l, r),
        Instruction::Divide => div_values(l, r),
        Instruction::Modulo => mod_values(l, r),
        Instruction::Exponentiate => pow_values(l, r),
        Instruction::Equal => Ok(ValueModel::Boolean(eq_value(l, r))),
        Instruction::NotEqual => Ok(ValueModel::Boolean(!eq_value(l, r))),
        Instruction::LessThan => lt_values(l, r),
        Instruction::LessThanOrEqual => le_values(l, r),
        Instruction::GreaterThan => gt_values(l, r),
        Instruction::GreaterThanOrEqual => ge_values(l, r),
        Instruction::And => Ok(ValueModel::Boolean(truthy(l) && truthy(r))),
        Instruction::Or => Ok(ValueModel::Boolean(truthy(l) || truthy(r))),
        Instruction::Concatenate => Ok(ValueModel::Str(text_of(l) + text_of(r))),
        _ => Err(VmError::StackUnderflow),
    }
}

/// Whether an instruction pops two operands and pushes one result.
pub open spec fn is_binop(i: Instruction) -> bool {
    match i {
        Instruction::Add | Instruction::Subtract | Instruction::Multiply | Instruction::Divide
            | Instruction::Modulo | Instruction::Exponentiate | Instruction::Equal
            | Instruction::NotEqual | Instruction::LessThan | Instruction::LessThanOrEqual
            | Instruction::GreaterThan | Instruction::GreaterThanOrEqual | Instruction::And
            | Instruction::Or | Instruction::Concatenate => true,
        _ => false,
    }
}

/// The machine state the contracts speak of: the value stack (top last),
/// the global table, and everything printed so far.
pub ghost struct VmSnap {
    pub stack: Seq<ValueModel>,
    pub globals: Map<Seq<char>, ValueModel>,
    pub out: Seq<char>,
}

/// What one instruction does to a machine state.
pub ghost enum StepResult {
    /// Execution continues at the next instruction.
    Next(VmSnap),
    /// A `Halt`: execution ends successfully.
    Stop(VmSnap),
    /// A runtime error; the state is as the machine leaves it.
    Fail(VmError, VmSnap),
}

/// The arguments of a print, joined by `sep`, from index `idx` on.
pub open spec fn joined_from(vs: Seq<ValueModel>, idx: int, sep: Seq<char>) -> Seq<char>
    decreases vs.len() - idx,
{
    if idx < 0 || idx >= vs.len() {
        Seq::empty()
    } else if idx == vs.len() - 1 {
        text_of(vs[idx])
    } else {
        text_of(vs[idx]) + sep + joined_from(vs, idx + 1, sep)
    }
}

/// What a print emits: space-separated with a trailing newline, or, when
/// formatted, plain concatenation with neither.
pub open spec fn printed_text(args: Seq<ValueModel>, formatted: bool) -> Seq<char> {
    if formatted {
        joined_from(args, 0, Seq::empty())
    } else {
        joined_from(args, 0, seq![' ']) + seq!['\n']
    }
}

/// One print instruction: pop the argument count, pop that many values,
/// emit them in their original order, push `Null`.
pub open spec fn step_print(s: VmSnap, formatted: bool) -> StepResult {
    if s.stack.len() == 0 {
        StepResult::Fail(VmError::StackUnderflow, s)
    } else {
        let cnt = s.stack.last();
        let s1 = s.stack.drop_last();
        match cnt {
            ValueModel::Integer(n) => {
                let needed: int = if n < 0 {
                    0
                } else {
                    n as int
                };
                if needed > s1.len() {
                    StepResult::Fail(
                        VmError::StackUnderflow,
                        VmSnap { stack: Seq::empty(), globals: s.globals, out: s.out },
                    )
                } else {
                    let seg = s1.skip(s1.len() - needed);
                    StepResult::Next(
                        VmSnap {
                            stack: s1.take(s1.len() - needed).push(ValueModel::Null),
                            globals: s.globals,
                            out: s.out + printed_text(seg, formatted),
                        },
                    )
                }
            },
            _ => StepResult::Fail(
                if formatted {
                    VmError::PrintFormatCount
                } else {
                    VmError::PrintCount
                },
                VmSnap { stack: s1, globals: s.globals, out: s.out },
            ),
        }
    }
}

/// One two-operand instruction: pop the right operand, pop the left,
/// combine, push the result.
pub open spec fn step_binop(i: Instruction, s: VmSnap) -> StepResult {
    if s.stack.len() == 0 {
        StepResult::Fail(VmError::StackUnderflow, s)
    } else {
        let right = s.stack.last();
        let s1 = s.stack.drop_last();
        if s1.len() == 0 {
            StepResult::Fail(VmError::StackUnderflow, VmSnap { stack: s1, globals: s.globals, out: s.out })
        } else {
            let left = s1.last();
            let s2 = s1.drop_last();
            match binop_values(i, left, right) {
                Ok(v) => StepResult::Next(
                    VmSnap { stack: s2.push(v), globals: s.globals, out: s.out },
                ),
                Err(e) => StepResult::Fail(e, VmSnap { stack: s2, globals: s.globals, out: s.out }),
            }
        }
    }
}

/// What one instruction does to the machine state.
pub open spec fn step(i: Instruction, s: VmSnap) -> StepResult {
    match i {
        Instruction::Constant(v) => StepResult::Next(
            VmSnap { stack: s.stack.push(v@), globals: s.globals, out: s.out },
        ),
        Instruction::LoadGlobal(name) => if s.globals.contains_key(name@) {
            StepResult::Next(
                VmSnap { stack: s.stack.push(s.globals[name@]), globals: s.globals, out: s.out },
            )
        } else {
            StepResult::Fail(VmError::UndefinedVariable(name), s)
        },
        Instruction::StoreGlobal(name) => if s.stack.len() == 0 {
            StepResult::Fail(VmError::StackUnderflow, s)
        } else {
            StepResult::Next(
                VmSnap {
                    stack: s.stack,
                    globals: s.globals.insert(name@, s.stack.last()),
                    out: s.out,
                },
            )
        },
        Instruction::Print => step_print(s, false),
        Instruction::PrintFormat => step_print(s, true),
        Instruction::Pop => if s.stack.len() == 0 {
            StepResult::Fail(VmError::StackUnderflow, s)
        } else {
            StepResult::Next(VmSnap { stack: s.stack.drop_last(), globals: s.globals, out: s.out })
        },
        Instruction::Halt => StepResult::Stop(s),
        _ => step_binop(i, s),
    }
}

/// Linear execution from instruction `ip` on: the final state, or the
/// error and the state it leaves behind.
pub open spec fn run_from(instrs: Seq<Instruction>, ip: nat, s: VmSnap) -> Result<
    VmSnap,
    (VmError, VmSnap),
>
    decreases instrs.len() - ip,
{
    if ip >= instrs.len() {
        Ok(s)
    } else {
        match step(instrs[ip as int], s) {
            StepResult::Next(s2) => run_from(instrs, ip + 1, s2),
            StepResult::Stop(s2) => Ok(s2),
            StepResult::Fail(e, s2) => Err((e, s2)),
        }
    }
}

/// The models of a stack of values.
pub open spec fn models(s: Seq<Value>) -> Seq<ValueModel> {
    s.map_values(|v: Value| v@)
}

/// The separator a print places between two arguments.
pub open spec fn print_sep(formatted: bool) -> Seq<char> {
    if formatted {
        Seq::empty()
    } else {
        seq![' ']
    }
}

/// A float raised to a float exponent, as `pow_float_exp` defines it.
fn float_exp_value(base: u64, eb: u64) -> (r: u64)
    ensures
        r == pow_float_exp(base, eb),
{
    if float_is_zero(eb) {
        ONE_BITS
    } else {
        match float_exact_int(eb) {
            Some(n) => {
                if n >= 0 {
                    float_pow(base, n as u64)
                } else {
                    float_div(ONE_BITS, float_pow(base, magnitude_u64(n)))
                }
            },
            None => QNAN_BITS,
        }
    }
}

/// Executes a compiled instruction sequence against an explicit value
/// stack and a global-name table, collecting everything printed.
pub struct VirtualMachine {
    stack: Vec<Value>,
    globals: Globals,
    ip: usize,
    output: String,
}

impl VirtualMachine {
    /// The machine state the contracts speak of.
    pub closed spec fn snap(self) -> VmSnap {
        VmSnap { stack: models(self.stack@), globals: self.globals@, out: self.output@ }
    }

    /// The machine's internal well-formedness (its global table never
    /// holds a name twice).
    pub closed spec fn wf(self) -> bool {
        self.globals.wf()
    }

    /// A machine with an empty stack, an empty global table and no output.
    pub fn new() -> (vm: VirtualMachine)
        ensures
            vm.wf(),
            vm.snap() == (VmSnap {
                stack: Seq::<ValueModel>::empty(),
                globals: Map::<Seq<char>, ValueModel>::empty(),
                out: Seq::<char>::empty(),
            }),
    {
        let vm = VirtualMachine {
            stack: Vec::new(),
            globals: Globals::new(),
            ip: 0,
            output: String::new(),
        };
        proof {
            assert(models(vm.stack@) =~= Seq::<ValueModel>::empty());
        }
        vm
    }

    /// Everything the machine has printed so far.
    pub fn output(&self) -> (r: &String)
        ensures
            r@ == self.snap().out,
    {
        &self.output
    }

    /// The current value of a global variable, if any.
    pub fn global_value(&self, name: &str) -> (r: Option<Value>)
        requires
            self.wf(),
        ensures
            match r {
                Some(v) => self.snap().globals.contains_key(name@) && v@
                    == self.snap().globals[name@],
                None => !self.snap().globals.contains_key(name@),
            },
    {
        self.globals.lookup(name)
    }

    /// Pops the top of the stack, or reports an underflow.
    fn pop_value(&mut self) -> (r: Result<Value, VmError>)
        ensures
            final(self).globals == old(self).globals,
            final(self).output == old(self).output,
            final(self).ip == old(self).ip,
            match r {
                Ok(v) => old(self).stack@.len() > 0 && v == old(self).stack@.last() && final(self).stack@ == old(self).stack@.drop_last(),
                Err(e) => e == VmError::StackUnderflow && old(self).stack@.len() == 0 && final(self).stack@ == old(self).stack@,
            },
    {
        match self.stack.pop() {
            Some(v) => Ok(v),
            None => Err(VmError::StackUnderflow),
        }
    }

    /// The sum of two popped values.
    fn add(&self, left: Value, right: Value) -> (r: Result<Value, VmError>)
        ensures
            match (r, add_values(left@, right@)) {
                (Ok(v), Ok(m)) => v@ == m,
                (Err(e), Err(me)) => e == me,
                _ => false,
            },
    {
        match (left, right) {
            (Value::Integer(a), Value::Integer(b)) => Ok(Value::Integer(a.wrapping_add(b))),
            (Value::Float(a), Value::Float(b)) => Ok(Value::Float(float_add(a, b))),
            (Value::Integer(a), Value::Float(b)) => Ok(Value::Float(float_add(int_to_float(a), b))),
            (Value::Float(a), Value::Integer(b)) => Ok(Value::Float(float_add(a, int_to_float(b)))),
            (Value::Str(a), Value::Str(b)) => {
                let mut s = a;
                s.append(b.as_str());
                Ok(Value::Str(s))
            },
            _ => Err(VmError::InvalidOperands(Instruction::Add)),
        }
    }

    /// The difference of two popped values.
    fn subtract(&self, left: Value, right: Value) -> (r: Result<Value, VmError>)
        ensures
            match (r, sub_values(left@, right@)) {
                (Ok(v), Ok(m)) => v@ == m,
                (Err(e), Err(me)) => e == me,
                _ => false,
            },
    {
        match (left, right) {
            (Value::Integer(a), Value::Integer(b)) => Ok(Value::Integer(a.wrapping_sub(b))),
            (Value::Float(a), Value::Float(b)) => Ok(Value::Float(float_sub(a, b))),
            (Value::Integer(a), Value::Float(b)) => Ok(Value::Float(float_sub(int_to_float(a), b))),
            (Value::Float(a), Value::Integer(b)) => Ok(Value::Float(float_sub(a, int_to_float(b)))),
            _ => Err(VmError::InvalidOperands(Instruction::Subtract)),
        }
    }

    /// The product of two popped values.
    fn multiply(&self, left: Value, right: Value) -> (r: Result<Value, VmError>)
        ensures
            match (r, mul_values(left@, right@)) {
                (Ok(v), Ok(m)) => v@ == m,
                (Err(e), Err(me)) => e == me,
                _ => false,
            },
    {
        match (left, right) {
            (Value::Integer(a), Value::Integer(b)) => Ok(Value::Integer(a.wrapping_mul(b))),
            (Value::Float(a), Value::Float(b)) => Ok(Value::Float(float_mul(a, b))),
            (Value::Integer(a), Value::Float(b)) => Ok(Value::Float(float_mul(int_to_float(a), b))),
            (Value::Float(a), Value::Integer(b)) => Ok(Value::Float(float_mul(a, int_to_float(b)))),
            _ => Err(VmError::InvalidOperands(Instruction::Multiply)),
        }
    }

    /// The quotient of two popped values; a zero divisor is an error.
    fn divide(&self, left: Value, right: Value) -> (r: Result<Value, VmError>)
        ensures
            match (r, div_values(left@, right@)) {
                (Ok(v), Ok(m)) => v@ == m,
                (Err(e), Err(me)) => e == me,
                _ => false,
            },
    {
        match (left, right) {
            (Value::Integer(a), Value::Integer(b)) => {
                if b == 0 {
                    Err(VmError::DivisionByZero)
                } else {
                    Ok(Value::Integer(div_trunc_i64(a, b)))
                }
            },
            (Value::Float(a), Value::Float(b)) => {
                if float_is_zero(b) {
                    Err(VmError::DivisionByZero)
                } else {
                    Ok(Value::Float(float_div(a, b)))
                }
            },
            (Value::Integer(a), Value::Float(b)) => {
                if float_is_zero(b) {
                    Err(VmError::DivisionByZero)
                } else {
                    Ok(Value::Float(float_div(int_to_float(a), b)))
                }
            },
            (Value::Float(a), Value::Integer(b)) => {
                if b == 0 {
                    Err(VmError::DivisionByZero)
                } else {
                    Ok(Value::Float(float_div(a, int_to_float(b))))
                }
            },
            _ => Err(VmError::InvalidOperands(Instruction::Divide)),
        }
    }

    /// The remainder of two popped values; a zero divisor is an error.
    fn modulo(&self, left: Value, right: Value) -> (r: Result<Value, VmError>)
        ensures
            match (r, mod_values(left@, right@)) {
                (Ok(v), Ok(m)) => v@ == m,
                (Err(e), Err(me)) => e == me,
                _ => false,
            },
    {
        match (left, right) {
            (Value::Integer(a), Value::Integer(b)) => {
                if b == 0 {
                    Err(VmError::ModuloByZero)
                } else {
                    Ok(Value::Integer(rem_trunc_i64(a, b)))
                }
            },
            (Value::Float(a), Value::Float(b)) => {
                if float_is_zero(b) {
                    Err(VmError::ModuloByZero)
                } else {
                    Ok(Value::Float(float_rem(a, b)))
                }
            },
            (Value::Integer(a), Value::Float(b)) => {
                if float_is_zero(b) {
                    Err(VmError::ModuloByZero)
                } else {
                    Ok(Value::Float(float_rem(int_to_float(a), b)))
                }
            },
            (Value::Float(a), Value::Integer(b)) => {
                if b == 0 {
                    Err(VmError::ModuloByZero)
                } else {
                    Ok(Value::Float(float_rem(a, int_to_float(b))))
                }
            },
            _ => Err(VmError::InvalidOperands(Instruction::Modulo)),
        }
    }

    /// A popped base raised to a popped exponent.
    fn exponentiate(&self, left: Value, right: Value) -> (r: Result<Value, VmError>)
        ensures
            match (r, pow_values(left@, right@)) {
                (Ok(v), Ok(m)) => v@ == m,
                (Err(e), Err(me)) => e == me,
                _ => false,
            },
    {
        match (left, right) {
            (Value::Integer(a), Value::Integer(b)) => {
                if b >= 0 {
                    let e32: u32 = (b % 0x1_0000_0000) as u32;
                    proof {
                        assert(e32 as nat == exp32_of(b));
                    }
                    Ok(Value::Integer(ipow_wrapping(a, e32)))
                } else {
                    let base = int_to_float(a);
                    let mag = magnitude_u64(b);
                    Ok(Value::Float(float_div(ONE_BITS, float_pow(base, mag))))
                }
            },
            (Value::Float(a), Value::Integer(b)) => {
                if b >= 0 {
                    Ok(Value::Float(float_pow(a, b as u64)))
                } else {
                    let mag = magnitude_u64(b);
                    Ok(Value::Float(float_div(ONE_BITS, float_pow(a, mag))))
                }
            },
            (Value::Integer(a), Value::Float(eb)) => {
                let base = int_to_float(a);
                Ok(Value::Float(float_exp_value(base, eb)))
            },
            (Value::Float(a), Value::Float(eb)) => Ok(Value::Float(float_exp_value(a, eb))),
            _ => Err(VmError::InvalidOperands(Instruction::Exponentiate)),
        }
    }

    /// Strict order of two popped values.
    fn less_than(&self, left: Value, right: Value) -> (r: Result<Value, VmError>)
        ensures
            match (r, lt_values(left@, right@)) {
                (Ok(v), Ok(m)) => v@ == m,
                (Err(e), Err(me)) => e == me,
                _ => false,
            },
    {
        match (left, right) {
            (Value::Integer(a), Value::Integer(b)) => Ok(Value::Boolean(a < b)),
            (Value::Float(a), Value::Float(b)) => Ok(Value::Boolean(float_lt(a, b))),
            (Value::Integer(a), Value::Float(b)) => Ok(Value::Boolean(float_lt(int_to_float(a), b))),
            (Value::Float(a), Value::Integer(b)) => Ok(Value::Boolean(float_lt(a, int_to_float(b)))),
            _ => Err(VmError::InvalidOperands(Instruction::LessThan)),
        }
    }

    /// Non-strict order of two popped values.
    fn less_than_or_equal(&self, left: Value, right: Value) -> (r: Result<Value, VmError>)
        ensures
            match (r, le_values(left@, right@)) {
                (Ok(v), Ok(m)) => v@ == m,
                (Err(e), Err(me)) => e == me,
                _ => false,
            },
    {
        match (left, right) {
            (Value::Integer(a), Value::Integer(b)) => Ok(Value::Boolean(a <= b)),
            (Value::Float(a), Value::Float(b)) => Ok(Value::Boolean(float_le(a, b))),
            (Value::Integer(a), Value::Float(b)) => Ok(Value::Boolean(float_le(int_to_float(a), b))),
            (Value::Float(a), Value::Integer(b)) => Ok(Value::Boolean(float_le(a, int_to_float(b)))),
            _ => Err(VmError::InvalidOperands(Instruction::LessThanOrEqual)),
        }
    }

    /// Strict reverse order of two popped values.
    fn greater_than(&self, left: Value, right: Value) -> (r: Result<Value, VmError>)
        ensures
            match (r, gt_values(left@, right@)) {
                (Ok(v), Ok(m)) => v@ == m,
                (Err(e), Err(me)) => e == me,
                _ => false,
            },
    {
        match (left, right) {
            (Value::Integer(a), Value::Integer(b)) => Ok(Value::Boolean(a > b)),
            (Value::Float(a), Value::Float(b)) => Ok(Value::Boolean(float_lt(b, a))),
            (Value::Integer(a), Value::Float(b)) => Ok(Value::Boolean(float_lt(b, int_to_float(a)))),
            (Value::Float(a), Value::Integer(b)) => Ok(Value::Boolean(float_lt(int_to_float(b), a))),
            _ => Err(VmError::InvalidOperands(Instruction::GreaterThan)),
        }
    }

    /// Non-strict reverse order of two popped values.
    fn greater_than_or_equal(&self, left: Value, right: Value) -> (r: Result<Value, VmError>)
        ensures
            match (r, ge_values(left@, right@)) {
                (Ok(v), Ok(m)) => v@ == m,
                (Err(e), Err(me)) => e == me,
                _ => false,
            },
    {
        match (left, right) {
            (Value::Integer(a), Value::Integer(b)) => Ok(Value::Boolean(a >= b)),
            (Value::Float(a), Value::Float(b)) => Ok(Value::Boolean(float_le(b, a))),
            (Value::Integer(a), Value::Float(b)) => Ok(Value::Boolean(float_le(b, int_to_float(a)))),
            (Value::Float(a), Value::Integer(b)) => Ok(Value::Boolean(float_le(int_to_float(b), a))),
            _ => Err(VmError::InvalidOperands(Instruction::GreaterThanOrEqual)),
        }
    }

    /// Runs one two-operand instruction.
    fn run_binop(&mut self, i: &Instruction) -> (r: Result<(), VmError>)
        requires
            is_binop(*i),
        ensures
            final(self).ip == old(self).ip,
            final(self).globals.wf() == old(self).globals.wf(),
            match (r, step_binop(*i, old(self).snap())) {
                (Ok(()), StepResult::Next(s2)) => final(self).snap() == s2,
                (Err(e), StepResult::Fail(e2, s2)) => e == e2 && final(self).snap() == s2,
                _ => false,
            },
    {
        let ghost pre = self.snap();
        let right = match self.pop_value() {
            Ok(v) => v,
            Err(e) => {
                proof {
                    assert(models(self.stack@) =~= pre.stack);
                }
                return Err(e);
            },
        };
        proof {
            assert(models(old(self).stack@.drop_last()) =~= pre.stack.drop_last());
        }
        let left = match self.pop_value() {
            Ok(v) => v,
            Err(e) => {
                proof {
                    assert(models(self.stack@) =~= pre.stack.drop_last());
                }
                return Err(e);
            },
        };
        let ghost lm = left@;
        let ghost rm = right@;
        proof {
            assert(rm == pre.stack.last());
            assert(lm == pre.stack.drop_last().last());
            assert(models(self.stack@) =~= pre.stack.drop_last().drop_last());
        }
        let res = match i {
            Instruction::Add => self.add(left, right),
            Instruction::Subtract => self.subtract(left, right),
            Instruction::Multiply => self.multiply(left, right),
            Instruction::Divide => self.divide(left, right),
            Instruction::Modulo => self.modulo(left, right),
            Instruction::Exponentiate => self.exponentiate(left, right),
            Instruction::Equal => Ok(Value::Boolean(values_equal(&left, &right))),
            Instruction::NotEqual => Ok(Value::Boolean(!values_equal(&left, &right))),
            Instruction::LessThan => self.less_than(left, right),
            Instruction::LessThanOrEqual => self.less_than_or_equal(left, right),
            Instruction::GreaterThan => self.greater_than(left, right),
            Instruction::GreaterThanOrEqual => self.greater_than_or_equal(left, right),
            Instruction::And => {
                let b = left.is_truthy() && right.is_truthy();
                Ok(Value::Boolean(b))
            },
            Instruction::Or => {
                let b = left.is_truthy() || right.is_truthy();
                Ok(Value::Boolean(b))
            },
            Instruction::Concatenate => {
                let mut s = crate::value::value_text(&left);
                push_value_text(&mut s, &right);
                Ok(Value::Str(s))
            },
            _ => Err(VmError::StackUnderflow),
        };
        match res {
            Ok(v) => {
                proof {
                    assert(binop_values(*i, lm, rm) == Ok::<ValueModel, VmError>(v@));
                }
                let ghost before_push = models(self.stack@);
                self.stack.push(v);
                proof {
                    assert(models(self.stack@) =~= before_push.push(v@));
                }
                Ok(())
            },
            Err(e) => {
                proof {
                    assert(binop_values(*i, lm, rm) == Err::<ValueModel, VmError>(e));
                }
                Err(e)
            },
        }
    }

    /// Runs one print instruction, appending to the machine's output.
    fn run_print(&mut self, formatted: bool) -> (r: Result<(), VmError>)
        ensures
            final(self).ip == old(self).ip,
            final(self).globals.wf() == old(self).globals.wf(),
            match (r, step_print(old(self).snap(), formatted)) {
                (Ok(()), StepResult::Next(s2)) => final(self).snap() == s2,
                (Err(e), StepResult::Fail(e2, s2)) => e == e2 && final(self).snap() == s2,
                _ => false,
            },
    {
        let ghost pre = self.snap();
        let count = match self.pop_value() {
            Ok(v) => v,
            Err(e) => {
                proof {
                    assert(models(self.stack@) =~= pre.stack);
                }
                return Err(e);
            },
        };
        proof {
            assert(models(self.stack@) =~= pre.stack.drop_last());
            assert(count@ == pre.stack.last());
        }
        let n: i64 = match count {
            Value::Integer(n) => n,
            _ => {
                let e = if formatted {
                    VmError::PrintFormatCount
                } else {
                    VmError::PrintCount
                };
                return Err(e);
            },
        };
        let ghost s1 = models(self.stack@);
        let ghost g0 = self.globals@;
        let ghost wf0 = self.globals.wf();
        let ghost out0 = self.output@;
        let ghost needed: int = if n < 0 {
            0
        } else {
            n as int
        };
        let mut args: Vec<Value> = Vec::new();
        let mut k: i64 = 0;
        while k < n
            invariant
                self.globals@ == g0,
                self.globals.wf() == wf0,
                self.output@ == out0,
                self.ip == old(self).ip,
                old(self).snap().stack.len() > 0,
                old(self).snap().stack.last() == ValueModel::Integer(n),
                s1 == old(self).snap().stack.drop_last(),
                g0 == old(self).snap().globals,
                out0 == old(self).snap().out,
                wf0 == old(self).globals.wf(),
                needed == (if n < 0 { 0int } else { n as int }),
                0 <= k,
                k <= s1.len(),
                n >= 0 ==> k <= n,
                n < 0 ==> k == 0,
                models(self.stack@) == s1.take(s1.len() - k as int),
                args@.len() == k as int,
                forall|j: int| 0 <= j < k ==> #[trigger] args@[j]@ == s1[s1.len() - 1 - j],
            decreases n - k,
        {
            let ghost before = models(self.stack@);
            match self.stack.pop() {
                Some(v) => {
                    proof {
                        assert(before.len() == s1.len() - k);
                        assert(models(self.stack@) =~= s1.take(s1.len() - (k + 1)));
                        assert(v@ == before.last());
                        assert(before.last() == s1[s1.len() - 1 - k]);
                    }
                    args.push(v);
                },
                None => {
                    // the stack is exhausted: the count exceeds what is there
                    proof {
                        assert(s1.take(s1.len() - k as int).len() == 0);
                        assert(k == s1.len());
                        assert(needed > s1.len());
                        assert(models(self.stack@) =~= Seq::<ValueModel>::empty());
                    }
                    return Err(VmError::StackUnderflow);
                },
            }
            k = k + 1;
        }
        proof {
            assert(k == needed);
        }
        let ghost seg = s1.skip(s1.len() - needed);
        let total = args.len();
        let ghost outp = self.output@;
        let mut idx: usize = 0;
        while idx < total
            invariant
                self.globals@ == g0,
                self.globals.wf() == wf0,
                self.ip == old(self).ip,
                old(self).snap().stack.len() > 0,
                old(self).snap().stack.last() == ValueModel::Integer(n),
                s1 == old(self).snap().stack.drop_last(),
                g0 == old(self).snap().globals,
                out0 == old(self).snap().out,
                wf0 == old(self).globals.wf(),
                needed == (if n < 0 { 0int } else { n as int }),
                outp == out0,
                models(self.stack@) == s1.take(s1.len() - needed),
                idx <= total,
                total == args@.len(),
                total as int == needed,
                needed <= s1.len(),
                seg == s1.skip(s1.len() - needed),
                forall|j: int| 0 <= j < total ==> #[trigger] args@[j]@ == s1[s1.len() - 1 - j],
                self.output@ + joined_from(seg, idx as int, print_sep(formatted)) == outp
                    + joined_from(seg, 0, print_sep(formatted)),
            decreases total - idx,
        {
            let ghost obefore = self.output@;
            push_value_text(&mut self.output, &args[total - 1 - idx]);
            if !formatted && idx + 1 < total {
                push_char(&mut self.output, ' ');
            }
            proof {
                assert(seg.len() == needed);
                assert(seg[idx as int] == s1[s1.len() - needed + idx]);
                assert(args@[total - 1 - idx]@ == s1[s1.len() - 1 - (total - 1 - idx)]);
                assert(args@[total - 1 - idx]@ == seg[idx as int]);
                if idx + 1 < total {
                    assert(self.output@ =~= obefore + (text_of(seg[idx as int]) + print_sep(
                        formatted,
                    )));
                    assert((obefore + (text_of(seg[idx as int]) + print_sep(formatted)))
                        + joined_from(seg, idx + 1, print_sep(formatted)) =~= obefore + (text_of(
                        seg[idx as int],
                    ) + print_sep(formatted) + joined_from(seg, idx + 1, print_sep(formatted))));
                } else {
                    assert(self.output@ =~= obefore + text_of(seg[idx as int]));
                    assert(joined_from(seg, idx as int, print_sep(formatted)) == text_of(
                        seg[idx as int],
                    ));
                    assert((obefore + text_of(seg[idx as int])) + joined_from(
                        seg,
                        idx + 1,
                        print_sep(formatted),
                    ) =~= obefore + text_of(seg[idx as int]));
                }
            }
            idx = idx + 1;
        }
        if !formatted {
            push_char(&mut self.output, '\n');
        }
        let ghost before_push = models(self.stack@);
        self.stack.push(Value::Null);
        proof {
            assert(models(self.stack@) =~= before_push.push(ValueModel::Null));
            assert(joined_from(seg, needed, print_sep(formatted)) =~= Seq::<char>::empty());
            if formatted {
                assert(self.output@ =~= out0 + printed_text(seg, true));
            } else {
                assert((outp + joined_from(seg, 0, print_sep(false))).push('\n') =~= out0
                    + printed_text(seg, false));
            }
        }
        Ok(())
    }

    /// Executes the chunk from its first instruction: a single pass with
    /// an instruction pointer, exactly as `run_from` describes.  On an
    /// error the machine stops at once; whatever was printed up to that
    /// point remains in the output.
    pub fn execute(&mut self, chunk: &Chunk) -> (r: Result<(), VmError>)
        requires
            old(self).wf(),
        ensures
            final(self).wf(),
            match (r, run_from(chunk.instructions@, 0, old(self).snap())) {
                (Ok(()), Ok(fin)) => final(self).snap() == fin,
                (Err(e), Err(p)) => e == p.0 && final(self).snap() == p.1,
                _ => false,
            },
    {
        self.ip = 0;
        let ghost instrs = chunk.instructions@;
        let ghost init = self.snap();
        let mut halted = false;
        while !halted && self.ip < chunk.instructions.len()
            invariant
                self.wf(),
                chunk.instructions@ == instrs,
                init == old(self).snap(),
                self.ip <= instrs.len(),
                !halted ==> run_from(instrs, self.ip as nat, self.snap()) == run_from(
                    instrs,
                    0,
                    init,
                ),
                halted ==> run_from(instrs, 0, init) == Ok::<VmSnap, (VmError, VmSnap)>(
                    self.snap(),
                ),
            decreases instrs.len() - self.ip,
        {
            let ghost pre = self.snap();
            let ghost ip0 = self.ip as nat;
            let instr = &chunk.instructions[self.ip];
            self.ip = self.ip + 1;
            match instr {
                Instruction::Constant(v) => {
                    let val = clone_value(v);
                    let ghost before_push = models(self.stack@);
                    self.stack.push(val);
                    proof {
                        assert(models(self.stack@) =~= before_push.push(v@));
                        assert(step(instrs[ip0 as int], pre) == StepResult::Next(self.snap()));
                    }
                },
                Instruction::LoadGlobal(name) => {
                    match self.globals.lookup(name.as_str()) {
                        Some(v) => {
                            let ghost before_push = models(self.stack@);
                            self.stack.push(v);
                            proof {
                                assert(models(self.stack@) =~= before_push.push(
                                    pre.globals[name@],
                                ));
                                assert(step(instrs[ip0 as int], pre) == StepResult::Next(
                                    self.snap(),
                                ));
                            }
                        },
                        None => {
                            let e = VmError::UndefinedVariable(name.clone());
                            proof {
                                assert(step(instrs[ip0 as int], pre) == StepResult::Fail(e, pre));
                                assert(self.snap() == pre);
                            }
                            return Err(e);
                        },
                    }
                },
                Instruction::StoreGlobal(name) => {
                    if self.stack.len() == 0 {
                        proof {
                            assert(pre.stack.len() == 0);
                            assert(step(instrs[ip0 as int], pre) == StepResult::Fail(
                                VmError::StackUnderflow,
                                pre,
                            ));
                        }
                        return Err(VmError::StackUnderflow);
                    }
                    let v = clone_value(&self.stack[self.stack.len() - 1]);
                    proof {
                        assert(v@ == pre.stack.last());
                    }
                    self.globals.store(name.clone(), v);
                    proof {
                        assert(step(instrs[ip0 as int], pre) == StepResult::Next(self.snap()));
                    }
                },
                Instruction::Print => {
                    match self.run_print(false) {
                        Ok(()) => {
                            proof {
                                assert(step(instrs[ip0 as int], pre) == step_print(pre, false));
                            }
                        },
                        Err(e) => {
                            proof {
                                assert(step(instrs[ip0 as int], pre) == step_print(pre, false));
                            }
                            return Err(e);
                        },
                    }
                },
                Instruction::PrintFormat => {
                    match self.run_print(true) {
                        Ok(()) => {
                            proof {
                                assert(step(instrs[ip0 as int], pre) == step_print(pre, true));
                            }
                        },
                        Err(e) => {
                            proof {
                                assert(step(instrs[ip0 as int], pre) == step_print(pre, true));
                            }
                            return Err(e);
                        },
                    }
                },
                Instruction::Pop => {
                    match self.pop_value() {
                        Ok(_) => {
                            proof {
                                assert(models(self.stack@) =~= pre.stack.drop_last());
                                assert(step(instrs[ip0 as int], pre) == StepResult::Next(
                                    self.snap(),
                                ));
                            }
                        },
                        Err(e) => {
                            proof {
                                assert(models(self.stack@) =~= pre.stack);
                                assert(step(instrs[ip0 as int], pre) == StepResult::Fail(e, pre));
                            }
                            return Err(e);
                        },
                    }
                },
                Instruction::Halt => {
                    halted = true;
                    proof {
                        assert(step(instrs[ip0 as int], pre) == StepResult::Stop(pre));
                        assert(self.snap() == pre);
                    }
                },
                other => {
                    proof {
                        assert(is_binop(*other));
                    }
                    match self.run_binop(other) {
                        Ok(()) => {
                            proof {
                                assert(step(instrs[ip0 as int], pre) == step_binop(*other, pre));
                            }
                        },
                        Err(e) => {
                            proof {
                                assert(step(instrs[ip0 as int], pre) == step_binop(*other, pre));
                            }
                            return Err(e);
                        },
                    }
                },
            }
        }
        Ok(())
    }
}

} // verus!
