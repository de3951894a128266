//! Instructions and compiled chunks of the stack machine.
use vstd::prelude::*;

use crate::text::{dec_str, push_u64_text};
use crate::value::{text_of, Value};
use vstd::string::StringExecFns;

verus! {

/// One instruction of the stack machine, consumed in strict sequence.
/// Every two-operand instruction pops the right operand first, then the
/// left, and pushes one result.
#[derive(Debug, Clone, PartialEq)]
pub enum Instruction {
    Constant(Value),
    LoadGlobal(String),
    StoreGlobal(String),
    Add,
    Subtract,
    Multiply,
    Divide,
    Modulo,
    Exponentiate,
    Equal,
    NotEqual,
    LessThan,
    LessThanOrEqual,
    GreaterThan,
    GreaterThanOrEqual,
    And,
    Or,
    Concatenate,
    Print,
    PrintFormat,
    Pop,
    Halt,
}

/// The diagnostic name of an instruction, with its operand's printed form
/// in parentheses where it has one.
pub open spec fn instr_text(i: Instruction) -> Seq<char> {
    match i {
        Instruction::Constant(v) => "Constant("@ + text_of(v@) + ")"@,
        Instruction::LoadGlobal(n) => "LoadGlobal("@ + n@ + ")"@,
        Instruction::StoreGlobal(n) => "StoreGlobal("@ + n@ + ")"@,
        Instruction::Add => "Add"@,
        Instruction::Subtract => "Subtract"@,
        Instruction::Multiply => "Multiply"@,
        Instruction::Divide => "Divide"@,
        Instruction::Modulo => "Modulo"@,
        Instruction::Exponentiate => "Exponentiate"@,
        Instruction::Equal => "Equal"@,
        Instruction::NotEqual => "NotEqual"@,
        Instruction::LessThan => "LessThan"@,
        Instruction::LessThanOrEqual => "LessThanOrEqual"@,
        Instruction::GreaterThan => "GreaterThan"@,
        Instruction::GreaterThanOrEqual => "GreaterThanOrEqual"@,
        Instruction::And => "And"@,
        Instruction::Or => "Or"@,
        Instruction::Concatenate => "Concatenate"@,
        Instruction::Print => "Print"@,
        Instruction::PrintFormat => "PrintFormat"@,
        Instruction::Pop => "Pop"@,
        Instruction::Halt => "Halt"@,
    }
}

/// An instruction offset rendered in decimal, left-padded with zeros to at
/// least four digits.
pub open spec fn offset_text(n: nat) -> Seq<char> {
    if n < 10 {
        "000"@ + dec_str(n)
    } else if n < 100 {
        "00"@ + dec_str(n)
    } else if n < 1000 {
        "0"@ + dec_str(n)
    } else {
        dec_str(n)
    }
}

/// One line of the disassembly listing: offset, a space, the instruction.
pub open spec fn listing_line(offset: nat, i: Instruction) -> Seq<char> {
    offset_text(offset) + " "@ + instr_text(i) + "\n"@
}

/// The listing lines of `instrs` starting at `from`, concatenated.
pub open spec fn listing_lines(instrs: Seq<Instruction>, from: nat) -> Seq<char>
    decreases instrs.len() - from,
{
    if from >= instrs.len() {
        Seq::empty()
    } else {
        listing_line(from, instrs[from as int]) + listing_lines(instrs, from + 1)
    }
}

/// The full disassembly listing: a header naming the chunk, then one line
/// per instruction.
pub open spec fn listing_text(instrs: Seq<Instruction>, name: Seq<char>) -> Seq<char> {
    "== "@ + name + " ==\n"@ + listing_lines(instrs, 0)
}

/// An immutable, append-only instruction sequence produced by one
/// compilation pass.
#[derive(Debug, Clone, PartialEq)]
pub struct Chunk {
    pub instructions: Vec<Instruction>,
}

impl Chunk {
    /// An empty chunk.
    pub fn new() -> (c: Chunk)
        ensures
            c.instructions@ == Seq::<Instruction>::empty(),
    {
        Chunk { instructions: Vec::new() }
    }

    /// Appends one instruction.
    pub fn write(&mut self, instruction: Instruction)
        ensures
            final(self).instructions@ == old(self).instructions@.push(instruction),
    {
        self.instructions.push(instruction);
    }

    /// The diagnostic listing of the chunk: one line per instruction, with
    /// its offset, under a header carrying `name`.
    pub fn disassemble(&self, name: &str) -> (r: String)
        ensures
            r@ == listing_text(self.instructions@, name@),
    {
        let mut s = String::new();
        s.append("== ");
        s.append(name);
        s.append(" ==\n");
        let ghost header = "== "@ + name@ + " ==\n"@;
        proof {
            assert(s@ =~= header);
        }
        let mut i: usize = 0;
        while i < self.instructions.len()
            invariant
                i <= self.instructions.len(),
                s@ + listing_lines(self.instructions@, i as nat) == header + listing_lines(
                    self.instructions@,
                    0,
                ),
            decreases self.instructions.len() - i,
        {
            let ghost pre = s@;
            self.push_line(&mut s, i);
            proof {
                assert((pre + listing_line(i as nat, self.instructions@[i as int]))
                    + listing_lines(self.instructions@, i as nat + 1) =~= pre + listing_lines(
                    self.instructions@,
                    i as nat,
                ));
            }
            i = i + 1;
        }
        proof {
            assert(s@ + listing_lines(self.instructions@, self.instructions@.len() as nat)
                =~= s@);
            assert(s@ =~= listing_text(self.instructions@, name@));
        }
        s
    }

    /// Appends the listing line of instruction `i` to `s`.
    fn push_line(&self, s: &mut String, i: usize)
        requires
            i < self.instructions@.len(),
        ensures
            final(s)@ == old(s)@ + listing_line(i as nat, self.instructions@[i as int]),
    {
        push_offset_text(s, i as u64);
        s.append(" ");
        push_instr_text(s, &self.instructions[i]);
        s.append("\n");
        proof {
            assert(s@ =~= old(s)@ + listing_line(i as nat, self.instructions@[i as int]));
        }
    }
}

/// Appends the zero-padded offset to `s`.
fn push_offset_text(s: &mut String, n: u64)
    ensures
        final(s)@ == old(s)@ + offset_text(n as nat),
{
    if n < 10 {
        s.append("000");
    } else if n < 100 {
        s.append("00");
    } else if n < 1000 {
        s.append("0");
    }
    push_u64_text(s, n);
    proof {
        assert(s@ =~= old(s)@ + offset_text(n as nat));
    }
}

/// Appends the diagnostic name of an instruction to `s`.
fn push_instr_text(s: &mut String, i: &Instruction)
    ensures
        final(s)@ == old(s)@ + instr_text(*i),
{
    match i {
        Instruction::Constant(v) => {
            s.append("Constant(");
            crate::value::push_value_text(s, v);
            s.append(")");
            proof {
                assert(s@ =~= old(s)@ + instr_text(*i));
            }
        },
        Instruction::LoadGlobal(n) => {
            s.append("LoadGlobal(");
            s.append(n.as_str());
            s.append(")");
            proof {
                assert(s@ =~= old(s)@ + instr_text(*i));
            }
        },
        Instruction::StoreGlobal(n) => {
            s.append("StoreGlobal(");
            s.append(n.as_str());
            s.append(")");
            proof {
                assert(s@ =~= old(s)@ + instr_text(*i));
            }
        },
        Instruction::Add => { s.append("Add"); },
        Instruction::Subtract => { s.append("Subtract"); },
        Instruction::Multiply => { s.append("Multiply"); },
        Instruction::Divide => { s.append("Divide"); },
        Instruction::Modulo => { s.append("Modulo"); },
        Instruction::Exponentiate => { s.append("Exponentiate"); },
        Instruction::Equal => { s.append("Equal"); },
        Instruction::NotEqual => { s.append("NotEqual"); },
        Instruction::LessThan => { s.append("LessThan"); },
        Instruction::LessThanOrEqual => { s.append("LessThanOrEqual"); },
        Instruction::GreaterThan => { s.append("GreaterThan"); },
        Instruction::GreaterThanOrEqual => { s.append("GreaterThanOrEqual"); },
        Instruction::And => { s.append("And"); },
        Instruction::Or => { s.append("Or"); },
        Instruction::Concatenate => { s.append("Concatenate"); },
        Instruction::Print => { s.append("Print"); },
        Instruction::PrintFormat => { s.append("PrintFormat"); },
        Instruction::Pop => { s.append("Pop"); },
        Instruction::Halt => { s.append("Halt"); },
    }
}

} // verus!
