use vstd::prelude::*;
use crate::instruction::{AddressMode, Instruction, mnemonic};
use crate::status::Status;

verus! {

/// A copy of the processor's registers.
#[derive(Clone, Copy, Debug)]
pub struct CpuState {
    pub accumulator: u8,
    pub x_index: u8,
    pub y_index: u8,
    pub status: Status,
    pub program_counter: u16,
    pub stack_pointer: u8,
}

/// The record of one executed instruction.
#[derive(Clone, Copy, Debug)]
pub struct ExecutedInstruction {
    pub address: u16,
    pub instruction: Instruction,
    pub address_mode: AddressMode,
    pub operand_bytes: [u8; 2],
}

/// The lower-case hexadecimal digit of a value below 16.
pub open spec fn hex_char(n: int) -> char {
    if n < 10 {
        (('0' as int) + n) as char
    } else {
        (('a' as int) + n - 10) as char
    }
}

/// A byte as two lower-case hexadecimal digits.
pub open spec fn hex_text(b: u8) -> Seq<char> {
    seq![hex_char(b as int / 16), hex_char(b as int % 16)]
}

/// The operand of an instruction in assembler syntax, from its operand bytes.
pub open spec fn operand_text(mode: AddressMode, lo: u8, hi: u8) -> Seq<char> {
    match mode {
        AddressMode::Accumulator => "A"@,
        AddressMode::Absolute => "$"@ + hex_text(hi) + hex_text(lo),
        AddressMode::AbsoluteX => "$"@ + hex_text(hi) + hex_text(lo) + ",X"@,
        AddressMode::AbsoluteY => "$"@ + hex_text(hi) + hex_text(lo) + ",Y"@,
        AddressMode::Immediate => "#$"@ + hex_text(lo),
        AddressMode::Implied => Seq::empty(),
        AddressMode::Indirect => "($"@ + hex_text(hi) + hex_text(lo) + ")"@,
        AddressMode::IndirectX => "($"@ + hex_text(lo) + ",X)"@,
        AddressMode::IndirectY => "($"@ + hex_text(lo) + "),Y"@,
        AddressMode::Relative => "$"@ + hex_text(lo),
        AddressMode::Zeropage => "$"@ + hex_text(lo),
        AddressMode::ZeropageX => "$"@ + hex_text(lo) + ",X"@,
        AddressMode::ZeropageY => "$"@ + hex_text(lo) + ",Y"@,
    }
}

/// An instruction in assembler syntax: its mnemonic, a space and its operand.
pub open spec fn instruction_text(ins: Instruction, mode: AddressMode, lo: u8, hi: u8) -> Seq<char> {
    mnemonic(ins) + " "@ + operand_text(mode, lo, hi)
}

/// How an undefined opcode is shown: `U` and its two hexadecimal digits.
pub open spec fn undefined_text(op_code: u8) -> Seq<char> {
    "U"@ + hex_text(op_code)
}

fn hex_digit(n: u8) -> (r: &'static str)
    requires
        n < 16,
    ensures
        r@ == seq![hex_char(n as int)],
{
    let r = match n {
        0 => "0",
        1 => "1",
        2 => "2",
        3 => "3",
        4 => "4",
        5 => "5",
        6 => "6",
        7 => "7",
        8 => "8",
        9 => "9",
        10 => "a",
        11 => "b",
        12 => "c",
        13 => "d",
        14 => "e",
        _ => "f",
    };
    proof {
        reveal_strlit("0");
        reveal_strlit("1");
        reveal_strlit("2");
        reveal_strlit("3");
        reveal_strlit("4");
        reveal_strlit("5");
        reveal_strlit("6");
        reveal_strlit("7");
        reveal_strlit("8");
        reveal_strlit("9");
        reveal_strlit("a");
        reveal_strlit("b");
        reveal_strlit("c");
        reveal_strlit("d");
        reveal_strlit("e");
        reveal_strlit("f");
        assert(r@ =~= seq![hex_char(n as int)]);
    }
    r
}

/// Appends a byte as two hexadecimal digits.
fn push_hex(text: &mut String, b: u8)
    ensures
        final(text)@ == old(text)@ + hex_text(b),
{
    text.append(hex_digit(b / 16));
    text.append(hex_digit(b % 16));
    proof {
        assert(final(text)@ =~= old(text)@ + hex_text(b));
    }
}

/// The operand of an instruction in assembler syntax.
pub fn operand_to_string(mode: AddressMode, lo: u8, hi: u8) -> (r: String)
    ensures
        r@ == operand_text(mode, lo, hi),
{
    let mut text = String::new();
    match mode {
        AddressMode::Accumulator => text.append("A"),
        AddressMode::Absolute | AddressMode::AbsoluteX | AddressMode::AbsoluteY => {
            text.append("$");
            push_hex(&mut text, hi);
            push_hex(&mut text, lo);
            match mode {
                AddressMode::AbsoluteX => text.append(",X"),
                AddressMode::AbsoluteY => text.append(",Y"),
                _ => {},
            }
        },
        AddressMode::Immediate => {
            text.append("#$");
            push_hex(&mut text, lo);
        },
        AddressMode::Implied => {},
        AddressMode::Indirect => {
            text.append("($");
            push_hex(&mut text, hi);
            push_hex(&mut text, lo);
            text.append(")");
        },
        AddressMode::IndirectX => {
            text.append("($");
            push_hex(&mut text, lo);
            text.append(",X)");
        },
        AddressMode::IndirectY => {
            text.append("($");
            push_hex(&mut text, lo);
            text.append("),Y");
        },
        _ => {
            text.append("$");
            push_hex(&mut text, lo);
            match mode {
                AddressMode::ZeropageX => text.append(",X"),
                AddressMode::ZeropageY => text.append(",Y"),
                _ => {},
            }
        },
    }
    proof {
        assert(text@ =~= operand_text(mode, lo, hi));
    }
    text
}

/// An instruction in assembler syntax.
pub fn instruction_to_string(instruction: Instruction, mode: AddressMode, lo: u8, hi: u8) -> (r:
    String)
    ensures
        r@ == instruction_text(instruction, mode, lo, hi),
{
    let mut text = String::from_str(instruction.name());
    text.append(" ");
    let operand = operand_to_string(mode, lo, hi);
    text.append(operand.as_str());
    text
}

/// How an undefined opcode is shown.
pub fn undefined_to_string(op_code: u8) -> (r: String)
    ensures
        r@ == undefined_text(op_code),
{
    let mut text = String::from_str("U");
    push_hex(&mut text, op_code);
    text
}

impl ExecutedInstruction {
    /// The record's address and its instruction in assembler syntax.
    pub fn disassemble(&self) -> (r: (u16, String))
        ensures
            r.0 == self.address,
            r.1@ == instruction_text(
                self.instruction,
                self.address_mode,
                self.operand_bytes[0],
                self.operand_bytes[1],
            ),
    {
        (
            self.address,
            instruction_to_string(
                self.instruction,
                self.address_mode,
                self.operand_bytes[0],
                self.operand_bytes[1],
            ),
        )
    }
}

impl ExecutedInstruction {
    /// A record of an instruction at `address` without operand.
    pub fn bogus(address: u16, instruction: Instruction) -> (r: ExecutedInstruction)
        ensures
            r.address == address,
            r.instruction == instruction,
            r.address_mode == AddressMode::Implied,
            r.operand_bytes@ == seq![0u8, 0u8],
    {
        ExecutedInstruction {
            address,
            instruction,
            address_mode: AddressMode::Implied,
            operand_bytes: [0, 0],
        }
    }
}

} // verus!
