use vstd::prelude::*;

verus! {

/// How an instruction finds its operand.
#[derive(Clone, Copy, Debug, PartialEq, Eq, Structural)]
pub enum AddressMode {
    /// The accumulator itself.
    Accumulator,
    /// The address `$HHLL` given by the two operand bytes.
    Absolute,
    /// The absolute address plus X, wrapping at `$FFFF`.
    AbsoluteX,
    /// The absolute address plus Y, wrapping at `$FFFF`.
    AbsoluteY,
    /// The operand byte itself.
    Immediate,
    /// Nothing: the instruction names its target.
    Implied,
    /// The address stored at the absolute address.
    Indirect,
    /// The address stored in the zero page at `LL + X`, wrapping within the page.
    IndirectX,
    /// The address stored in the zero page at `LL`, plus Y.
    IndirectY,
    /// The address after the instruction plus a signed offset.
    Relative,
    /// The zero page address `$00LL`.
    Zeropage,
    /// The zero page address plus X.
    ZeropageX,
    /// The zero page address plus Y.
    ZeropageY,
}

/// An operand after its address mode was resolved.
#[derive(Clone, Copy, Debug, PartialEq, Eq, Structural)]
pub enum Operand {
    Implied,
    Immediate(u8),
    Address(u16),
}

/// The number of operand bytes that follow an opcode in each mode.
pub open spec fn spec_operand_size(mode: AddressMode) -> u16 {
    match mode {
        AddressMode::Accumulator | AddressMode::Implied => 0,
        AddressMode::Absolute | AddressMode::AbsoluteX | AddressMode::AbsoluteY
        | AddressMode::Indirect => 2,
        _ => 1,
    }
}

impl AddressMode {
    /// The number of operand bytes that follow an opcode in this mode.
    pub fn operand_size(&self) -> (r: u16)
        ensures
            r == spec_operand_size(*self),
    {
        match self {
            AddressMode::Accumulator => 0,
            AddressMode::Absolute => 2,
            AddressMode::AbsoluteX => 2,
            AddressMode::AbsoluteY => 2,
            AddressMode::Immediate => 1,
            AddressMode::Implied => 0,
            AddressMode::Indirect => 2,
            AddressMode::IndirectX => 1,
            AddressMode::IndirectY => 1,
            AddressMode::Relative => 1,
            AddressMode::Zeropage => 1,
            AddressMode::ZeropageX => 1,
            AddressMode::ZeropageY => 1,
        }
    }
}

/// The documented 6502 instructions.
#[derive(Clone, Copy, Debug, PartialEq, Eq, Structural)]
pub enum Instruction {
    ADC,
    AND,
    ASL,
    BCC,
    BCS,
    BEQ,
    BIT,
    BMI,
    BNE,
    BPL,
    BRK,
    BVC,
    BVS,
    CLC,
    CLD,
    CLI,
    CLV,
    CMP,
    CPX,
    CPY,
    DEC,
    DEX,
    DEY,
    EOR,
    INC,
    INX,
    INY,
    JMP,
    JSR,
    LDA,
    LDX,
    LDY,
    LSR,
    NOP,
    ORA,
    PHA,
    PHP,
    PLA,
    PLP,
    ROL,
    ROR,
    RTI,
    RTS,
    SBC,
    SEC,
    SED,
    SEI,
    STA,
    STX,
    STY,
    TAX,
    TAY,
    TSX,
    TXA,
    TXS,
    TYA,
}

/// The mnemonic of an instruction.
pub open spec fn mnemonic(ins: Instruction) -> Seq<char> {
    match ins {
        Instruction::ADC => "ADC"@,
        Instruction::AND => "AND"@,
        Instruction::ASL => "ASL"@,
        Instruction::BCC => "BCC"@,
        Instruction::BCS => "BCS"@,
        Instruction::BEQ => "BEQ"@,
        Instruction::BIT => "BIT"@,
        Instruction::BMI => "BMI"@,
        Instruction::BNE => "BNE"@,
        Instruction::BPL => "BPL"@,
        Instruction::BRK => "BRK"@,
        Instruction::BVC => "BVC"@,
        Instruction::BVS => "BVS"@,
        Instruction::CLC => "CLC"@,
        Instruction::CLD => "CLD"@,
        Instruction::CLI => "CLI"@,
        Instruction::CLV => "CLV"@,
        Instruction::CMP => "CMP"@,
        Instruction::CPX => "CPX"@,
        Instruction::CPY => "CPY"@,
        Instruction::DEC => "DEC"@,
        Instruction::DEX => "DEX"@,
        Instruction::DEY => "DEY"@,
        Instruction::EOR => "EOR"@,
        Instruction::INC => "INC"@,
        Instruction::INX => "INX"@,
        Instruction::INY => "INY"@,
        Instruction::JMP => "JMP"@,
        Instruction::JSR => "JSR"@,
        Instruction::LDA => "LDA"@,
        Instruction::LDX => "LDX"@,
        Instruction::LDY => "LDY"@,
        Instruction::LSR => "LSR"@,
        Instruction::NOP => "NOP"@,
        Instruction::ORA => "ORA"@,
        Instruction::PHA => "PHA"@,
        Instruction::PHP => "PHP"@,
        Instruction::PLA => "PLA"@,
        Instruction::PLP => "PLP"@,
        Instruction::ROL => "ROL"@,
        Instruction::ROR => "ROR"@,
        Instruction::RTI => "RTI"@,
        Instruction::RTS => "RTS"@,
        Instruction::SBC => "SBC"@,
        Instruction::SEC => "SEC"@,
        Instruction::SED => "SED"@,
        Instruction::SEI => "SEI"@,
        Instruction::STA => "STA"@,
        Instruction::STX => "STX"@,
        Instruction::STY => "STY"@,
        Instruction::TAX => "TAX"@,
        Instruction::TAY => "TAY"@,
        Instruction::TSX => "TSX"@,
        Instruction::TXA => "TXA"@,
        Instruction::TXS => "TXS"@,
        Instruction::TYA => "TYA"@,
    }
}

impl Instruction {
    /// The instruction's mnemonic.
    pub fn name(&self) -> (r: &'static str)
        ensures
            r@ == mnemonic(*self),
    {
        match self {
            Instruction::ADC => "ADC",
            Instruction::AND => "AND",
            Instruction::ASL => "ASL",
            Instruction::BCC => "BCC",
            Instruction::BCS => "BCS",
            Instruction::BEQ => "BEQ",
            Instruction::BIT => "BIT",
            Instruction::BMI => "BMI",
            Instruction::BNE => "BNE",
            Instruction::BPL => "BPL",
            Instruction::BRK => "BRK",
            Instruction::BVC => "BVC",
            Instruction::BVS => "BVS",
            Instruction::CLC => "CLC",
            Instruction::CLD => "CLD",
            Instruction::CLI => "CLI",
            Instruction::CLV => "CLV",
            Instruction::CMP => "CMP",
            Instruction::CPX => "CPX",
            Instruction::CPY => "CPY",
            Instruction::DEC => "DEC",
            Instruction::DEX => "DEX",
            Instruction::DEY => "DEY",
            Instruction::EOR => "EOR",
            Instruction::INC => "INC",
            Instruction::INX => "INX",
            Instruction::INY => "INY",
            Instruction::JMP => "JMP",
            Instruction::JSR => "JSR",
            Instruction::LDA => "LDA",
            Instruction::LDX => "LDX",
            Instruction::LDY => "LDY",
            Instruction::LSR => "LSR",
            Instruction::NOP => "NOP",
            Instruction::ORA => "ORA",
            Instruction::PHA => "PHA",
            Instruction::PHP => "PHP",
            Instruction::PLA => "PLA",
            Instruction::PLP => "PLP",
            Instruction::ROL => "ROL",
            Instruction::ROR => "ROR",
            Instruction::RTI => "RTI",
            Instruction::RTS => "RTS",
            Instruction::SBC => "SBC",
            Instruction::SEC => "SEC",
            Instruction::SED => "SED",
            Instruction::SEI => "SEI",
            Instruction::STA => "STA",
            Instruction::STX => "STX",
            Instruction::STY => "STY",
            Instruction::TAX => "TAX",
            Instruction::TAY => "TAY",
            Instruction::TSX => "TSX",
            Instruction::TXA => "TXA",
            Instruction::TXS => "TXS",
            Instruction::TYA => "TYA",
        }
    }
}

/// The 6502 opcode matrix: the instruction, address mode and base cycle count
/// of each defined opcode.
pub open spec fn opcode_table(op_code: u8) -> Option<(Instruction, AddressMode, u8)> {
    match op_code {
        0x00 => Some((Instruction::BRK, AddressMode::Implied, 7)),
        0x01 => Some((Instruction::ORA, AddressMode::IndirectX, 6)),
        0x05 => Some((Instruction::ORA, AddressMode::Zeropage, 3)),
        0x06 => Some((Instruction::ASL, AddressMode::Zeropage, 5)),
        0x08 => Some((Instruction::PHP, AddressMode::Implied, 3)),
        0x09 => Some((Instruction::ORA, AddressMode::Immediate, 2)),
        0x0a => Some((Instruction::ASL, AddressMode::Accumulator, 2)),
        0x0d => Some((Instruction::ORA, AddressMode::Absolute, 4)),
        0x0e => Some((Instruction::ASL, AddressMode::Absolute, 6)),
        0x10 => Some((Instruction::BPL, AddressMode::Relative, 2)),
        0x11 => Some((Instruction::ORA, AddressMode::IndirectY, 5)),
        0x15 => Some((Instruction::ORA, AddressMode::ZeropageX, 4)),
        0x16 => Some((Instruction::ASL, AddressMode::ZeropageX, 6)),
        0x18 => Some((Instruction::CLC, AddressMode::Implied, 2)),
        0x19 => Some((Instruction::ORA, AddressMode::AbsoluteY, 4)),
        0x1d => Some((Instruction::ORA, AddressMode::AbsoluteX, 4)),
        0x1e => Some((Instruction::ASL, AddressMode::AbsoluteX, 7)),
        0x20 => Some((Instruction::JSR, AddressMode::Absolute, 6)),
        0x21 => Some((Instruction::AND, AddressMode::IndirectX, 6)),
        0x24 => Some((Instruction::BIT, AddressMode::Zeropage, 3)),
        0x25 => Some((Instruction::AND, AddressMode::Zeropage, 3)),
        0x26 => Some((Instruction::ROL, AddressMode::Zeropage, 5)),
        0x28 => Some((Instruction::PLP, AddressMode::Implied, 4)),
        0x29 => Some((Instruction::AND, AddressMode::Immediate, 2)),
        0x2a => Some((Instruction::ROL, AddressMode::Accumulator, 2)),
        0x2c => Some((Instruction::BIT, AddressMode::Absolute, 4)),
        0x2d => Some((Instruction::AND, AddressMode::Absolute, 4)),
        0x2e => Some((Instruction::ROL, AddressMode::Absolute, 6)),
        0x30 => Some((Instruction::BMI, AddressMode::Relative, 2)),
        0x31 => Some((Instruction::AND, AddressMode::IndirectY, 5)),
        0x35 => Some((Instruction::AND, AddressMode::ZeropageX, 4)),
        0x36 => Some((Instruction::ROL, AddressMode::ZeropageX, 6)),
        0x38 => Some((Instruction::SEC, AddressMode::Implied, 2)),
        0x39 => Some((Instruction::AND, AddressMode::AbsoluteY, 4)),
        0x3d => Some((Instruction::AND, AddressMode::AbsoluteX, 4)),
        0x3e => Some((Instruction::ROL, AddressMode::AbsoluteX, 7)),
        0x40 => Some((Instruction::RTI, AddressMode::Implied, 6)),
        0x41 => Some((Instruction::EOR, AddressMode::IndirectX, 6)),
        0x45 => Some((Instruction::EOR, AddressMode::Zeropage, 3)),
        0x46 => Some((Instruction::LSR, AddressMode::Zeropage, 5)),
        0x48 => Some((Instruction::PHA, AddressMode::Implied, 3)),
        0x49 => Some((Instruction::EOR, AddressMode::Immediate, 2)),
        0x4a => Some((Instruction::LSR, AddressMode::Accumulator, 2)),
        0x4c => Some((Instruction::JMP, AddressMode::Absolute, 3)),
        0x4d => Some((Instruction::EOR, AddressMode::Absolute, 4)),
        0x4e => Some((Instruction::LSR, AddressMode::Absolute, 6)),
        0x50 => Some((Instruction::BVC, AddressMode::Relative, 2)),
        0x51 => Some((Instruction::EOR, AddressMode::IndirectY, 5)),
        0x55 => Some((Instruction::EOR, AddressMode::ZeropageX, 4)),
        0x56 => Some((Instruction::LSR, AddressMode::ZeropageX, 6)),
        0x58 => Some((Instruction::CLI, AddressMode::Implied, 2)),
        0x59 => Some((Instruction::EOR, AddressMode::AbsoluteY, 4)),
        0x5d => Some((Instruction::EOR, AddressMode::AbsoluteX, 4)),
        0x5e => Some((Instruction::LSR, AddressMode::AbsoluteX, 7)),
        0x60 => Some((Instruction::RTS, AddressMode::Implied, 6)),
        0x61 => Some((Instruction::ADC, AddressMode::IndirectX, 6)),
        0x65 => Some((Instruction::ADC, AddressMode::Zeropage, 3)),
        0x66 => Some((Instruction::ROR, AddressMode::Zeropage, 5)),
        0x68 => Some((Instruction::PLA, AddressMode::Implied, 4)),
        0x69 => Some((Instruction::ADC, AddressMode::Immediate, 2)),
        0x6a => Some((Instruction::ROR, AddressMode::Accumulator, 2)),
        0x6c => Some((Instruction::JMP, AddressMode::Indirect, 5)),
        0x6d => Some((Instruction::ADC, AddressMode::Absolute, 4)),
        0x6e => Some((Instruction::ROR, AddressMode::Absolute, 6)),
        0x70 => Some((Instruction::BVS, AddressMode::Relative, 2)),
        0x71 => Some((Instruction::ADC, AddressMode::IndirectY, 5)),
        0x75 => Some((Instruction::ADC, AddressMode::ZeropageX, 4)),
        0x76 => Some((Instruction::ROR, AddressMode::ZeropageX, 6)),
        0x78 => Some((Instruction::SEI, AddressMode::Implied, 2)),
        0x79 => Some((Instruction::ADC, AddressMode::AbsoluteY, 4)),
        0x7d => Some((Instruction::ADC, AddressMode::AbsoluteX, 4)),
        0x7e => Some((Instruction::ROR, AddressMode::AbsoluteX, 7)),
        0x81 => Some((Instruction::STA, AddressMode::IndirectX, 6)),
        0x84 => Some((Instruction::STY, AddressMode::Zeropage, 3)),
        0x85 => Some((Instruction::STA, AddressMode::Zeropage, 3)),
        0x86 => Some((Instruction::STX, AddressMode::Zeropage, 3)),
        0x88 => Some((Instruction::DEY, AddressMode::Implied, 2)),
        0x8a => Some((Instruction::TXA, AddressMode::Implied, 2)),
        0x8c => Some((Instruction::STY, AddressMode::Absolute, 4)),
        0x8d => Some((Instruction::STA, AddressMode::Absolute, 4)),
        0x8e => Some((Instruction::STX, AddressMode::Absolute, 4)),
        0x90 => Some((Instruction::BCC, AddressMode::Relative, 2)),
        0x91 => Some((Instruction::STA, AddressMode::IndirectY, 6)),
        0x94 => Some((Instruction::STY, AddressMode::ZeropageX, 4)),
        0x95 => Some((Instruction::STA, AddressMode::ZeropageX, 4)),
        0x96 => Some((Instruction::STX, AddressMode::ZeropageY, 4)),
        0x98 => Some((Instruction::TYA, AddressMode::Implied, 2)),
        0x99 => Some((Instruction::STA, AddressMode::AbsoluteY, 5)),
        0x9a => Some((Instruction::TXS, AddressMode::Implied, 2)),
        0x9d => Some((Instruction::STA, AddressMode::AbsoluteX, 5)),
        0xa0 => Some((Instruction::LDY, AddressMode::Immediate, 2)),
        0xa1 => Some((Instruction::LDA, AddressMode::IndirectX, 6)),
        0xa2 => Some((Instruction::LDX, AddressMode::Immediate, 2)),
        0xa4 => Some((Instruction::LDY, AddressMode::Zeropage, 3)),
        0xa5 => Some((Instruction::LDA, AddressMode::Zeropage, 3)),
        0xa6 => Some((Instruction::LDX, AddressMode::Zeropage, 3)),
        0xa8 => Some((Instruction::TAY, AddressMode::Implied, 2)),
        0xa9 => Some((Instruction::LDA, AddressMode::Immediate, 2)),
        0xaa => Some((Instruction::TAX, AddressMode::Implied, 2)),
        0xac => Some((Instruction::LDY, AddressMode::Absolute, 4)),
        0xad => Some((Instruction::LDA, AddressMode::Absolute, 4)),
        0xae => Some((Instruction::LDX, AddressMode::Absolute, 4)),
        0xb0 => Some((Instruction::BCS, AddressMode::Relative, 2)),
        0xb1 => Some((Instruction::LDA, AddressMode::IndirectY, 5)),
        0xb4 => Some((Instruction::LDY, AddressMode::ZeropageX, 4)),
        0xb5 => Some((Instruction::LDA, AddressMode::ZeropageX, 4)),
        0xb6 => Some((Instruction::LDX, AddressMode::ZeropageY, 4)),
        0xb8 => Some((Instruction::CLV, AddressMode::Implied, 2)),
        0xb9 => Some((Instruction::LDA, AddressMode::AbsoluteY, 4)),
        0xba => Some((Instruction::TSX, AddressMode::Implied, 2)),
        0xbc => Some((Instruction::LDY, AddressMode::AbsoluteX, 4)),
        0xbd => Some((Instruction::LDA, AddressMode::AbsoluteX, 4)),
        0xbe => Some((Instruction::LDX, AddressMode::AbsoluteY, 4)),
        0xc0 => Some((Instruction::CPY, AddressMode::Immediate, 2)),
        0xc1 => Some((Instruction::CMP, AddressMode::IndirectX, 6)),
        0xc4 => Some((Instruction::CPY, AddressMode::Zeropage, 3)),
        0xc5 => Some((Instruction::CMP, AddressMode::Zeropage, 3)),
        0xc6 => Some((Instruction::DEC, AddressMode::Zeropage, 5)),
        0xc8 => Some((Instruction::INY, AddressMode::Implied, 2)),
        0xc9 => Some((Instruction::CMP, AddressMode::Immediate, 2)),
        0xca => Some((Instruction::DEX, AddressMode::Implied, 2)),
        0xcc => Some((Instruction::CPY, AddressMode::Absolute, 4)),
        0xcd => Some((Instruction::CMP, AddressMode::Absolute, 4)),
        0xce => Some((Instruction::DEC, AddressMode::Absolute, 6)),
        0xd0 => Some((Instruction::BNE, AddressMode::Relative, 2)),
        0xd1 => Some((Instruction::CMP, AddressMode::IndirectY, 5)),
        0xd5 => Some((Instruction::CMP, AddressMode::ZeropageX, 4)),
        0xd6 => Some((Instruction::DEC, AddressMode::ZeropageX, 6)),
        0xd8 => Some((Instruction::CLD, AddressMode::Implied, 2)),
        0xd9 => Some((Instruction::CMP, AddressMode::AbsoluteY, 4)),
        0xdd => Some((Instruction::CMP, AddressMode::AbsoluteX, 4)),
        0xde => Some((Instruction::DEC, AddressMode::AbsoluteX, 7)),
        0xe0 => Some((Instruction::CPX, AddressMode::Immediate, 2)),
        0xe1 => Some((Instruction::SBC, AddressMode::IndirectX, 6)),
        0xe4 => Some((Instruction::CPX, AddressMode::Zeropage, 3)),
        0xe5 => Some((Instruction::SBC, AddressMode::Zeropage, 3)),
        0xe6 => Some((Instruction::INC, AddressMode::Zeropage, 5)),
        0xe8 => Some((Instruction::INX, AddressMode::Implied, 2)),
        0xe9 => Some((Instruction::SBC, AddressMode::Immediate, 2)),
        0xea => Some((Instruction::NOP, AddressMode::Implied, 2)),
        0xec => Some((Instruction::CPX, AddressMode::Absolute, 4)),
        0xed => Some((Instruction::SBC, AddressMode::Absolute, 4)),
        0xee => Some((Instruction::INC, AddressMode::Absolute, 6)),
        0xf0 => Some((Instruction::BEQ, AddressMode::Relative, 2)),
        0xf1 => Some((Instruction::SBC, AddressMode::IndirectY, 5)),
        0xf5 => Some((Instruction::SBC, AddressMode::ZeropageX, 4)),
        0xf6 => Some((Instruction::INC, AddressMode::ZeropageX, 6)),
        0xf8 => Some((Instruction::SED, AddressMode::Implied, 2)),
        0xf9 => Some((Instruction::SBC, AddressMode::AbsoluteY, 4)),
        0xfd => Some((Instruction::SBC, AddressMode::AbsoluteX, 4)),
        0xfe => Some((Instruction::INC, AddressMode::AbsoluteX, 7)),
        _ => None,
    }
}

/// Decodes an opcode into its instruction, address mode and base cycle count,
/// or `None` where the opcode is undefined.
pub fn decode_instruction(op_code: u8) -> (r: Option<(Instruction, AddressMode, u8)>)
    ensures
        r == opcode_table(op_code),
{
    match op_code {
        0x00 => Some((Instruction::BRK, AddressMode::Implied, 7)),
        0x01 => Some((Instruction::ORA, AddressMode::IndirectX, 6)),
        0x05 => Some((Instruction::ORA, AddressMode::Zeropage, 3)),
        0x06 => Some((Instruction::ASL, AddressMode::Zeropage, 5)),
        0x08 => Some((Instruction::PHP, AddressMode::Implied, 3)),
        0x09 => Some((Instruction::ORA, AddressMode::Immediate, 2)),
        0x0a => Some((Instruction::ASL, AddressMode::Accumulator, 2)),
        0x0d => Some((Instruction::ORA, AddressMode::Absolute, 4)),
        0x0e => Some((Instruction::ASL, AddressMode::Absolute, 6)),
        0x10 => Some((Instruction::BPL, AddressMode::Relative, 2)),
        0x11 => Some((Instruction::ORA, AddressMode::IndirectY, 5)),
        0x15 => Some((Instruction::ORA, AddressMode::ZeropageX, 4)),
        0x16 => Some((Instruction::ASL, AddressMode::ZeropageX, 6)),
        0x18 => Some((Instruction::CLC, AddressMode::Implied, 2)),
        0x19 => Some((Instruction::ORA, AddressMode::AbsoluteY, 4)),
        0x1d => Some((Instruction::ORA, AddressMode::AbsoluteX, 4)),
        0x1e => Some((Instruction::ASL, AddressMode::AbsoluteX, 7)),
        0x20 => Some((Instruction::JSR, AddressMode::Absolute, 6)),
        0x21 => Some((Instruction::AND, AddressMode::IndirectX, 6)),
        0x24 => Some((Instruction::BIT, AddressMode::Zeropage, 3)),
        0x25 => Some((Instruction::AND, AddressMode::Zeropage, 3)),
        0x26 => Some((Instruction::ROL, AddressMode::Zeropage, 5)),
        0x28 => Some((Instruction::PLP, AddressMode::Implied, 4)),
        0x29 => Some((Instruction::AND, AddressMode::Immediate, 2)),
        0x2a => Some((Instruction::ROL, AddressMode::Accumulator, 2)),
        0x2c => Some((Instruction::BIT, AddressMode::Absolute, 4)),
        0x2d => Some((Instruction::AND, AddressMode::Absolute, 4)),
        0x2e => Some((Instruction::ROL, AddressMode::Absolute, 6)),
        0x30 => Some((Instruction::BMI, AddressMode::Relative, 2)),
        0x31 => Some((Instruction::AND, AddressMode::IndirectY, 5)),
        0x35 => Some((Instruction::AND, AddressMode::ZeropageX, 4)),
        0x36 => Some((Instruction::ROL, AddressMode::ZeropageX, 6)),
        0x38 => Some((Instruction::SEC, AddressMode::Implied, 2)),
        0x39 => Some((Instruction::AND, AddressMode::AbsoluteY, 4)),
        0x3d => Some((Instruction::AND, AddressMode::AbsoluteX, 4)),
        0x3e => Some((Instruction::ROL, AddressMode::AbsoluteX, 7)),
        0x40 => Some((Instruction::RTI, AddressMode::Implied, 6)),
        0x41 => Some((Instruction::EOR, AddressMode::IndirectX, 6)),
        0x45 => Some((Instruction::EOR, AddressMode::Zeropage, 3)),
        0x46 => Some((Instruction::LSR, AddressMode::Zeropage, 5)),
        0x48 => Some((Instruction::PHA, AddressMode::Implied, 3)),
        0x49 => Some((Instruction::EOR, AddressMode::Immediate, 2)),
        0x4a => Some((Instruction::LSR, AddressMode::Accumulator, 2)),
        0x4c => Some((Instruction::JMP, AddressMode::Absolute, 3)),
        0x4d => Some((Instruction::EOR, AddressMode::Absolute, 4)),
        0x4e => Some((Instruction::LSR, AddressMode::Absolute, 6)),
        0x50 => Some((Instruction::BVC, AddressMode::Relative, 2)),
        0x51 => Some((Instruction::EOR, AddressMode::IndirectY, 5)),
        0x55 => Some((Instruction::EOR, AddressMode::ZeropageX, 4)),
        0x56 => Some((Instruction::LSR, AddressMode::ZeropageX, 6)),
        0x58 => Some((Instruction::CLI, AddressMode::Implied, 2)),
        0x59 => Some((Instruction::EOR, AddressMode::AbsoluteY, 4)),
        0x5d => Some((Instruction::EOR, AddressMode::AbsoluteX, 4)),
        0x5e => Some((Instruction::LSR, AddressMode::AbsoluteX, 7)),
        0x60 => Some((Instruction::RTS, AddressMode::Implied, 6)),
        0x61 => Some((Instruction::ADC, AddressMode::IndirectX, 6)),
        0x65 => Some((Instruction::ADC, AddressMode::Zeropage, 3)),
        0x66 => Some((Instruction::ROR, AddressMode::Zeropage, 5)),
        0x68 => Some((Instruction::PLA, AddressMode::Implied, 4)),
        0x69 => Some((Instruction::ADC, AddressMode::Immediate, 2)),
        0x6a => Some((Instruction::ROR, AddressMode::Accumulator, 2)),
        0x6c => Some((Instruction::JMP, AddressMode::Indirect, 5)),
        0x6d => Some((Instruction::ADC, AddressMode::Absolute, 4)),
        0x6e => Some((Instruction::ROR, AddressMode::Absolute, 6)),
        0x70 => Some((Instruction::BVS, AddressMode::Relative, 2)),
        0x71 => Some((Instruction::ADC, AddressMode::IndirectY, 5)),
        0x75 => Some((Instruction::ADC, AddressMode::ZeropageX, 4)),
        0x76 => Some((Instruction::ROR, AddressMode::ZeropageX, 6)),
        0x78 => Some((Instruction::SEI, AddressMode::Implied, 2)),
        0x79 => Some((Instruction::ADC, AddressMode::AbsoluteY, 4)),
        0x7d => Some((Instruction::ADC, AddressMode::AbsoluteX, 4)),
        0x7e => Some((Instruction::ROR, AddressMode::AbsoluteX, 7)),
        0x81 => Some((Instruction::STA, AddressMode::IndirectX, 6)),
        0x84 => Some((Instruction::STY, AddressMode::Zeropage, 3)),
        0x85 => Some((Instruction::STA, AddressMode::Zeropage, 3)),
        0x86 => Some((Instruction::STX, AddressMode::Zeropage, 3)),
        0x88 => Some((Instruction::DEY, AddressMode::Implied, 2)),
        0x8a => Some((Instruction::TXA, AddressMode::Implied, 2)),
        0x8c => Some((Instruction::STY, AddressMode::Absolute, 4)),
        0x8d => Some((Instruction::STA, AddressMode::Absolute, 4)),
        0x8e => Some((Instruction::STX, AddressMode::Absolute, 4)),
        0x90 => Some((Instruction::BCC, AddressMode::Relative, 2)),
        0x91 => Some((Instruction::STA, AddressMode::IndirectY, 6)),
        0x94 => Some((Instruction::STY, AddressMode::ZeropageX, 4)),
        0x95 => Some((Instruction::STA, AddressMode::ZeropageX, 4)),
        0x96 => Some((Instruction::STX, AddressMode::ZeropageY, 4)),
        0x98 => Some((Instruction::TYA, AddressMode::Implied, 2)),
        0x99 => Some((Instruction::STA, AddressMode::AbsoluteY, 5)),
        0x9a => Some((Instruction::TXS, AddressMode::Implied, 2)),
        0x9d => Some((Instruction::STA, AddressMode::AbsoluteX, 5)),
        0xa0 => Some((Instruction::LDY, AddressMode::Immediate, 2)),
        0xa1 => Some((Instruction::LDA, AddressMode::IndirectX, 6)),
        0xa2 => Some((Instruction::LDX, AddressMode::Immediate, 2)),
        0xa4 => Some((Instruction::LDY, AddressMode::Zeropage, 3)),
        0xa5 => Some((Instruction::LDA, AddressMode::Zeropage, 3)),
        0xa6 => Some((Instruction::LDX, AddressMode::Zeropage, 3)),
        0xa8 => Some((Instruction::TAY, AddressMode::Implied, 2)),
        0xa9 => Some((Instruction::LDA, AddressMode::Immediate, 2)),
        0xaa => Some((Instruction::TAX, AddressMode::Implied, 2)),
        0xac => Some((Instruction::LDY, AddressMode::Absolute, 4)),
        0xad => Some((Instruction::LDA, AddressMode::Absolute, 4)),
        0xae => Some((Instruction::LDX, AddressMode::Absolute, 4)),
        0xb0 => Some((Instruction::BCS, AddressMode::Relative, 2)),
        0xb1 => Some((Instruction::LDA, AddressMode::IndirectY, 5)),
        0xb4 => Some((Instruction::LDY, AddressMode::ZeropageX, 4)),
        0xb5 => Some((Instruction::LDA, AddressMode::ZeropageX, 4)),
        0xb6 => Some((Instruction::LDX, AddressMode::ZeropageY, 4)),
        0xb8 => Some((Instruction::CLV, AddressMode::Implied, 2)),
        0xb9 => Some((Instruction::LDA, AddressMode::AbsoluteY, 4)),
        0xba => Some((Instruction::TSX, AddressMode::Implied, 2)),
        0xbc => Some((Instruction::LDY, AddressMode::AbsoluteX, 4)),
        0xbd => Some((Instruction::LDA, AddressMode::AbsoluteX, 4)),
        0xbe => Some((Instruction::LDX, AddressMode::AbsoluteY, 4)),
        0xc0 => Some((Instruction::CPY, AddressMode::Immediate, 2)),
        0xc1 => Some((Instruction::CMP, AddressMode::IndirectX, 6)),
        0xc4 => Some((Instruction::CPY, AddressMode::Zeropage, 3)),
        0xc5 => Some((Instruction::CMP, AddressMode::Zeropage, 3)),
        0xc6 => Some((Instruction::DEC, AddressMode::Zeropage, 5)),
        0xc8 => Some((Instruction::INY, AddressMode::Implied, 2)),
        0xc9 => Some((Instruction::CMP, AddressMode::Immediate, 2)),
        0xca => Some((Instruction::DEX, AddressMode::Implied, 2)),
        0xcc => Some((Instruction::CPY, AddressMode::Absolute, 4)),
        0xcd => Some((Instruction::CMP, AddressMode::Absolute, 4)),
        0xce => Some((Instruction::DEC, AddressMode::Absolute, 6)),
        0xd0 => Some((Instruction::BNE, AddressMode::Relative, 2)),
        0xd1 => Some((Instruction::CMP, AddressMode::IndirectY, 5)),
        0xd5 => Some((Instruction::CMP, AddressMode::ZeropageX, 4)),
        0xd6 => Some((Instruction::DEC, AddressMode::ZeropageX, 6)),
        0xd8 => Some((Instruction::CLD, AddressMode::Implied, 2)),
        0xd9 => Some((Instruction::CMP, AddressMode::AbsoluteY, 4)),
        0xdd => Some((Instruction::CMP, AddressMode::AbsoluteX, 4)),
        0xde => Some((Instruction::DEC, AddressMode::AbsoluteX, 7)),
        0xe0 => Some((Instruction::CPX, AddressMode::Immediate, 2)),
        0xe1 => Some((Instruction::SBC, AddressMode::IndirectX, 6)),
        0xe4 => Some((Instruction::CPX, AddressMode::Zeropage, 3)),
        0xe5 => Some((Instruction::SBC, AddressMode::Zeropage, 3)),
        0xe6 => Some((Instruction::INC, AddressMode::Zeropage, 5)),
        0xe8 => Some((Instruction::INX, AddressMode::Implied, 2)),
        0xe9 => Some((Instruction::SBC, AddressMode::Immediate, 2)),
        0xea => Some((Instruction::NOP, AddressMode::Implied, 2)),
        0xec => Some((Instruction::CPX, AddressMode::Absolute, 4)),
        0xed => Some((Instruction::SBC, AddressMode::Absolute, 4)),
        0xee => Some((Instruction::INC, AddressMode::Absolute, 6)),
        0xf0 => Some((Instruction::BEQ, AddressMode::Relative, 2)),
        0xf1 => Some((Instruction::SBC, AddressMode::IndirectY, 5)),
        0xf5 => Some((Instruction::SBC, AddressMode::ZeropageX, 4)),
        0xf6 => Some((Instruction::INC, AddressMode::ZeropageX, 6)),
        0xf8 => Some((Instruction::SED, AddressMode::Implied, 2)),
        0xf9 => Some((Instruction::SBC, AddressMode::AbsoluteY, 4)),
        0xfd => Some((Instruction::SBC, AddressMode::AbsoluteX, 4)),
        0xfe => Some((Instruction::INC, AddressMode::AbsoluteX, 7)),
        _ => None,
    }
}

} // verus!
