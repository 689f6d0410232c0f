use vstd::prelude::*;
use crate::bus::{
    Addressable, Bus, address_of, high_byte, lo_hi_to_address, low_byte, wrap16, address_to_bytes,
};
use crate::instruction::{
    AddressMode, Instruction, Operand, decode_instruction, opcode_table, spec_operand_size,
};
use crate::status::{Status, power_on_status, status_byte, status_of_byte};
use crate::inspect::{
    CpuState, ExecutedInstruction, instruction_text, instruction_to_string, undefined_text,
    undefined_to_string,
};

verus! {

/// Where the address of the non-maskable interrupt handler is stored.
pub const NMI_ADDRESS: u16 = 0xfffa;

/// Where the address of the reset code is stored.
pub const RESET_ADDRESS: u16 = 0xfffc;

/// Where the address of the interrupt request handler is stored.
pub const IRQ_ADDRESS: u16 = 0xfffe;

/// The most records that the execution history keeps.
pub const HISTORY_LENGTH: usize = 256;

/// A number of clock cycles.
pub type TickCount = u16;

/// An integer taken modulo 256.
pub open spec fn wrap8(x: int) -> u8 {
    (x % 256) as u8
}

/// A byte read as a two's complement signed number.
pub open spec fn signed(b: u8) -> int {
    if b < 128 {
        b as int
    } else {
        b - 256
    }
}

/// The address of the stack slot that the stack pointer names, in page 1.
pub open spec fn stack_address(sp: u8) -> u16 {
    (0x100 + sp) as u16
}

/// The page of an address.
pub open spec fn page(address: u16) -> int {
    address as int / 256
}

/// The processor as a mathematical value: its registers, the byte at each of
/// the 65 536 addresses, and the addresses where writes are kept.
pub struct CpuModel {
    pub a: u8,
    pub x: u8,
    pub y: u8,
    pub sp: u8,
    pub pc: u16,
    pub p: Status,
    pub mem: Seq<u8>,
    pub writable: Set<u16>,
}

impl CpuModel {
    /// The byte at an address.
    pub open spec fn read(self, address: u16) -> u8 {
        self.mem[address as int]
    }

    /// The little-endian address stored at `address` and the address after it.
    pub open spec fn read_pair(self, address: u16) -> u16 {
        address_of(self.read(address), self.read(wrap16(address + 1)))
    }

    /// The state after writing a byte; writes to non-writable addresses are dropped.
    pub open spec fn write(self, address: u16, value: u8) -> CpuModel {
        if self.writable.contains(address) {
            CpuModel { mem: self.mem.update(address as int, value), ..self }
        } else {
            self
        }
    }

    /// The state after pushing a byte: it is written at the stack pointer,
    /// which then moves down by one, wrapping within the page.
    pub open spec fn push(self, value: u8) -> CpuModel {
        CpuModel { sp: wrap8(self.sp - 1), ..self.write(stack_address(self.sp), value) }
    }

    /// The stack pointer after a pull: one up, wrapping within the page.
    pub open spec fn pull_sp(self) -> u8 {
        wrap8(self.sp + 1)
    }

    /// The byte that a pull gives.
    pub open spec fn pulled(self) -> u8 {
        self.read(stack_address(self.pull_sp()))
    }

    /// The state after a pull.
    pub open spec fn pull(self) -> CpuModel {
        CpuModel { sp: self.pull_sp(), ..self }
    }

    /// The status with Z and N set from a result.
    pub open spec fn nz(self, value: u8) -> Status {
        Status { zero: value == 0, negative: value >= 128, ..self.p }
    }

    pub open spec fn set_a(self, value: u8) -> CpuModel {
        CpuModel { a: value, p: self.nz(value), ..self }
    }

    pub open spec fn set_x(self, value: u8) -> CpuModel {
        CpuModel { x: value, p: self.nz(value), ..self }
    }

    pub open spec fn set_y(self, value: u8) -> CpuModel {
        CpuModel { y: value, p: self.nz(value), ..self }
    }
}

/// The byte at each address of a bus.
pub open spec fn bus_memory(bus: Bus) -> Seq<u8> {
    Seq::new(0x10000, |i: int| bus.byte_at(i as u16))
}

/// The addresses of a bus where writes are kept.
pub open spec fn bus_writable(bus: Bus) -> Set<u16> {
    Set::new(|a: u16| bus.keeps_write(a))
}

/// The processor's architectural state on a bus, with a bounded history of
/// the instructions it executed.
pub struct Cpu {
    pub bus: Bus,
    accumulator: u8,
    x_index: u8,
    y_index: u8,
    stack_pointer: u8,
    program_counter: u16,
    status: Status,
    execution_history: Vec<ExecutedInstruction>,
}

impl View for Cpu {
    type V = CpuModel;

    closed spec fn view(&self) -> CpuModel {
        CpuModel {
            a: self.accumulator,
            x: self.x_index,
            y: self.y_index,
            sp: self.stack_pointer,
            pc: self.program_counter,
            p: self.status,
            mem: bus_memory(self.bus),
            writable: bus_writable(self.bus),
        }
    }
}

impl Cpu {
    /// The invariant of the processor: its bus is well formed and its history bounded.
    pub closed spec fn wf(&self) -> bool {
        &&& self.bus.wf()
        &&& self.execution_history@.len() <= HISTORY_LENGTH
    }

    /// The records of the instructions executed last, oldest first.
    pub closed spec fn history(&self) -> Seq<ExecutedInstruction> {
        self.execution_history@
    }

    proof fn lemma_view_mem(&self)
        ensures
            self@.mem.len() == 0x10000,
            forall|a: u16| #[trigger] self@.read(a) == self.bus.byte_at(a),
            forall|a: u16| #[trigger] self@.writable.contains(a) == self.bus.keeps_write(a),
    {
    }

    fn read_mem(&self, address: u16) -> (r: u8)
        requires
            self.wf(),
        ensures
            r == self@.read(address),
    {
        proof {
            self.lemma_view_mem();
        }
        self.bus.read_byte(address)
    }

    fn read_pair(&self, address: u16) -> (r: u16)
        requires
            self.wf(),
        ensures
            r == self@.read_pair(address),
    {
        proof {
            self.lemma_view_mem();
        }
        self.bus.read_address(address)
    }

    fn write_mem(&mut self, address: u16, value: u8)
        requires
            old(self).wf(),
        ensures
            final(self).wf(),
            final(self)@ == old(self)@.write(address, value),
            final(self).history() == old(self).history(),
    {
        proof {
            old(self).lemma_view_mem();
        }
        self.bus.write_byte(address, value);
        proof {
            self.lemma_view_mem();
            let o = old(self)@;
            if o.writable.contains(address) {
                assert(self@.mem =~= o.mem.update(address as int, value));
            } else {
                assert(self@.mem =~= o.mem);
            }
            assert(self@.writable =~= o.writable);
        }
    }

    /// Pushes a byte on the stack in page 1: it is written at `$0100` plus the
    /// stack pointer, which then moves down by one, wrapping within its byte.
    pub fn push_stack(&mut self, value: u8)
        requires
            old(self).wf(),
        ensures
            final(self).wf(),
            final(self)@ == old(self)@.push(value),
            final(self).history() == old(self).history(),
    {
        let address = lo_hi_to_address(self.stack_pointer, 0x01);
        self.write_mem(address, value);
        self.stack_pointer = self.stack_pointer.wrapping_sub(1);
    }

    /// Pulls the byte on top of the stack: the stack pointer moves up by one,
    /// wrapping within its byte, and the byte at `$0100` plus it is returned.
    pub fn pull_stack(&mut self) -> (r: u8)
        requires
            old(self).wf(),
        ensures
            final(self).wf(),
            final(self)@ == old(self)@.pull(),
            r == old(self)@.pulled(),
            final(self).history() == old(self).history(),
    {
        self.stack_pointer = self.stack_pointer.wrapping_add(1);
        let address = lo_hi_to_address(self.stack_pointer, 0x01);
        self.read_mem(address)
    }

    fn set_zero_and_negative(&mut self, value: u8)
        ensures
            final(self)@ == (CpuModel { p: old(self)@.nz(value), ..old(self)@ }),
            final(self).wf() == old(self).wf(),
            final(self).history() == old(self).history(),
    {
        self.status.zero = value == 0;
        self.status.negative = value >= 0x80;
    }

    fn set_accumulator(&mut self, value: u8)
        ensures
            final(self)@ == old(self)@.set_a(value),
            final(self).wf() == old(self).wf(),
            final(self).history() == old(self).history(),
    {
        self.accumulator = value;
        self.set_zero_and_negative(value);
    }

    fn set_x_index(&mut self, value: u8)
        ensures
            final(self)@ == old(self)@.set_x(value),
            final(self).wf() == old(self).wf(),
            final(self).history() == old(self).history(),
    {
        self.x_index = value;
        self.set_zero_and_negative(value);
    }

    fn set_y_index(&mut self, value: u8)
        ensures
            final(self)@ == old(self)@.set_y(value),
            final(self).wf() == old(self).wf(),
            final(self).history() == old(self).history(),
    {
        self.y_index = value;
        self.set_zero_and_negative(value);
    }
}

/// The effective operand of an instruction at `s.pc` whose operand bytes are `lo` and `hi`.
pub open spec fn operand_of(s: CpuModel, mode: AddressMode, lo: u8, hi: u8) -> Operand {
    match mode {
        AddressMode::Accumulator | AddressMode::Implied => Operand::Implied,
        AddressMode::Immediate => Operand::Immediate(lo),
        AddressMode::Absolute => Operand::Address(address_of(lo, hi)),
        AddressMode::AbsoluteX => Operand::Address(wrap16(address_of(lo, hi) + s.x)),
        AddressMode::AbsoluteY => Operand::Address(wrap16(address_of(lo, hi) + s.y)),
        AddressMode::Indirect => Operand::Address(s.read_pair(address_of(lo, hi))),
        AddressMode::IndirectX => Operand::Address(zero_page_pointer(s, wrap8(lo + s.x))),
        AddressMode::IndirectY => Operand::Address(wrap16(zero_page_pointer(s, lo) + s.y)),
        AddressMode::Relative => Operand::Address(wrap16(s.pc + 2 + signed(lo))),
        AddressMode::Zeropage => Operand::Address(lo as u16),
        AddressMode::ZeropageX => Operand::Address(wrap16(lo + s.x)),
        AddressMode::ZeropageY => Operand::Address(wrap16(lo + s.y)),
    }
}

/// The address stored in the zero page at `z` and `z + 1`, wrapping within the page.
pub open spec fn zero_page_pointer(s: CpuModel, z: u8) -> u16 {
    address_of(s.read(z as u16), s.read(wrap8(z + 1) as u16))
}

/// Whether a branch instruction's condition holds; false for other instructions.
pub open spec fn branch_taken(ins: Instruction, p: Status) -> bool {
    match ins {
        Instruction::BCC => !p.carry,
        Instruction::BCS => p.carry,
        Instruction::BEQ => p.zero,
        Instruction::BNE => !p.zero,
        Instruction::BMI => p.negative,
        Instruction::BPL => !p.negative,
        Instruction::BVC => !p.overflow,
        Instruction::BVS => p.overflow,
        _ => false,
    }
}

/// The cycles added to the base count: one where an indexed address leaves the
/// page of its base; for a taken branch one, plus one where the target lies on
/// another page than the next instruction.
pub open spec fn extra_cycles(s: CpuModel, ins: Instruction, mode: AddressMode, lo: u8, hi: u8) -> u8 {
    match mode {
        AddressMode::AbsoluteX => if page(address_of(lo, hi)) != page(
            wrap16(address_of(lo, hi) + s.x),
        ) {
            1
        } else {
            0
        },
        AddressMode::AbsoluteY => if page(address_of(lo, hi)) != page(
            wrap16(address_of(lo, hi) + s.y),
        ) {
            1
        } else {
            0
        },
        AddressMode::IndirectY => if page(zero_page_pointer(s, lo)) != page(
            wrap16(zero_page_pointer(s, lo) + s.y),
        ) {
            1
        } else {
            0
        },
        AddressMode::Relative => if !branch_taken(ins, s.p) {
            0
        } else if page(wrap16(s.pc + 2)) != page(wrap16(s.pc + 2 + signed(lo))) {
            2
        } else {
            1
        },
        _ => 0,
    }
}

impl Cpu {
    fn zero_page_pointer(&self, z: u8) -> (r: u16)
        requires
            self.wf(),
        ensures
            r == zero_page_pointer(self@, z),
    {
        let lo = self.read_mem(z as u16);
        let hi = self.read_mem(z.wrapping_add(1) as u16);
        lo_hi_to_address(lo, hi)
    }

    /// The effective operand of an instruction at the program counter in
    /// `mode`, whose operand bytes are `lo` and `hi`.
    #[verifier::rlimit(30)]
    pub fn get_operand(&self, mode: AddressMode, lo: u8, hi: u8) -> (r: Operand)
        requires
            self.wf(),
        ensures
            r == operand_of(self@, mode, lo, hi),
    {
        match mode {
            AddressMode::Accumulator => Operand::Implied,
            AddressMode::Absolute => Operand::Address(lo_hi_to_address(lo, hi)),
            AddressMode::AbsoluteX => Operand::Address(
                lo_hi_to_address(lo, hi).wrapping_add(self.x_index as u16),
            ),
            AddressMode::AbsoluteY => Operand::Address(
                lo_hi_to_address(lo, hi).wrapping_add(self.y_index as u16),
            ),
            AddressMode::Immediate => Operand::Immediate(lo),
            AddressMode::Implied => Operand::Implied,
            AddressMode::Indirect => Operand::Address(self.read_pair(lo_hi_to_address(lo, hi))),
            AddressMode::IndirectX => Operand::Address(
                self.zero_page_pointer(lo.wrapping_add(self.x_index)),
            ),
            AddressMode::IndirectY => Operand::Address(
                self.zero_page_pointer(lo).wrapping_add(self.y_index as u16),
            ),
            AddressMode::Relative => Operand::Address(self.relative_target(lo)),
            AddressMode::Zeropage => Operand::Address(lo as u16),
            AddressMode::ZeropageX => Operand::Address(
                (lo as u16).wrapping_add(self.x_index as u16),
            ),
            AddressMode::ZeropageY => Operand::Address(
                (lo as u16).wrapping_add(self.y_index as u16),
            ),
        }
    }

    /// The target of a branch at the program counter with offset byte `offset`.
    fn relative_target(&self, offset: u8) -> (r: u16)
        ensures
            r == wrap16(self@.pc + 2 + signed(offset)),
    {
        let next = self.program_counter.wrapping_add(2);
        if offset < 0x80 {
            next.wrapping_add(offset as u16)
        } else {
            next.wrapping_sub(0x100 - offset as u16)
        }
    }

    fn branch_taken(&self, instruction: Instruction) -> (r: bool)
        ensures
            r == branch_taken(instruction, self@.p),
    {
        match instruction {
            Instruction::BCC => !self.status.carry,
            Instruction::BCS => self.status.carry,
            Instruction::BEQ => self.status.zero,
            Instruction::BNE => !self.status.zero,
            Instruction::BMI => self.status.negative,
            Instruction::BPL => !self.status.negative,
            Instruction::BVC => !self.status.overflow,
            Instruction::BVS => self.status.overflow,
            _ => false,
        }
    }

    /// Whether adding `index` to `base` (wrapping) lands on another page.
    fn crosses_page(base: u16, index: u8) -> (r: bool)
        ensures
            r == (page(base) != page(wrap16(base + index))),
    {
        base / 256 != base.wrapping_add(index as u16) / 256
    }

    #[verifier::rlimit(30)]
    fn get_extra_cycles(&self, instruction: Instruction, mode: AddressMode, lo: u8, hi: u8) -> (r: u8)
        requires
            self.wf(),
        ensures
            r == extra_cycles(self@, instruction, mode, lo, hi),
    {
        let crossed = match mode {
            AddressMode::AbsoluteX => Self::crosses_page(lo_hi_to_address(lo, hi), self.x_index),
            AddressMode::AbsoluteY => Self::crosses_page(lo_hi_to_address(lo, hi), self.y_index),
            AddressMode::IndirectY => Self::crosses_page(self.zero_page_pointer(lo), self.y_index),
            _ => false,
        };
        match mode {
            AddressMode::AbsoluteX | AddressMode::AbsoluteY | AddressMode::IndirectY => {
                if crossed {
                    1
                } else {
                    0
                }
            },
            AddressMode::Relative => {
                if !self.branch_taken(instruction) {
                    0
                } else if self.program_counter.wrapping_add(2) / 256 != self.relative_target(lo)
                    / 256 {
                    2
                } else {
                    1
                }
            },
            _ => 0,
        }
    }
}

/// Whether an instruction can take an operand of this kind.
pub open spec fn accepts(ins: Instruction, op: Operand) -> bool {
    match ins {
        Instruction::ADC | Instruction::AND | Instruction::CMP | Instruction::CPX
        | Instruction::CPY | Instruction::EOR | Instruction::LDA | Instruction::LDX
        | Instruction::LDY | Instruction::ORA | Instruction::SBC => !(op is Implied),
        Instruction::ASL | Instruction::LSR | Instruction::ROL | Instruction::ROR => !(
        op is Immediate),
        Instruction::BIT | Instruction::DEC | Instruction::INC | Instruction::STA
        | Instruction::STX | Instruction::STY | Instruction::JSR | Instruction::JMP
        | Instruction::BCC | Instruction::BCS | Instruction::BEQ | Instruction::BNE
        | Instruction::BMI | Instruction::BPL | Instruction::BVC | Instruction::BVS => op is Address,
        _ => true,
    }
}

/// The byte that an operand stands for: the literal, or the byte at its address.
pub open spec fn operand_value(s: CpuModel, op: Operand) -> u8 {
    match op {
        Operand::Immediate(v) => v,
        Operand::Address(address) => s.read(address),
        Operand::Implied => s.a,
    }
}

/// The state after a read-modify-write instruction puts `result` back where its
/// operand came from (the accumulator or memory) and sets C, Z and N.
pub open spec fn put_back(s: CpuModel, op: Operand, result: u8, carry: bool) -> CpuModel {
    let t = CpuModel { p: Status { carry, ..s.p }, ..s };
    match op {
        Operand::Address(address) => CpuModel { p: t.nz(result), ..t.write(address, result) },
        _ => t.set_a(result),
    }
}

/// ADC: `A + M + C`; C is the unsigned carry out, V the signed overflow.
pub open spec fn add_with_carry(s: CpuModel, m: u8) -> CpuModel {
    let c = if s.p.carry { 1int } else { 0int };
    let sum = s.a + m + c;
    let signed_sum = signed(s.a) + signed(m) + c;
    let t = CpuModel {
        p: Status { carry: sum >= 256, overflow: signed_sum < -128 || signed_sum > 127, ..s.p },
        ..s
    };
    t.set_a(wrap8(sum))
}

/// SBC: `A + ~M + C`; C is `A >= M`, and V is set where A and M differ in
/// sign and the result has the sign of M.
pub open spec fn subtract_with_carry(s: CpuModel, m: u8) -> CpuModel {
    let c = if s.p.carry { 1int } else { 0int };
    let result = wrap8(s.a + (255 - m) + c);
    let t = CpuModel {
        p: Status {
            carry: s.a >= m,
            overflow: (s.a >= 128) != (result >= 128) && (s.a >= 128) != (m >= 128),
            ..s.p
        },
        ..s
    };
    t.set_a(result)
}

/// CMP, CPX, CPY: C is `r >= m`, and Z and N come from `r - m`.
pub open spec fn compare(s: CpuModel, r: u8, m: u8) -> CpuModel {
    let t = CpuModel { p: Status { carry: r >= m, ..s.p }, ..s };
    CpuModel { p: t.nz(wrap8(r - m)), ..t }
}

/// The state after pushing an address, high byte first.
pub open spec fn push_address(s: CpuModel, address: u16) -> CpuModel {
    s.push(high_byte(address)).push(low_byte(address))
}

/// The address that two pulls give, low byte first.
pub open spec fn pulled_address(s: CpuModel) -> u16 {
    address_of(s.pulled(), s.pull().pulled())
}

/// BRK: pushes the address two past the BRK and the status with B set, sets B
/// and continues at the address stored at the NMI vector.
pub open spec fn break_spec(s: CpuModel) -> CpuModel {
    let t = push_address(s, wrap16(s.pc + 2)).push(status_byte(Status { brk: true, ..s.p }));
    CpuModel { p: Status { brk: true, ..s.p }, pc: t.read_pair(NMI_ADDRESS), ..t }
}

/// A hardware interrupt through `vector`: pushes the program counter and the
/// status with B clear, clears B and continues at the address stored at `vector`.
pub open spec fn interrupt_spec(s: CpuModel, vector: u16) -> CpuModel {
    let t = push_address(s, s.pc).push(status_byte(Status { brk: false, ..s.p }));
    CpuModel { p: Status { brk: false, ..s.p }, pc: t.read_pair(vector), ..t }
}

/// Instructions that read a value: loads, logic, arithmetic and compares.
pub open spec fn on_value(s: CpuModel, ins: Instruction, m: u8) -> CpuModel {
    match ins {
        Instruction::ADC => add_with_carry(s, m),
        Instruction::AND => s.set_a(s.a & m),
        Instruction::CMP => compare(s, s.a, m),
        Instruction::CPX => compare(s, s.x, m),
        Instruction::CPY => compare(s, s.y, m),
        Instruction::EOR => s.set_a(s.a ^ m),
        Instruction::LDA => s.set_a(m),
        Instruction::LDX => s.set_x(m),
        Instruction::LDY => s.set_y(m),
        Instruction::ORA => s.set_a(s.a | m),
        Instruction::SBC => subtract_with_carry(s, m),
        _ => s,
    }
}

/// Shifts and rotates, on the accumulator or on memory.
pub open spec fn on_shift(s: CpuModel, ins: Instruction, op: Operand, m: u8) -> CpuModel {
    match ins {
        Instruction::ASL => put_back(s, op, ((m % 128) * 2) as u8, m >= 128),
        Instruction::LSR => put_back(s, op, m / 2, m % 2 == 1),
        Instruction::ROL => put_back(
            s,
            op,
            ((m % 128) * 2 + if s.p.carry { 1int } else { 0int }) as u8,
            m >= 128,
        ),
        Instruction::ROR => put_back(
            s,
            op,
            (m / 2 + if s.p.carry { 128int } else { 0int }) as u8,
            m % 2 == 1,
        ),
        _ => s,
    }
}

/// Instructions that need an address: bit test, memory increments, stores and jumps.
pub open spec fn on_address(s: CpuModel, ins: Instruction, target: u16, m: u8) -> CpuModel {
    match ins {
        Instruction::BIT => CpuModel {
            p: Status { zero: s.a & m == 0, overflow: m & 0x40 != 0, negative: m >= 128, ..s.p },
            ..s
        },
        Instruction::DEC => CpuModel { p: s.nz(wrap8(m - 1)), ..s.write(target, wrap8(m - 1)) },
        Instruction::INC => CpuModel { p: s.nz(wrap8(m + 1)), ..s.write(target, wrap8(m + 1)) },
        Instruction::JMP => CpuModel { pc: target, ..s },
        Instruction::JSR => CpuModel { pc: target, ..push_address(s, wrap16(s.pc - 1)) },
        Instruction::STA => s.write(target, s.a),
        Instruction::STX => s.write(target, s.x),
        Instruction::STY => s.write(target, s.y),
        _ => s,
    }
}

/// Instructions that push or pull: BRK, PHA, PHP, PLA, PLP, RTI and RTS.
pub open spec fn on_stack(s: CpuModel, ins: Instruction) -> CpuModel {
    match ins {
        Instruction::BRK => break_spec(s),
        Instruction::PHA => s.push(s.a),
        Instruction::PHP => s.push(status_byte(Status { brk: true, ignored: true, ..s.p })),
        Instruction::PLA => s.pull().set_a(s.pulled()),
        Instruction::PLP => CpuModel {
            p: Status { brk: s.p.brk, ignored: s.p.ignored, ..status_of_byte(s.pulled()) },
            ..s.pull()
        },
        Instruction::RTI => {
            let t = s.pull();
            CpuModel {
                p: Status { brk: false, ..status_of_byte(s.pulled()) },
                pc: pulled_address(t),
                ..t.pull().pull()
            }
        },
        Instruction::RTS => CpuModel {
            pc: wrap16(pulled_address(s) + 1),
            ..s.pull().pull()
        },
        _ => s,
    }
}

/// Instructions on registers and flags alone.
pub open spec fn on_registers(s: CpuModel, ins: Instruction) -> CpuModel {
    match ins {
        Instruction::CLC => CpuModel { p: Status { carry: false, ..s.p }, ..s },
        Instruction::CLD => CpuModel { p: Status { decimal: false, ..s.p }, ..s },
        Instruction::CLI => CpuModel { p: Status { irq_disable: false, ..s.p }, ..s },
        Instruction::CLV => CpuModel { p: Status { overflow: false, ..s.p }, ..s },
        Instruction::DEX => s.set_x(wrap8(s.x - 1)),
        Instruction::DEY => s.set_y(wrap8(s.y - 1)),
        Instruction::INX => s.set_x(wrap8(s.x + 1)),
        Instruction::INY => s.set_y(wrap8(s.y + 1)),
        Instruction::NOP => s,
        Instruction::SEC => CpuModel { p: Status { carry: true, ..s.p }, ..s },
        Instruction::SED => CpuModel { p: Status { decimal: true, ..s.p }, ..s },
        Instruction::SEI => CpuModel { p: Status { irq_disable: true, ..s.p }, ..s },
        Instruction::TAX => CpuModel { x: s.a, ..s },
        Instruction::TAY => CpuModel { y: s.a, ..s },
        Instruction::TSX => CpuModel { x: s.sp, ..s },
        Instruction::TXA => CpuModel { a: s.x, ..s },
        Instruction::TXS => CpuModel { sp: s.x, ..s },
        Instruction::TYA => CpuModel { a: s.y, ..s },
        _ => s,
    }
}

/// The state after executing `ins` on operand `op`; where the instruction cannot
/// take such an operand nothing changes.
#[verifier::opaque]
pub open spec fn execute(s: CpuModel, ins: Instruction, op: Operand) -> CpuModel {
    let m = operand_value(s, op);
    let target = match op {
        Operand::Address(address) => address,
        _ => s.pc,
    };
    if !accepts(ins, op) {
        s
    } else {
        match ins {
            Instruction::ADC | Instruction::AND | Instruction::CMP | Instruction::CPX
            | Instruction::CPY | Instruction::EOR | Instruction::LDA | Instruction::LDX
            | Instruction::LDY | Instruction::ORA | Instruction::SBC => on_value(s, ins, m),
            Instruction::ASL | Instruction::LSR | Instruction::ROL | Instruction::ROR => on_shift(
                s,
                ins,
                op,
                m,
            ),
            Instruction::BCC | Instruction::BCS | Instruction::BEQ | Instruction::BNE
            | Instruction::BMI | Instruction::BPL | Instruction::BVC | Instruction::BVS => {
                if branch_taken(ins, s.p) {
                    CpuModel { pc: target, ..s }
                } else {
                    s
                }
            },
            Instruction::BIT | Instruction::DEC | Instruction::INC | Instruction::JMP
            | Instruction::JSR | Instruction::STA | Instruction::STX | Instruction::STY => on_address(
                s,
                ins,
                target,
                m,
            ),
            Instruction::BRK | Instruction::PHA | Instruction::PHP | Instruction::PLA
            | Instruction::PLP | Instruction::RTI | Instruction::RTS => on_stack(s, ins),
            _ => on_registers(s, ins),
        }
    }
}

impl Cpu {
    fn operand_value(&self, operand: Operand) -> (r: u8)
        requires
            self.wf(),
        ensures
            r == operand_value(self@, operand),
    {
        match operand {
            Operand::Immediate(value) => value,
            Operand::Address(address) => self.read_mem(address),
            Operand::Implied => self.accumulator,
        }
    }

    /// Puts a read-modify-write result back where the operand came from.
    fn put_back(&mut self, operand: Operand, result: u8, carry: bool)
        requires
            old(self).wf(),
        ensures
            final(self).wf(),
            final(self)@ == put_back(old(self)@, operand, result, carry),
            final(self).history() == old(self).history(),
    {
        self.status.carry = carry;
        match operand {
            Operand::Address(address) => {
                self.write_mem(address, result);
                self.set_zero_and_negative(result);
            },
            _ => self.set_accumulator(result),
        }
    }

    fn add_with_carry(&mut self, value: u8)
        ensures
            final(self)@ == add_with_carry(old(self)@, value),
            final(self).wf() == old(self).wf(),
            final(self).history() == old(self).history(),
    {
        let a = self.accumulator;
        let c: u16 = if self.status.carry {
            1
        } else {
            0
        };
        let sum: u16 = a as u16 + value as u16 + c;
        let new_a: u8 = if sum >= 256 {
            (sum - 256) as u8
        } else {
            sum as u8
        };
        self.status.carry = sum >= 256;
        self.status.overflow = (a >= 0x80 && value >= 0x80 && new_a < 0x80) || (a < 0x80 && value
            < 0x80 && new_a >= 0x80);
        self.set_accumulator(new_a);
    }

    fn subtract_with_carry(&mut self, value: u8)
        ensures
            final(self)@ == subtract_with_carry(old(self)@, value),
            final(self).wf() == old(self).wf(),
            final(self).history() == old(self).history(),
    {
        let a = self.accumulator;
        let c: u16 = if self.status.carry {
            1
        } else {
            0
        };
        let sum: u16 = a as u16 + (255 - value) as u16 + c;
        let new_a: u8 = if sum >= 256 {
            (sum - 256) as u8
        } else {
            sum as u8
        };
        self.status.carry = a >= value;
        self.status.overflow = (a >= 0x80) != (new_a >= 0x80) && (a >= 0x80) != (value >= 0x80);
        self.set_accumulator(new_a);
    }

    fn compare(&mut self, register: u8, value: u8)
        ensures
            final(self)@ == compare(old(self)@, register, value),
            final(self).wf() == old(self).wf(),
            final(self).history() == old(self).history(),
    {
        self.status.carry = register >= value;
        self.set_zero_and_negative(register.wrapping_sub(value));
    }

    fn push_address(&mut self, address: u16)
        requires
            old(self).wf(),
        ensures
            final(self).wf(),
            final(self)@ == push_address(old(self)@, address),
            final(self).history() == old(self).history(),
    {
        let bytes = address_to_bytes(address);
        self.push_stack(bytes[1]);
        self.push_stack(bytes[0]);
    }

    fn pull_address(&mut self) -> (r: u16)
        requires
            old(self).wf(),
        ensures
            final(self).wf(),
            final(self)@ == old(self)@.pull().pull(),
            r == pulled_address(old(self)@),
            final(self).history() == old(self).history(),
    {
        let lo = self.pull_stack();
        let hi = self.pull_stack();
        lo_hi_to_address(lo, hi)
    }

    #[verifier::rlimit(30)]
    fn execute_brk(&mut self)
        requires
            old(self).wf(),
        ensures
            final(self).wf(),
            final(self)@ == break_spec(old(self)@),
            final(self).history() == old(self).history(),
    {
        let ghost s0 = self@;
        self.push_address(self.program_counter.wrapping_add(2));
        let mut pushed = self.status;
        pushed.brk = true;
        assert(pushed == Status { brk: true, ..s0.p });
        let byte = pushed.as_byte();
        self.push_stack(byte);
        let ghost s2 = self@;
        assert(s2 == push_address(s0, wrap16(s0.pc + 2)).push(
            status_byte(Status { brk: true, ..s0.p }),
        ));
        self.status.brk = true;
        self.program_counter = self.read_pair(NMI_ADDRESS);
    }

    #[verifier::rlimit(30)]
    fn enter_interrupt(&mut self, vector: u16)
        requires
            old(self).wf(),
        ensures
            final(self).wf(),
            final(self)@ == interrupt_spec(old(self)@, vector),
            final(self).history() == old(self).history(),
    {
        let ghost s0 = self@;
        self.push_address(self.program_counter);
        let mut pushed = self.status;
        pushed.brk = false;
        assert(pushed == Status { brk: false, ..s0.p });
        let byte = pushed.as_byte();
        self.push_stack(byte);
        self.status.brk = false;
        self.program_counter = self.read_pair(vector);
    }

    /// Executes one instruction on its resolved operand. Returns whether the
    /// instruction can take such an operand; where it cannot, nothing changes.
    #[verifier::rlimit(30)]
    fn execute_instruction(&mut self, instruction: Instruction, operand: Operand) -> (r: bool)
        requires
            old(self).wf(),
        ensures
            final(self).wf(),
            r == accepts(instruction, operand),
            final(self)@ == execute(old(self)@, instruction, operand),
            final(self).history() == old(self).history(),
    {
        reveal(execute);
        match instruction {
            Instruction::ADC | Instruction::AND | Instruction::CMP | Instruction::CPX
            | Instruction::CPY | Instruction::EOR | Instruction::LDA | Instruction::LDX
            | Instruction::LDY | Instruction::ORA | Instruction::SBC => {
                if let Operand::Implied = operand {
                    return false;
                }
                let value = self.operand_value(operand);
                self.execute_on_value(instruction, value);
                true
            },
            Instruction::ASL | Instruction::LSR | Instruction::ROL | Instruction::ROR => {
                if let Operand::Immediate(_) = operand {
                    return false;
                }
                self.execute_shift(instruction, operand);
                true
            },
            Instruction::BCC | Instruction::BCS | Instruction::BEQ | Instruction::BNE
            | Instruction::BMI | Instruction::BPL | Instruction::BVC | Instruction::BVS => {
                match operand {
                    Operand::Address(address) => {
                        if self.branch_taken(instruction) {
                            self.program_counter = address;
                        }
                        true
                    },
                    _ => false,
                }
            },
            Instruction::BIT | Instruction::DEC | Instruction::INC | Instruction::STA
            | Instruction::STX | Instruction::STY | Instruction::JSR | Instruction::JMP => {
                match operand {
                    Operand::Address(address) => {
                        self.execute_on_address(instruction, address);
                        true
                    },
                    _ => false,
                }
            },
            Instruction::BRK | Instruction::PHA | Instruction::PHP | Instruction::PLA
            | Instruction::PLP | Instruction::RTI | Instruction::RTS => {
                self.execute_on_stack(instruction);
                true
            },
            Instruction::CLC | Instruction::CLD | Instruction::CLI | Instruction::CLV
            | Instruction::DEX | Instruction::DEY | Instruction::INX | Instruction::INY
            | Instruction::NOP | Instruction::SEC | Instruction::SED | Instruction::SEI
            | Instruction::TAX | Instruction::TAY | Instruction::TSX | Instruction::TXA
            | Instruction::TXS | Instruction::TYA => {
                self.execute_on_registers(instruction);
                true
            },
        }
    }

    #[verifier::rlimit(30)]
    fn execute_on_value(&mut self, instruction: Instruction, value: u8)
        requires
            old(self).wf(),
        ensures
            final(self).wf(),
            final(self)@ == on_value(old(self)@, instruction, value),
            final(self).history() == old(self).history(),
    {
        match instruction {
            Instruction::ADC => self.add_with_carry(value),
            Instruction::AND => self.set_accumulator(self.accumulator & value),
            Instruction::CMP => self.compare(self.accumulator, value),
            Instruction::CPX => self.compare(self.x_index, value),
            Instruction::CPY => self.compare(self.y_index, value),
            Instruction::EOR => self.set_accumulator(self.accumulator ^ value),
            Instruction::LDA => self.set_accumulator(value),
            Instruction::LDX => self.set_x_index(value),
            Instruction::LDY => self.set_y_index(value),
            Instruction::ORA => self.set_accumulator(self.accumulator | value),
            Instruction::SBC => self.subtract_with_carry(value),
            _ => {},
        }
    }

    #[verifier::rlimit(30)]
    fn execute_shift(&mut self, instruction: Instruction, operand: Operand)
        requires
            old(self).wf(),
        ensures
            final(self).wf(),
            final(self)@ == on_shift(
                old(self)@,
                instruction,
                operand,
                operand_value(old(self)@, operand),
            ),
            final(self).history() == old(self).history(),
    {
        let value = self.operand_value(operand);
        let carry_in: u8 = if self.status.carry {
            1
        } else {
            0
        };
        match instruction {
            Instruction::ASL => self.put_back(operand, (value % 128) * 2, value >= 0x80),
            Instruction::LSR => self.put_back(operand, value / 2, value % 2 == 1),
            Instruction::ROL => self.put_back(operand, (value % 128) * 2 + carry_in, value >= 0x80),
            Instruction::ROR => self.put_back(operand, value / 2 + carry_in * 128, value % 2 == 1),
            _ => {},
        }
    }

    #[verifier::rlimit(30)]
    fn execute_on_address(&mut self, instruction: Instruction, address: u16)
        requires
            old(self).wf(),
        ensures
            final(self).wf(),
            final(self)@ == on_address(old(self)@, instruction, address, old(self)@.read(address)),
            final(self).history() == old(self).history(),
    {
        match instruction {
            Instruction::BIT | Instruction::DEC | Instruction::INC => self.execute_on_memory(
                instruction,
                address,
            ),
            _ => self.execute_store_or_jump(instruction, address),
        }
    }

    #[verifier::rlimit(30)]
    fn execute_on_memory(&mut self, instruction: Instruction, address: u16)
        requires
            old(self).wf(),
            instruction == Instruction::BIT || instruction == Instruction::DEC || instruction
                == Instruction::INC,
        ensures
            final(self).wf(),
            final(self)@ == on_address(old(self)@, instruction, address, old(self)@.read(address)),
            final(self).history() == old(self).history(),
    {
        let value = self.read_mem(address);
        match instruction {
            Instruction::BIT => {
                self.status.zero = self.accumulator & value == 0;
                self.status.overflow = value & 0x40 != 0;
                self.status.negative = value >= 0x80;
            },
            Instruction::DEC => {
                let result = value.wrapping_sub(1);
                self.write_mem(address, result);
                self.set_zero_and_negative(result);
            },
            _ => {
                let result = value.wrapping_add(1);
                self.write_mem(address, result);
                self.set_zero_and_negative(result);
            },
        }
    }

    #[verifier::rlimit(30)]
    fn execute_store_or_jump(&mut self, instruction: Instruction, address: u16)
        requires
            old(self).wf(),
            !(instruction == Instruction::BIT || instruction == Instruction::DEC || instruction
                == Instruction::INC),
        ensures
            final(self).wf(),
            final(self)@ == on_address(old(self)@, instruction, address, old(self)@.read(address)),
            final(self).history() == old(self).history(),
    {
        match instruction {
            Instruction::STA => self.write_mem(address, self.accumulator),
            Instruction::STX => self.write_mem(address, self.x_index),
            Instruction::STY => self.write_mem(address, self.y_index),
            Instruction::JSR => self.jump_to_subroutine(address),
            Instruction::JMP => self.program_counter = address,
            _ => {},
        }
    }

    #[verifier::rlimit(30)]
    fn jump_to_subroutine(&mut self, address: u16)
        requires
            old(self).wf(),
        ensures
            final(self).wf(),
            final(self)@ == (CpuModel {
                pc: address,
                ..push_address(old(self)@, wrap16(old(self)@.pc - 1))
            }),
            final(self).history() == old(self).history(),
    {
        // the program counter already points past the operand
        self.push_address(self.program_counter.wrapping_sub(1));
        self.program_counter = address;
    }

    #[verifier::rlimit(30)]
    fn execute_on_stack(&mut self, instruction: Instruction)
        requires
            old(self).wf(),
        ensures
            final(self).wf(),
            final(self)@ == on_stack(old(self)@, instruction),
            final(self).history() == old(self).history(),
    {
        match instruction {
            Instruction::BRK => self.execute_brk(),
            Instruction::PHA => self.push_stack(self.accumulator),
            Instruction::PHP => {
                let mut pushed = self.status;
                pushed.brk = true;
                pushed.ignored = true;
                self.push_stack(pushed.as_byte());
            },
            Instruction::PLA | Instruction::PLP | Instruction::RTI | Instruction::RTS => {
                self.execute_pull(instruction)
            },
            _ => {},
        }
    }

    #[verifier::rlimit(30)]
    fn execute_pull(&mut self, instruction: Instruction)
        requires
            old(self).wf(),
            instruction == Instruction::PLA || instruction == Instruction::PLP || instruction
                == Instruction::RTI || instruction == Instruction::RTS,
        ensures
            final(self).wf(),
            final(self)@ == on_stack(old(self)@, instruction),
            final(self).history() == old(self).history(),
    {
        match instruction {
            Instruction::PLA => {
                let value = self.pull_stack();
                self.set_accumulator(value);
            },
            Instruction::PLP => {
                let value = self.pull_stack();
                let mut new_status = Status::from_byte(value);
                new_status.ignored = self.status.ignored;
                new_status.brk = self.status.brk;
                self.status = new_status;
            },
            Instruction::RTI => {
                let value = self.pull_stack();
                let address = self.pull_address();
                let mut new_status = Status::from_byte(value);
                new_status.brk = false;
                self.status = new_status;
                self.program_counter = address;
            },
            _ => {
                let address = self.pull_address();
                self.program_counter = address.wrapping_add(1);
            },
        }
    }

    #[verifier::rlimit(30)]
    fn execute_on_registers(&mut self, instruction: Instruction)
        requires
            old(self).wf(),
        ensures
            final(self).wf(),
            final(self)@ == on_registers(old(self)@, instruction),
            final(self).history() == old(self).history(),
    {
        match instruction {
            Instruction::CLC | Instruction::CLD | Instruction::CLI | Instruction::CLV
            | Instruction::SEC | Instruction::SED | Instruction::SEI => self.execute_on_flags(
                instruction,
            ),
            _ => self.execute_transfer(instruction),
        }
    }

    #[verifier::rlimit(30)]
    fn execute_on_flags(&mut self, instruction: Instruction)
        requires
            instruction == Instruction::CLC || instruction == Instruction::CLD || instruction
                == Instruction::CLI || instruction == Instruction::CLV || instruction
                == Instruction::SEC || instruction == Instruction::SED || instruction
                == Instruction::SEI,
        ensures
            final(self).wf() == old(self).wf(),
            final(self)@ == on_registers(old(self)@, instruction),
            final(self).history() == old(self).history(),
    {
        match instruction {
            Instruction::CLC => self.status.carry = false,
            Instruction::CLD => self.status.decimal = false,
            Instruction::CLI => self.status.irq_disable = false,
            Instruction::CLV => self.status.overflow = false,
            Instruction::SEC => self.status.carry = true,
            Instruction::SED => self.status.decimal = true,
            _ => self.status.irq_disable = true,
        }
    }

    #[verifier::rlimit(30)]
    fn execute_transfer(&mut self, instruction: Instruction)
        requires
            !(instruction == Instruction::CLC || instruction == Instruction::CLD || instruction
                == Instruction::CLI || instruction == Instruction::CLV || instruction
                == Instruction::SEC || instruction == Instruction::SED || instruction
                == Instruction::SEI),
        ensures
            final(self).wf() == old(self).wf(),
            final(self)@ == on_registers(old(self)@, instruction),
            final(self).history() == old(self).history(),
    {
        match instruction {
            Instruction::DEX => self.set_x_index(self.x_index.wrapping_sub(1)),
            Instruction::DEY => self.set_y_index(self.y_index.wrapping_sub(1)),
            Instruction::INX => self.set_x_index(self.x_index.wrapping_add(1)),
            Instruction::INY => self.set_y_index(self.y_index.wrapping_add(1)),
            Instruction::TAX => self.x_index = self.accumulator,
            Instruction::TAY => self.y_index = self.accumulator,
            Instruction::TSX => self.x_index = self.stack_pointer,
            Instruction::TXA => self.accumulator = self.x_index,
            Instruction::TXS => self.stack_pointer = self.x_index,
            Instruction::TYA => self.accumulator = self.y_index,
            _ => {},
        }
    }
}

/// One fetch-decode-execute step: the state after it, and the cycles it took,
/// or `None` where execution stops (BRK, an undefined opcode, an operand that the
/// instruction cannot take, or a program counter in the vector area).
#[verifier::opaque]
pub open spec fn step(s: CpuModel) -> (CpuModel, Option<u16>) {
    match opcode_table(s.read(s.pc)) {
        None => (s, None),
        Some((ins, mode, base)) => {
            if ins == Instruction::BRK {
                (break_spec(s), None)
            } else {
                step_decoded(s, ins, mode, base)
            }
        },
    }
}

/// One step of an instruction other than BRK, decoded at the program counter.
pub open spec fn step_decoded(s: CpuModel, ins: Instruction, mode: AddressMode, base: u8) -> (
    CpuModel,
    Option<u16>,
) {
    let lo = s.read(wrap16(s.pc + 1));
    let hi = s.read(wrap16(s.pc + 2));
    let op = operand_of(s, mode, lo, hi);
    let cycles = base + extra_cycles(s, ins, mode, lo, hi);
    let next = CpuModel { pc: wrap16(s.pc + 1 + spec_operand_size(mode)), ..s };
    let t = execute(next, ins, op);
    (t, if accepts(ins, op) && t.pc < NMI_ADDRESS {
        Some(cycles as u16)
    } else {
        None
    })
}

/// `after` is the history `before` with a record of `ins` in `mode` at
/// `address` with operand bytes `lo` and `hi` appended, the oldest record
/// dropped when the history was full.
pub open spec fn appended(
    before: Seq<ExecutedInstruction>,
    after: Seq<ExecutedInstruction>,
    address: u16,
    ins: Instruction,
    mode: AddressMode,
    lo: u8,
    hi: u8,
) -> bool {
    let kept = if before.len() == HISTORY_LENGTH {
        before.drop_first()
    } else {
        before
    };
    &&& after.len() == kept.len() + 1
    &&& after.drop_last() == kept
    &&& after.last().address == address
    &&& after.last().instruction == ins
    &&& after.last().address_mode == mode
    &&& after.last().operand_bytes@ == seq![lo, hi]
}

/// How one step changes the history: an instruction other than BRK that was
/// decoded is recorded; otherwise the history stays.
pub open spec fn step_history(
    s: CpuModel,
    before: Seq<ExecutedInstruction>,
    after: Seq<ExecutedInstruction>,
) -> bool {
    match opcode_table(s.read(s.pc)) {
        Some((ins, mode, _)) => if ins == Instruction::BRK {
            after == before
        } else {
            appended(
                before,
                after,
                s.pc,
                ins,
                mode,
                s.read(wrap16(s.pc + 1)),
                s.read(wrap16(s.pc + 2)),
            )
        },
        None => after == before,
    }
}

/// The state of a processor just built on `bus`: registers clear, the stack
/// pointer at `$FD`, the power-on status, and the program counter at the
/// address stored at the reset vector.
pub open spec fn power_on(bus: Bus) -> CpuModel {
    let m = CpuModel {
        a: 0,
        x: 0,
        y: 0,
        sp: 0xfd,
        pc: 0,
        p: power_on_status(),
        mem: bus_memory(bus),
        writable: bus_writable(bus),
    };
    CpuModel { pc: m.read_pair(RESET_ADDRESS), ..m }
}

/// The state after writing `bytes` from `address` on (where writes are kept)
/// and pointing the program counter at `address`.
pub open spec fn loaded(s: CpuModel, address: u16, bytes: Seq<u8>) -> CpuModel {
    CpuModel {
        pc: address,
        mem: Seq::new(
            0x10000,
            |i: int|
                if (i - address) % 0x10000 < bytes.len() && s.writable.contains(i as u16) {
                    bytes[(i - address) % 0x10000]
                } else {
                    s.mem[i]
                },
        ),
        ..s
    }
}

impl Cpu {
    /// A processor on `bus`, with its program counter at the reset vector's address.
    pub fn new(bus: Bus) -> (r: Cpu)
        requires
            bus.wf(),
        ensures
            r.wf(),
            r@ == power_on(bus),
            r.history() == Seq::<ExecutedInstruction>::empty(),
    {
        let mut cpu = Cpu {
            bus,
            accumulator: 0,
            x_index: 0,
            y_index: 0,
            stack_pointer: 0xfd,
            program_counter: 0,
            status: Status::default(),
            execution_history: Vec::new(),
        };
        cpu.program_counter = cpu.read_pair(RESET_ADDRESS);
        cpu
    }

    /// Writes `program` from `address` on and points the program counter at it.
    pub fn load_program(&mut self, address: u16, program: &[u8])
        requires
            old(self).wf(),
            0x200 <= address <= 0xfdff,
            program@.len() <= 0x10000,
        ensures
            final(self).wf(),
            final(self)@ == loaded(old(self)@, address, program@),
            final(self).history() == old(self).history(),
    {
        proof {
            old(self).lemma_view_mem();
        }
        self.bus.write_bytes(address, program);
        self.program_counter = address;
        proof {
            self.lemma_view_mem();
            assert(self@.mem =~= loaded(old(self)@, address, program@).mem);
            assert(self@.writable =~= old(self)@.writable);
        }
    }

    /// Fetches, decodes and executes one instruction. Returns the cycles it
    /// took, or `None` where execution stops.
    #[verifier::rlimit(30)]
    pub fn fetch_and_execute(&mut self) -> (r: Option<TickCount>)
        requires
            old(self).wf(),
        ensures
            final(self).wf(),
            (final(self)@, r) == step(old(self)@),
            step_history(old(self)@, old(self).history(), final(self).history()),
    {
        reveal(step);
        let opcode = self.read_mem(self.program_counter);
        match decode_instruction(opcode) {
            None => None,
            Some((instruction, address_mode, cycles)) => {
                if instruction == Instruction::BRK {
                    self.execute_brk();
                    None
                } else {
                    self.execute_decoded(instruction, address_mode, cycles)
                }
            },
        }
    }

    #[verifier::rlimit(30)]
    fn execute_decoded(&mut self, instruction: Instruction, address_mode: AddressMode, base: u8) -> (r:
        Option<TickCount>)
        requires
            old(self).wf(),
        ensures
            final(self).wf(),
            (final(self)@, r) == step_decoded(old(self)@, instruction, address_mode, base),
            appended(
                old(self).history(),
                final(self).history(),
                old(self)@.pc,
                instruction,
                address_mode,
                old(self)@.read(wrap16(old(self)@.pc + 1)),
                old(self)@.read(wrap16(old(self)@.pc + 2)),
            ),
    {
        let pc = self.program_counter;
        let lo = self.read_mem(pc.wrapping_add(1));
        let hi = self.read_mem(pc.wrapping_add(2));
        let operand = self.get_operand(address_mode, lo, hi);
        let cycles = base as u16 + self.get_extra_cycles(instruction, address_mode, lo, hi) as u16;
        self.program_counter = pc.wrapping_add(1 + address_mode.operand_size());
        let accepted = self.execute_instruction(instruction, operand);
        let ghost done = self@;
        let ghost before = self.history();
        self.record(
            ExecutedInstruction { address: pc, instruction, address_mode, operand_bytes: [lo, hi] },
        );
        assert(self@ == done);
        proof {
            let kept = if before.len() == HISTORY_LENGTH {
                before.drop_first()
            } else {
                before
            };
            assert(self.history().drop_last() =~= kept);
        }
        if accepted && self.program_counter < NMI_ADDRESS {
            Some(cycles)
        } else {
            None
        }
    }

    /// Appends a record to the history, dropping the oldest one when it is full.
    fn record(&mut self, entry: ExecutedInstruction)
        requires
            old(self).wf(),
        ensures
            final(self).wf(),
            final(self)@ == old(self)@,
            final(self).history() == if old(self).history().len() == HISTORY_LENGTH {
                old(self).history().drop_first().push(entry)
            } else {
                old(self).history().push(entry)
            },
    {
        if self.execution_history.len() == HISTORY_LENGTH {
            self.execution_history.remove(0);
        }
        self.execution_history.push(entry);
        proof {
            if old(self).history().len() == HISTORY_LENGTH {
                assert(self.execution_history@ =~= old(self).history().drop_first().push(entry));
            }
        }
    }

    /// A non-maskable interrupt: always taken.
    pub fn execute_nmi(&mut self)
        requires
            old(self).wf(),
        ensures
            final(self).wf(),
            final(self)@ == interrupt_spec(old(self)@, NMI_ADDRESS),
            final(self).history() == old(self).history(),
    {
        self.enter_interrupt(NMI_ADDRESS);
    }

    /// An interrupt request: taken only while interrupts are not masked.
    pub fn execute_irq(&mut self)
        requires
            old(self).wf(),
        ensures
            final(self).wf(),
            final(self)@ == if old(self)@.p.irq_disable {
                old(self)@
            } else {
                interrupt_spec(old(self)@, IRQ_ADDRESS)
            },
            final(self).history() == old(self).history(),
    {
        if self.status.irq_disable {
            return;
        }
        self.enter_interrupt(IRQ_ADDRESS);
    }

    /// The model's memory covers the whole address space.
    pub proof fn lemma_mem_len(&self)
        ensures
            self@.mem.len() == 0x10000,
    {
    }

    /// The byte at an address, read without side effects.
    pub fn read_memory(&self, address: u16) -> (r: u8)
        requires
            self.wf(),
        ensures
            r == self@.read(address),
    {
        self.read_mem(address)
    }

    /// A copy of the registers.
    pub fn get_state(&self) -> (r: CpuState)
        ensures
            r.accumulator == self@.a,
            r.x_index == self@.x,
            r.y_index == self@.y,
            r.stack_pointer == self@.sp,
            r.program_counter == self@.pc,
            r.status == self@.p,
    {
        CpuState {
            accumulator: self.accumulator,
            x_index: self.x_index,
            y_index: self.y_index,
            status: self.status,
            program_counter: self.program_counter,
            stack_pointer: self.stack_pointer,
        }
    }
}

/// The instruction at `address` in assembler syntax, or the undefined opcode there.
pub open spec fn opcode_text(s: CpuModel, address: u16) -> Seq<char> {
    match opcode_table(s.read(address)) {
        Some((ins, mode, _)) => instruction_text(
            ins,
            mode,
            s.read(wrap16(address + 1)),
            s.read(wrap16(address + 2)),
        ),
        None => undefined_text(s.read(address)),
    }
}

/// The addresses of the first `count` instructions from `address` on, one
/// after the other, stopping after an undefined opcode.
pub open spec fn listing(s: CpuModel, address: u16, count: nat) -> Seq<u16>
    decreases count,
{
    if count == 0 {
        Seq::empty()
    } else {
        match opcode_table(s.read(address)) {
            None => seq![address],
            Some((_, mode, _)) => seq![address] + listing(
                s,
                wrap16(address + 1 + spec_operand_size(mode)),
                (count - 1) as nat,
            ),
        }
    }
}

impl Cpu {
    /// The instruction at `address` in assembler syntax.
    pub fn address_opcode_to_string(&self, address: u16) -> (r: String)
        requires
            self.wf(),
        ensures
            r@ == opcode_text(self@, address),
    {
        let opcode = self.read_mem(address);
        match decode_instruction(opcode) {
            Some((instruction, address_mode, _)) => {
                let lo = self.read_mem(address.wrapping_add(1));
                let hi = self.read_mem(address.wrapping_add(2));
                instruction_to_string(instruction, address_mode, lo, hi)
            },
            None => undefined_to_string(opcode),
        }
    }

    /// Lists `length` instructions from `start_address` on, each with its
    /// address; the listing stops early after an undefined opcode.
    pub fn disassemble(&self, start_address: u16, length: u16) -> (r: Vec<(u16, String)>)
        requires
            self.wf(),
        ensures
            r@.len() == listing(self@, start_address, length as nat).len(),
            forall|k: int|
                0 <= k < r@.len() ==> {
                    &&& (#[trigger] r@[k]).0 == listing(self@, start_address, length as nat)[k]
                    &&& r@[k].1@ == opcode_text(self@, r@[k].0)
                },
    {
        let ghost whole = listing(self@, start_address, length as nat);
        let mut result: Vec<(u16, String)> = Vec::new();
        let mut address = start_address;
        let mut left: u16 = length;
        while left > 0
            invariant
                self.wf(),
                whole == listing(self@, start_address, length as nat),
                whole =~= result@.map_values(|e: (u16, String)| e.0) + listing(
                    self@,
                    address,
                    left as nat,
                ),
                forall|k: int|
                    0 <= k < result@.len() ==> (#[trigger] result@[k]).1@ == opcode_text(
                        self@,
                        result@[k].0,
                    ),
            decreases left,
        {
            let text = self.address_opcode_to_string(address);
            let ghost before = result@;
            result.push((address, text));
            proof {
                assert(result@.map_values(|e: (u16, String)| e.0) =~= before.map_values(
                    |e: (u16, String)| e.0,
                ).push(address));
            }
            match decode_instruction(self.read_mem(address)) {
                Some((_, address_mode, _)) => {
                    let ghost old_address = address;
                    address = address.wrapping_add(1 + address_mode.operand_size());
                    left = left - 1;
                    proof {
                        assert(listing(self@, old_address, (left + 1) as nat) == seq![old_address]
                            + listing(self@, address, left as nat));
                    }
                },
                None => {
                    proof {
                        assert(listing(self@, address, left as nat) =~= seq![address]);
                        assert(listing(self@, address, 0) =~= Seq::<u16>::empty());
                    }
                    left = 0;
                },
            }
        }
        proof {
            assert(listing(self@, address, 0) =~= Seq::<u16>::empty());
            assert(whole =~= result@.map_values(|e: (u16, String)| e.0));
            assert forall|k: int| 0 <= k < result@.len() implies (#[trigger] result@[k]).0
                == whole[k] by {
                assert(result@.map_values(|e: (u16, String)| e.0)[k] == result@[k].0);
            }
        }
        result
    }

    /// The recorded instructions in assembler syntax, oldest first.
    pub fn get_execution_history(&self) -> (r: Vec<(u16, String)>)
        ensures
            r@.len() == self.history().len(),
            forall|k: int|
                0 <= k < r@.len() ==> {
                    let e = self.history()[k];
                    &&& (#[trigger] r@[k]).0 == e.address
                    &&& r@[k].1@ == instruction_text(
                        e.instruction,
                        e.address_mode,
                        e.operand_bytes[0],
                        e.operand_bytes[1],
                    )
                },
    {
        let mut result: Vec<(u16, String)> = Vec::new();
        let mut k: usize = 0;
        while k < self.execution_history.len()
            invariant
                k <= self.execution_history@.len(),
                result@.len() == k,
                forall|j: int|
                    0 <= j < k ==> {
                        let e = self.execution_history@[j];
                        &&& (#[trigger] result@[j]).0 == e.address
                        &&& result@[j].1@ == instruction_text(
                            e.instruction,
                            e.address_mode,
                            e.operand_bytes[0],
                            e.operand_bytes[1],
                        )
                    },
            decreases self.execution_history@.len() - k,
        {
            result.push(self.execution_history[k].disassemble());
            k = k + 1;
        }
        result
    }
}

} // verus!
