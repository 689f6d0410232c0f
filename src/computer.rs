//! A processor wired to RAM and a ROM, paced by a clock.
use vstd::prelude::*;
use crate::bus::{Addressable, Bus, Ram, placeable, placeable_at_end};
use crate::clock::{Clock, sleep_for};
use crate::cpu::{Cpu, CpuModel, listing, opcode_text, power_on, step};
use crate::inspect::instruction_text;
use crate::inspect::CpuState;

verus! {

/// The most instructions that the reset code may take before it halts.
pub const RESET_STEP_LIMIT: u64 = 10_000_000;

/// What running at most `fuel` steps does: the state after it, and whether
/// execution stopped by itself.
pub open spec fn run_spec(s: CpuModel, fuel: nat) -> (CpuModel, bool)
    decreases fuel,
{
    if fuel == 0 {
        (s, false)
    } else {
        let (t, r) = step(s);
        if r is None {
            (t, true)
        } else {
            run_spec(t, (fuel - 1) as nat)
        }
    }
}

/// The processor state right after power-on on a bus of `memory_size` bytes of
/// zeroed RAM at `$0000` with `rom` mapped on top so that it ends at `$FFFF`.
pub open spec fn boot_model(rom: Seq<u8>, memory_size: nat) -> CpuModel {
    let rom_start = 0x10000 - rom.len();
    let m = CpuModel {
        a: 0,
        x: 0,
        y: 0,
        sp: 0xfd,
        pc: 0,
        p: crate::status::power_on_status(),
        mem: Seq::new(
            0x10000,
            |i: int|
                if i >= rom_start {
                    rom[i - rom_start]
                } else {
                    0u8
                },
        ),
        writable: Set::new(|a: u16| a < rom_start && a < memory_size),
    };
    CpuModel { pc: m.read_pair(crate::cpu::RESET_ADDRESS), ..m }
}

/// Builds a computer from a clock, a ROM image and a RAM size.
pub struct ComputerBuilder {
    clock: Clock,
    rom: Vec<u8>,
    memory_size: usize,
}

impl ComputerBuilder {
    pub closed spec fn clock(&self) -> Clock {
        self.clock
    }

    pub closed spec fn rom(&self) -> Seq<u8> {
        self.rom@
    }

    pub closed spec fn memory_size(&self) -> nat {
        self.memory_size as nat
    }

    /// A builder with a throttled clock, no ROM and 64 KiB of RAM.
    pub fn new() -> (r: ComputerBuilder)
        ensures
            r.clock().wf(),
            r.rom() == Seq::<u8>::empty(),
            r.memory_size() == 0x10000,
    {
        ComputerBuilder { clock: Clock::default(), rom: Vec::new(), memory_size: 0x10000 }
    }

    pub fn with_clock(self, clock: Clock) -> (r: ComputerBuilder)
        ensures
            r.clock() == clock,
            r.rom() == self.rom(),
            r.memory_size() == self.memory_size(),
    {
        ComputerBuilder { clock, ..self }
    }

    pub fn with_rom(self, rom: Vec<u8>) -> (r: ComputerBuilder)
        ensures
            r.clock() == self.clock(),
            r.rom() == rom@,
            r.memory_size() == self.memory_size(),
    {
        ComputerBuilder { rom, ..self }
    }

    pub fn with_memory_size(self, memory_size: usize) -> (r: ComputerBuilder)
        ensures
            r.clock() == self.clock(),
            r.rom() == self.rom(),
            r.memory_size() == memory_size,
    {
        ComputerBuilder { memory_size, ..self }
    }

    /// Maps the RAM at `$0000` and the ROM at the end of the address space,
    /// then runs the reset code until it halts. Fails where the ROM is shorter
    /// than a page, where the RAM or the ROM cannot be mapped, or where the
    /// reset code does not halt within `RESET_STEP_LIMIT` instructions.
    pub fn build(self) -> (r: Result<Computer, String>)
        requires
            self.clock().wf(),
        ensures
            r is Ok <==> {
                &&& self.rom().len() >= 0x100
                &&& placeable(0, self.memory_size())
                &&& placeable_at_end(self.rom().len())
                &&& run_spec(boot_model(self.rom(), self.memory_size()), RESET_STEP_LIMIT as nat).1
            },
            r is Ok ==> r->Ok_0.wf() && r->Ok_0.cpu_model() == run_spec(
                boot_model(self.rom(), self.memory_size()),
                RESET_STEP_LIMIT as nat,
            ).0,
    {
        if self.rom.len() < 0x100 {
            return Err(String::from_str("ROM is too small or not set"));
        }
        let memory = Ram::new(self.memory_size);
        let bus = match Bus::new().add_ram(memory, 0) {
            Ok(bus) => bus,
            Err(e) => {
                return Err(e);
            },
        };
        let bus = match bus.add_rom_at_end(self.rom.as_slice()) {
            Ok(bus) => bus,
            Err(e) => {
                return Err(e);
            },
        };
        let cpu = Cpu::new(bus);
        proof {
            let m = boot_model(self.rom(), self.memory_size());
            let p = power_on(bus);
            assert(p.mem =~= m.mem);
            assert(p.writable =~= m.writable);
        }
        let mut computer = Computer { cpu, clock: self.clock };
        if computer.run(RESET_STEP_LIMIT) {
            Ok(computer)
        } else {
            Err(String::from_str("ROM reset code does not halt"))
        }
    }
}

impl Default for ComputerBuilder {
    fn default() -> (r: ComputerBuilder)
        ensures
            r.clock().wf(),
            r.rom() == Seq::<u8>::empty(),
            r.memory_size() == 0x10000,
    {
        ComputerBuilder::new()
    }
}

/// A processor with its bus and its clock.
pub struct Computer {
    cpu: Cpu,
    clock: Clock,
}

impl Computer {
    /// The state of the processor.
    pub closed spec fn cpu_model(&self) -> CpuModel {
        self.cpu@
    }

    pub closed spec fn clock(&self) -> Clock {
        self.clock
    }

    pub closed spec fn wf(&self) -> bool {
        self.cpu.wf() && self.clock.wf()
    }

    /// A builder for a computer.
    pub fn new() -> (r: ComputerBuilder)
        ensures
            r.clock().wf(),
            r.rom() == Seq::<u8>::empty(),
            r.memory_size() == 0x10000,
    {
        ComputerBuilder::new()
    }

    /// Runs at most `max_steps` instructions, without waiting on the clock.
    /// Returns whether execution stopped by itself.
    pub fn run(&mut self, max_steps: u64) -> (r: bool)
        requires
            old(self).wf(),
        ensures
            final(self).wf(),
            (final(self).cpu_model(), r) == run_spec(old(self).cpu_model(), max_steps as nat),
            final(self).clock() == old(self).clock(),
    {
        let mut left = max_steps;
        while left > 0
            invariant
                self.wf(),
                self.clock == old(self).clock,
                run_spec(old(self).cpu_model(), max_steps as nat) == run_spec(
                    self.cpu_model(),
                    left as nat,
                ),
            decreases left,
        {
            match self.cpu.fetch_and_execute() {
                Some(_) => {},
                None => {
                    return true;
                },
            }
            left = left - 1;
        }
        false
    }

    /// Executes one instruction and counts its cycles on the clock at instant
    /// `now` (in nanoseconds). Returns how long to sleep before the next step,
    /// or `None` where execution stops.
    pub fn step(&mut self, now: u64) -> (r: Option<u64>)
        requires
            old(self).wf(),
        ensures
            final(self).wf(),
            final(self).cpu_model() == step(old(self).cpu_model()).0,
            match step(old(self).cpu_model()).1 {
                Some(n) => r == Some(sleep_for(old(self).clock(), n, now)),
                None => r is None && final(self).clock() == old(self).clock(),
            },
    {
        match self.cpu.fetch_and_execute() {
            Some(ticks) => Some(self.clock.wait_for_tick(ticks, now)),
            None => None,
        }
    }

    /// Writes `program` from `address` on and points the program counter at it.
    pub fn load_program(&mut self, address: u16, program: &[u8])
        requires
            old(self).wf(),
            0x200 <= address <= 0xfdff,
            program@.len() <= 0x10000,
        ensures
            final(self).wf(),
            final(self).cpu_model() == crate::cpu::loaded(old(self).cpu_model(), address, program@),
            final(self).clock() == old(self).clock(),
    {
        self.cpu.load_program(address, program);
    }

    /// A copy of the processor's registers.
    pub fn get_cpu_state(&self) -> (r: CpuState)
        ensures
            r.accumulator == self.cpu_model().a,
            r.x_index == self.cpu_model().x,
            r.y_index == self.cpu_model().y,
            r.stack_pointer == self.cpu_model().sp,
            r.program_counter == self.cpu_model().pc,
            r.status == self.cpu_model().p,
    {
        self.cpu.get_state()
    }
}

impl Computer {
    /// Reads `n_lines` lines of `line_length` bytes each, from `start` on,
    /// each with the address it starts at.
    pub fn get_memory_lines(&self, start: u16, n_lines: u16, line_length: u16) -> (r: Vec<
        (u16, Vec<u8>),
    >)
        requires
            self.wf(),
            line_length > 0,
            start % line_length == 0,
            start + n_lines * line_length <= 0x10000,
        ensures
            r@.len() == n_lines,
            forall|i: int|
                0 <= i < n_lines ==> {
                    &&& (#[trigger] r@[i]).0 == start + i * line_length
                    &&& r@[i].1@ == self.cpu_model().mem.subrange(
                        start + i * line_length,
                        start + (i + 1) * line_length,
                    )
                },
    {
        proof {
            self.cpu.lemma_mem_len();
        }
        let mut lines: Vec<(u16, Vec<u8>)> = Vec::new();
        let mut i: u16 = 0;
        let mut line_start: usize = start as usize;
        while i < n_lines
            invariant
                self.wf(),
                i <= n_lines,
                self.cpu_model().mem.len() == 0x10000,
                line_start == start + i * line_length,
                start + n_lines * line_length <= 0x10000,
                lines@.len() == i,
                forall|k: int|
                    0 <= k < i ==> {
                        &&& (#[trigger] lines@[k]).0 == start + k * line_length
                        &&& lines@[k].1@ == self.cpu_model().mem.subrange(
                            start + k * line_length,
                            start + (k + 1) * line_length,
                        )
                    },
            decreases n_lines - i,
        {
            proof {
                assert(i * line_length + line_length <= n_lines * line_length) by (nonlinear_arith)
                    requires
                        i < n_lines,
                ;
                assert((i + 1) * line_length == i * line_length + line_length) by (nonlinear_arith);
            }
            let mut line: Vec<u8> = Vec::new();
            let mut j: u16 = 0;
            assert(line@ =~= self.cpu_model().mem.subrange(line_start as int, line_start as int));
            while j < line_length
                invariant
                    self.wf(),
                    j <= line_length,
                    line_start + line_length <= 0x10000,
                    line@ == self.cpu_model().mem.subrange(line_start as int, line_start + j),
                    self.cpu_model().mem.len() == 0x10000,
                decreases line_length - j,
            {
                line.push(self.cpu.read_memory((line_start + j as usize) as u16));
                j = j + 1;
                proof {
                    assert(line@ =~= self.cpu_model().mem.subrange(line_start as int, line_start + j));
                }
            }
            lines.push((line_start as u16, line));
            i = i + 1;
            line_start = line_start + line_length as usize;
        }
        lines
    }
}

impl Computer {
    /// The instruction at `address` in assembler syntax.
    pub fn address_opcode_to_string(&self, address: u16) -> (r: String)
        requires
            self.wf(),
        ensures
            r@ == opcode_text(self.cpu_model(), address),
    {
        self.cpu.address_opcode_to_string(address)
    }

    /// Lists `length` instructions from `start_address` on, stopping early
    /// after an undefined opcode.
    pub fn disassemble(&self, start_address: u16, length: u16) -> (r: Vec<(u16, String)>)
        requires
            self.wf(),
        ensures
            r@.len() == listing(self.cpu_model(), start_address, length as nat).len(),
            forall|k: int|
                0 <= k < r@.len() ==> {
                    &&& (#[trigger] r@[k]).0 == listing(
                        self.cpu_model(),
                        start_address,
                        length as nat,
                    )[k]
                    &&& r@[k].1@ == opcode_text(self.cpu_model(), r@[k].0)
                },
    {
        self.cpu.disassemble(start_address, length)
    }

    /// The recorded instructions in assembler syntax, oldest first.
    pub fn get_execution_history(&self) -> (r: Vec<(u16, String)>)
        ensures
            r@.len() == self.history().len(),
            forall|k: int|
                0 <= k < r@.len() ==> {
                    let e = self.history()[k];
                    &&& (#[trigger] r@[k]).0 == e.address
                    &&& r@[k].1@ == instruction_text(
                        e.instruction,
                        e.address_mode,
                        e.operand_bytes[0],
                        e.operand_bytes[1],
                    )
                },
    {
        self.cpu.get_execution_history()
    }

    /// The records of the instructions executed last, oldest first.
    pub closed spec fn history(&self) -> Seq<crate::inspect::ExecutedInstruction> {
        self.cpu.history()
    }
}

} // verus!
