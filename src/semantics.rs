//! Facts about the processor's step semantics, proved from its definition.
use vstd::prelude::*;
use crate::bus::{address_of, high_byte, low_byte, wrap16};
use crate::cpu::{
    CpuModel, branch_taken, execute, operand_of, pulled_address, push_address, signed,
    stack_address, step, step_decoded, wrap8,
};
use crate::instruction::{AddressMode, Instruction, Operand, opcode_table};

verus! {

/// ADC adds the operand and the carry to A modulo 256, and sets C exactly when
/// the unsigned sum reaches 256.
pub proof fn lemma_adc_sum(s: CpuModel, m: u8)
    requires
        s.read(s.pc) == 0x69,
        s.read(wrap16(s.pc + 1)) == m,
    ensures
        ({
            let c = if s.p.carry { 1int } else { 0int };
            let t = step(s).0;
            t.a == (s.a + m + c) % 256 && t.p.carry == (s.a + m + c >= 256)
        }),
{
    reveal(execute);
    reveal(step);
}

/// CMP sets C exactly when A is at least the operand, and Z exactly when they are equal.
pub proof fn lemma_cmp_flags(s: CpuModel, m: u8)
    requires
        s.read(s.pc) == 0xc9,
        s.read(wrap16(s.pc + 1)) == m,
    ensures
        step(s).0.p.carry == (s.a >= m),
        step(s).0.p.zero == (s.a == m),
        step(s).0.a == s.a,
{
    reveal(execute);
    reveal(step);
}

/// A taken branch continues at the address of the next instruction plus the
/// signed offset; a branch not taken continues at the next instruction.
#[verifier::rlimit(30)]
pub proof fn lemma_branch_target(s: CpuModel, ins: Instruction, base: u8)
    requires
        opcode_table(s.read(s.pc)) == Some((ins, AddressMode::Relative, base)),
        ins == Instruction::BCC || ins == Instruction::BCS || ins == Instruction::BEQ || ins
            == Instruction::BNE || ins == Instruction::BMI || ins == Instruction::BPL || ins
            == Instruction::BVC || ins == Instruction::BVS,
    ensures
        branch_taken(ins, s.p) ==> step(s).0.pc == wrap16(
            wrap16(s.pc + 2) + signed(s.read(wrap16(s.pc + 1))),
        ),
        !branch_taken(ins, s.p) ==> step(s).0.pc == wrap16(s.pc + 2),
{
    let off = signed(s.read(wrap16(s.pc + 1)));
    let next = CpuModel { pc: wrap16(s.pc + 2), ..s };
    let target = wrap16(s.pc + 2 + off);
    assert(step(s) == step_decoded(s, ins, AddressMode::Relative, base)) by {
        reveal(step);
    }
    assert(operand_of(s, AddressMode::Relative, s.read(wrap16(s.pc + 1)), s.read(wrap16(s.pc + 2)))
        == Operand::Address(target));
    assert(execute(next, ins, Operand::Address(target)).pc == if branch_taken(ins, s.p) {
        target
    } else {
        next.pc
    }) by {
        reveal(execute);
    }
    assert(wrap16(wrap16(s.pc + 2) + off) == target);
}

/// What JSR does: it pushes the address of its last operand byte, high byte
/// first, and jumps to its operand.
proof fn lemma_jsr_step(s: CpuModel)
    requires
        s.read(s.pc) == 0x20,
    ensures
        step(s).0 == (CpuModel {
            pc: address_of(s.read(wrap16(s.pc + 1)), s.read(wrap16(s.pc + 2))),
            ..push_address(CpuModel { pc: wrap16(s.pc + 3), ..s }, wrap16(wrap16(s.pc + 3) - 1))
        }),
{
    reveal(execute);
    reveal(step);
}

/// What RTS does: it pulls an address, low byte first, and continues one past it.
proof fn lemma_rts_step(u: CpuModel)
    requires
        u.read(u.pc) == 0x60,
    ensures
        step(u).0 == (CpuModel { pc: wrap16(pulled_address(u) + 1), ..u.pull().pull() }),
{
    reveal(execute);
    reveal(step);
}

/// Two pulls give back the address that two pushes stored, when the stack
/// slots still hold what was pushed.
#[verifier::rlimit(30)]
proof fn lemma_pull_pushed_address(n: CpuModel, address: u16, u: CpuModel)
    requires
        n.mem.len() == 0x10000,
        n.writable.contains(stack_address(n.sp)),
        n.writable.contains(stack_address(wrap8(n.sp - 1))),
        u.sp == push_address(n, address).sp,
        u.read(stack_address(wrap8(u.sp + 1))) == push_address(n, address).read(
            stack_address(wrap8(u.sp + 1)),
        ),
        u.read(stack_address(wrap8(u.sp + 2))) == push_address(n, address).read(
            stack_address(wrap8(u.sp + 2)),
        ),
    ensures
        pulled_address(u) == address,
        u.pull().pull().sp == n.sp,
{
    let sp1 = wrap8(n.sp - 1);
    let sp2 = wrap8(sp1 - 1);
    let n1 = n.push(high_byte(address));
    let n2 = n1.push(low_byte(address));
    assert(n2 == push_address(n, address));
    assert(n1.mem == n.mem.update(stack_address(n.sp) as int, high_byte(address)));
    assert(n2.mem == n1.mem.update(stack_address(sp1) as int, low_byte(address)));
    assert(n2.sp == sp2);
    assert(wrap8(sp2 + 1) == sp1);
    assert(wrap8(sp2 + 2) == n.sp);
    assert(wrap8(wrap8(sp2 + 1) + 1) == n.sp);
    assert(stack_address(n.sp) != stack_address(sp1));
    assert(u.pulled() == low_byte(address));
    assert(u.pull().pulled() == high_byte(address));
}

/// A JSR followed, after any code that leaves the stack as JSR left it, by an
/// RTS returns to the instruction after the JSR, with the stack pointer restored.
#[verifier::rlimit(30)]
pub proof fn lemma_jsr_then_rts(s: CpuModel, u: CpuModel)
    requires
        s.mem.len() == 0x10000,
        s.read(s.pc) == 0x20,
        s.writable.contains(stack_address(s.sp)),
        s.writable.contains(stack_address(wrap8(s.sp - 1))),
        u.read(u.pc) == 0x60,
        u.sp == step(s).0.sp,
        u.read(stack_address(wrap8(u.sp + 1))) == step(s).0.read(stack_address(wrap8(u.sp + 1))),
        u.read(stack_address(wrap8(u.sp + 2))) == step(s).0.read(stack_address(wrap8(u.sp + 2))),
    ensures
        step(s).0.pc == address_of(s.read(wrap16(s.pc + 1)), s.read(wrap16(s.pc + 2))),
        step(u).0.pc == wrap16(s.pc + 3),
        step(u).0.sp == s.sp,
{
    lemma_jsr_step(s);
    lemma_rts_step(u);
    let ret = wrap16(wrap16(s.pc + 3) - 1);
    let n = CpuModel { pc: wrap16(s.pc + 3), ..s };
    lemma_pull_pushed_address(n, ret, u);
    assert(wrap16(ret + 1) == wrap16(s.pc + 3));
}

} // verus!
