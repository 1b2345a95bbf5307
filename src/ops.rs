//! Instruction decoding and the opcode handlers.
use vstd::arithmetic::power2::lemma2_to64;
use vstd::prelude::*;

use crate::memory::{after_read, read_value, Memory};
use crate::registers::{Registers, PC_INDEX};
use crate::word::{add_wrapping, sext, sign_extend, wrap_add};

verus! {

/// The operation selected by the top four bits of an instruction.
#[derive(Debug, Clone, Copy, PartialEq, Eq, Structural)]
pub enum OpCode {
    Br,
    Add,
    Load,
    Store,
    Jsr,
    And,
    Ldr,
    Str,
    Rti,
    Not,
    Ldi,
    Sti,
    Jmp,
    Res,
    Lea,
    Trap,
}

/// The opcode numbered `n` (0..=15).
pub open spec fn opcode_of(n: u16) -> OpCode {
    if n == 0 {
        OpCode::Br
    } else if n == 1 {
        OpCode::Add
    } else if n == 2 {
        OpCode::Load
    } else if n == 3 {
        OpCode::Store
    } else if n == 4 {
        OpCode::Jsr
    } else if n == 5 {
        OpCode::And
    } else if n == 6 {
        OpCode::Ldr
    } else if n == 7 {
        OpCode::Str
    } else if n == 8 {
        OpCode::Rti
    } else if n == 9 {
        OpCode::Not
    } else if n == 10 {
        OpCode::Ldi
    } else if n == 11 {
        OpCode::Sti
    } else if n == 12 {
        OpCode::Jmp
    } else if n == 13 {
        OpCode::Res
    } else if n == 14 {
        OpCode::Lea
    } else {
        OpCode::Trap
    }
}

/// The opcode of an instruction: its top four bits.
pub open spec fn op_of(instr: u16) -> OpCode {
    opcode_of(instr >> 12)
}

/// Destination (or stored source) register: bits 11..9.
pub open spec fn dr(instr: u16) -> u16 {
    (instr >> 9) & 7
}

/// First source or base register: bits 8..6.
pub open spec fn sr1(instr: u16) -> u16 {
    (instr >> 6) & 7
}

/// Second source register: bits 2..0.
pub open spec fn sr2(instr: u16) -> u16 {
    instr & 7
}

/// Immediate-mode bit (bit 5) of Add and And.
pub open spec fn imm_mode(instr: u16) -> bool {
    (instr >> 5) & 1 != 0
}

/// Long-offset bit (bit 11) of JumpToSubroutine.
pub open spec fn long_mode(instr: u16) -> bool {
    (instr >> 11) & 1 != 0
}

/// The sign-extended 5-bit immediate.
pub open spec fn imm5(instr: u16) -> u16 {
    sext(instr & 0x1F, 5) as u16
}

/// The sign-extended 6-bit base offset.
pub open spec fn off6(instr: u16) -> u16 {
    sext(instr & 0x3F, 6) as u16
}

/// The sign-extended 9-bit PC offset.
pub open spec fn off9(instr: u16) -> u16 {
    sext(instr & 0x1FF, 9) as u16
}

/// The sign-extended 11-bit PC offset.
pub open spec fn off11(instr: u16) -> u16 {
    sext(instr & 0x7FF, 11) as u16
}

/// The PC-relative address of an instruction: PC + offset9.
pub open spec fn pc_addr(instr: u16, regs: Registers) -> u16 {
    wrap_add(regs.pc, off9(instr))
}

/// The base-relative address of an instruction: BaseR + offset6.
pub open spec fn base_addr(instr: u16, regs: Registers) -> u16 {
    wrap_add(regs.reg(sr1(instr)), off6(instr))
}

/// The PC-relative address that `instr` names.
pub fn pc_address(instr: u16, registers: &Registers) -> (r: u16)
    ensures
        r == pc_addr(instr, *registers),
{
    add_wrapping(registers.pc, field_off9(instr))
}

/// The base-relative address that `instr` names.
pub fn base_address(instr: u16, registers: &Registers) -> (r: u16)
    ensures
        r == base_addr(instr, *registers),
{
    let base = registers.get_reg_value(field_sr1(instr));
    add_wrapping(base, field_off6(instr))
}

/// Decodes the opcode in the top four bits of `instr`.
pub fn get_op_code(instr: u16) -> (r: OpCode)
    ensures
        r == op_of(instr),
{
    let n: u16 = instr >> 12;
    assert(instr >> 12 <= 15) by (bit_vector);
    match n {
        0 => OpCode::Br,
        1 => OpCode::Add,
        2 => OpCode::Load,
        3 => OpCode::Store,
        4 => OpCode::Jsr,
        5 => OpCode::And,
        6 => OpCode::Ldr,
        7 => OpCode::Str,
        8 => OpCode::Rti,
        9 => OpCode::Not,
        10 => OpCode::Ldi,
        11 => OpCode::Sti,
        12 => OpCode::Jmp,
        13 => OpCode::Res,
        14 => OpCode::Lea,
        _ => OpCode::Trap,
    }
}

fn field_dr(instr: u16) -> (r: u16)
    ensures
        r == dr(instr),
        r <= 7,
{
    assert((instr >> 9) & 7 <= 7) by (bit_vector);
    (instr >> 9) & 7
}

fn field_sr1(instr: u16) -> (r: u16)
    ensures
        r == sr1(instr),
        r <= 7,
{
    assert((instr >> 6) & 7 <= 7) by (bit_vector);
    (instr >> 6) & 7
}

fn field_imm5(instr: u16) -> (r: u16)
    ensures
        r == imm5(instr),
{
    proof {
        lemma2_to64();
    }
    assert(instr & 0x1F < 32) by (bit_vector);
    sign_extend(instr & 0x1F, 5)
}

fn field_off6(instr: u16) -> (r: u16)
    ensures
        r == off6(instr),
{
    proof {
        lemma2_to64();
    }
    assert(instr & 0x3F < 64) by (bit_vector);
    sign_extend(instr & 0x3F, 6)
}

fn field_off9(instr: u16) -> (r: u16)
    ensures
        r == off9(instr),
{
    proof {
        lemma2_to64();
    }
    assert(instr & 0x1FF < 512) by (bit_vector);
    sign_extend(instr & 0x1FF, 9)
}

fn field_off11(instr: u16) -> (r: u16)
    ensures
        r == off11(instr),
{
    proof {
        lemma2_to64();
    }
    assert(instr & 0x7FF < 2048) by (bit_vector);
    sign_extend(instr & 0x7FF, 11)
}

/// The second operand of Add and And: the immediate or register SR2.
pub open spec fn operand2(instr: u16, regs: Registers) -> u16 {
    if imm_mode(instr) {
        imm5(instr)
    } else {
        regs.reg(sr2(instr))
    }
}

fn second_operand(instr: u16, registers: &Registers) -> (r: u16)
    ensures
        r == operand2(instr, *registers),
{
    if (instr >> 5) & 1 != 0 {
        field_imm5(instr)
    } else {
        assert(instr & 7 <= 7) by (bit_vector);
        registers.get_reg_value(instr & 7)
    }
}

/// Add: DR = SR1 + (imm5 or SR2), wrapping; sets the flags from DR.
pub fn add(instr: u16, registers: &mut Registers)
    ensures
        *final(registers) == old(registers).with_result(
            dr(instr),
            wrap_add(old(registers).reg(sr1(instr)), operand2(instr, *old(registers))),
        ),
{
    let r0 = field_dr(instr);
    let r1 = field_sr1(instr);
    let a = registers.get_reg_value(r1);
    let b = second_operand(instr, registers);
    registers.update_register(r0, add_wrapping(a, b));
    registers.update_flag(r0);
}

/// BitwiseAnd: DR = SR1 & (imm5 or SR2); sets the flags from DR.
pub fn and(instr: u16, registers: &mut Registers)
    ensures
        *final(registers) == old(registers).with_result(
            dr(instr),
            old(registers).reg(sr1(instr)) & operand2(instr, *old(registers)),
        ),
{
    let r0 = field_dr(instr);
    let r1 = field_sr1(instr);
    let a = registers.get_reg_value(r1);
    let b = second_operand(instr, registers);
    registers.update_register(r0, a & b);
    registers.update_flag(r0);
}

/// BitwiseNot: DR = !SR; sets the flags from DR.
pub fn not(instr: u16, registers: &mut Registers)
    ensures
        *final(registers) == old(registers).with_result(dr(instr), !old(registers).reg(sr1(instr))),
{
    let r0 = field_dr(instr);
    let r1 = field_sr1(instr);
    let value = registers.get_reg_value(r1);
    registers.update_register(r0, !value);
    registers.update_flag(r0);
}

/// Branch: when the instruction's N/Z/P mask (bits 11..9) meets COND,
/// PC += offset9.
pub fn br(instr: u16, registers: &mut Registers)
    ensures
        *final(registers) == if dr(instr) & old(registers).cond != 0 {
            old(registers).with_reg(PC_INDEX, pc_addr(instr, *old(registers)))
        } else {
            *old(registers)
        },
{
    let cond_flag = field_dr(instr);
    if cond_flag & registers.cond != 0 {
        registers.pc = pc_address(instr, registers);
    }
}

/// Jump: PC = BaseR.
pub fn jmp(instr: u16, registers: &mut Registers)
    ensures
        *final(registers) == old(registers).with_reg(PC_INDEX, old(registers).reg(sr1(instr))),
{
    let r1 = field_sr1(instr);
    registers.pc = registers.get_reg_value(r1);
}

/// JumpToSubroutine: R7 = PC, then PC += offset11 when bit 11 is set,
/// else PC = BaseR (read after R7 was saved).
pub fn jsr(instr: u16, registers: &mut Registers)
    ensures
        ({
            let saved = old(registers).with_reg(7, old(registers).pc);
            *final(registers) == if long_mode(instr) {
                saved.with_reg(PC_INDEX, wrap_add(old(registers).pc, off11(instr)))
            } else {
                saved.with_reg(PC_INDEX, saved.reg(sr1(instr)))
            }
        }),
{
    let pc = registers.pc;
    registers.r7 = pc;
    if (instr >> 11) & 1 != 0 {
        let offset = field_off11(instr);
        registers.pc = add_wrapping(pc, offset);
    } else {
        let r1 = field_sr1(instr);
        registers.pc = registers.get_reg_value(r1);
    }
}

/// LoadEffectiveAddress: DR = PC + offset9; sets the flags from DR.
pub fn load_e(instr: u16, registers: &mut Registers)
    ensures
        *final(registers) == old(registers).with_result(dr(instr), pc_addr(instr, *old(registers))),
{
    let r0 = field_dr(instr);
    let value = pc_address(instr, registers);
    registers.update_register(r0, value);
    registers.update_flag(r0);
}

/// Load: DR = mem[PC + offset9]; sets the flags from DR. The read polls
/// the keyboard when it lands on KBSR, which gave `key`.
pub fn load(instr: u16, registers: &mut Registers, memory: &mut Memory, key: Option<u8>)
    requires
        old(memory).wf(),
    ensures
        final(memory).wf(),
        final(memory)@ == after_read(old(memory)@, pc_addr(instr, *old(registers)), key),
        *final(registers) == old(registers).with_result(
            dr(instr),
            read_value(old(memory)@, pc_addr(instr, *old(registers)), key),
        ),
{
    let r0 = field_dr(instr);
    let address = pc_address(instr, registers);
    let value = memory.read(address, key);
    registers.update_register(r0, value);
    registers.update_flag(r0);
}

/// LoadRegister: DR = mem[BaseR + offset6]; sets the flags from DR.
pub fn load_r(instr: u16, registers: &mut Registers, memory: &mut Memory, key: Option<u8>)
    requires
        old(memory).wf(),
    ensures
        final(memory).wf(),
        final(memory)@ == after_read(old(memory)@, base_addr(instr, *old(registers)), key),
        *final(registers) == old(registers).with_result(
            dr(instr),
            read_value(old(memory)@, base_addr(instr, *old(registers)), key),
        ),
{
    let r0 = field_dr(instr);
    let address = base_address(instr, registers);
    let value = memory.read(address, key);
    registers.update_register(r0, value);
    registers.update_flag(r0);
}

/// LoadIndirect: DR = mem[mem[PC + offset9]]; sets the flags from DR.
pub fn ldi(instr: u16, registers: &mut Registers, memory: &mut Memory, key: Option<u8>)
    requires
        old(memory).wf(),
    ensures
        ({
            let a = pc_addr(instr, *old(registers));
            let m1 = after_read(old(memory)@, a, key);
            let target = read_value(old(memory)@, a, key);
            &&& final(memory).wf()
            &&& final(memory)@ == after_read(m1, target, key)
            &&& *final(registers) == old(registers).with_result(
                dr(instr),
                read_value(m1, target, key),
            )
        }),
{
    let r0 = field_dr(instr);
    let address = pc_address(instr, registers);
    let target = memory.read(address, key);
    let value = memory.read(target, key);
    registers.update_register(r0, value);
    registers.update_flag(r0);
}

/// Store: mem[PC + offset9] = SR (bits 11..9).
pub fn store(instr: u16, registers: &mut Registers, memory: &mut Memory)
    requires
        old(memory).wf(),
    ensures
        *final(registers) == *old(registers),
        final(memory).wf(),
        final(memory)@ == old(memory)@.update(
            pc_addr(instr, *old(registers)) as int,
            old(registers).reg(dr(instr)),
        ),
{
    let r0 = field_dr(instr);
    let address = pc_address(instr, registers);
    memory.write(address, registers.get_reg_value(r0));
}

/// StoreIndirect: mem[mem[PC + offset9]] = SR.
pub fn store_i(instr: u16, registers: &mut Registers, memory: &mut Memory, key: Option<u8>)
    requires
        old(memory).wf(),
    ensures
        ({
            let a = pc_addr(instr, *old(registers));
            &&& *final(registers) == *old(registers)
            &&& final(memory).wf()
            &&& final(memory)@ == after_read(old(memory)@, a, key).update(
                read_value(old(memory)@, a, key) as int,
                old(registers).reg(dr(instr)),
            )
        }),
{
    let r0 = field_dr(instr);
    let address = pc_address(instr, registers);
    let target = memory.read(address, key);
    memory.write(target, registers.get_reg_value(r0));
}

/// StoreRegister: mem[BaseR + offset6] = SR.
pub fn store_r(instr: u16, registers: &mut Registers, memory: &mut Memory)
    requires
        old(memory).wf(),
    ensures
        *final(registers) == *old(registers),
        final(memory).wf(),
        final(memory)@ == old(memory)@.update(
            base_addr(instr, *old(registers)) as int,
            old(registers).reg(dr(instr)),
        ),
{
    let r0 = field_dr(instr);
    let address = base_address(instr, registers);
    memory.write(address, registers.get_reg_value(r0));
}

} // verus!
