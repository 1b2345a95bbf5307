//! The execution loop's step: fetch, decode and dispatch one instruction,
//! and the question of whether that step will need a byte of input.
use vstd::prelude::*;

use crate::image::{image_words, load_image, placed, ImageError};
use crate::memory::{after_read, read_value, Memory, KBSR, MAX_SIZE};
use crate::ops::{
    and, base_addr, base_address, br, dr, get_op_code, jmp, jsr, ldi, load, load_e, load_r, long_mode,
    not, off11, op_of, operand2, pc_addr, pc_address, sr1, store, store_i, store_r, OpCode,
};
use crate::registers::{flag_bits, Flag, Registers, PC_INDEX};
use crate::trap::{scan, trap, trap_code_of, trap_effect, Flow, TrapCode, VmError};
use crate::word::{add_wrapping, wrap_add};

verus! {

/// Address at which a machine's PC starts before an image is loaded.
pub const START: u16 = 0x3000;

/// What the next step needs from the input source before it runs.
#[derive(Debug, Clone, Copy, PartialEq, Eq, Structural)]
pub enum InputDemand {
    /// Nothing: the step reads no byte.
    Idle,
    /// One byte, read without a prompt (a keyboard poll or Getc).
    Byte,
    /// One byte, read after a prompt is shown (In).
    PromptedByte,
}

/// What executing `instr` does, with `regs.pc` already past it: the
/// registers, memory and output after it, and how the machine goes on.
pub open spec fn execute(instr: u16, regs: Registers, mem: Seq<u16>, key: Option<u8>) -> (
    Registers,
    Seq<u16>,
    Seq<u8>,
    Result<Flow, VmError>,
) {
    let d = dr(instr);
    let ok = Ok::<Flow, VmError>(Flow::Running);
    match op_of(instr) {
        OpCode::Br => (
            if d & regs.cond != 0 {
                regs.with_reg(PC_INDEX, pc_addr(instr, regs))
            } else {
                regs
            },
            mem,
            seq![],
            ok,
        ),
        OpCode::Add => (
            regs.with_result(d, wrap_add(regs.reg(sr1(instr)), operand2(instr, regs))),
            mem,
            seq![],
            ok,
        ),
        OpCode::And => (
            regs.with_result(d, regs.reg(sr1(instr)) & operand2(instr, regs)),
            mem,
            seq![],
            ok,
        ),
        OpCode::Not => (regs.with_result(d, !regs.reg(sr1(instr))), mem, seq![], ok),
        OpCode::Load => (
            regs.with_result(d, read_value(mem, pc_addr(instr, regs), key)),
            after_read(mem, pc_addr(instr, regs), key),
            seq![],
            ok,
        ),
        OpCode::Ldr => (
            regs.with_result(d, read_value(mem, base_addr(instr, regs), key)),
            after_read(mem, base_addr(instr, regs), key),
            seq![],
            ok,
        ),
        OpCode::Ldi => {
            let m1 = after_read(mem, pc_addr(instr, regs), key);
            let target = read_value(mem, pc_addr(instr, regs), key);
            (
                regs.with_result(d, read_value(m1, target, key)),
                after_read(m1, target, key),
                seq![],
                ok,
            )
        },
        OpCode::Lea => (regs.with_result(d, pc_addr(instr, regs)), mem, seq![], ok),
        OpCode::Store => (regs, mem.update(pc_addr(instr, regs) as int, regs.reg(d)), seq![], ok),
        OpCode::Str => (regs, mem.update(base_addr(instr, regs) as int, regs.reg(d)), seq![], ok),
        OpCode::Sti => {
            let m1 = after_read(mem, pc_addr(instr, regs), key);
            let target = read_value(mem, pc_addr(instr, regs), key);
            (regs, m1.update(target as int, regs.reg(d)), seq![], ok)
        },
        OpCode::Jmp => (regs.with_reg(PC_INDEX, regs.reg(sr1(instr))), mem, seq![], ok),
        OpCode::Jsr => {
            let saved = regs.with_reg(7, regs.pc);
            (
                if long_mode(instr) {
                    saved.with_reg(PC_INDEX, wrap_add(regs.pc, off11(instr)))
                } else {
                    saved.with_reg(PC_INDEX, saved.reg(sr1(instr)))
                },
                mem,
                seq![],
                ok,
            )
        },
        OpCode::Trap => trap_effect(instr, regs, mem, key),
        OpCode::Rti => (regs, mem, seq![], Err(VmError::UnsupportedOpcode(instr))),
        OpCode::Res => (regs, mem, seq![], Err(VmError::UnsupportedOpcode(instr))),
    }
}

/// One step from `regs` and `mem`: fetch the word at PC (a read, so a
/// fetch from KBSR polls), advance PC by one with wraparound, execute.
pub open spec fn step_effect(regs: Registers, mem: Seq<u16>, key: Option<u8>) -> (
    Registers,
    Seq<u16>,
    Seq<u8>,
    Result<Flow, VmError>,
) {
    execute(
        read_value(mem, regs.pc, key),
        regs.with_reg(PC_INDEX, wrap_add(regs.pc, 1)),
        after_read(mem, regs.pc, key),
        key,
    )
}

/// Whether reading a string from `idx` on, for at most `fuel` words of
/// `mem`, reaches KBSR before a zero word.
pub open spec fn scan_hits_kbsr(mem: Seq<u16>, idx: u16, fuel: nat) -> bool
    decreases fuel,
{
    if fuel == 0 {
        false
    } else if idx == KBSR {
        true
    } else if mem[idx as int] == 0 {
        false
    } else {
        scan_hits_kbsr(mem, wrap_add(idx, 1), (fuel - 1) as nat)
    }
}

/// What the step from `regs` and `mem` needs from the input source.
pub open spec fn demand_of(regs: Registers, mem: Seq<u16>) -> InputDemand {
    let instr = mem[regs.pc as int];
    let r = regs.with_reg(PC_INDEX, wrap_add(regs.pc, 1));
    let poll_if = |b: bool| if b { InputDemand::Byte } else { InputDemand::Idle };
    if regs.pc == KBSR {
        InputDemand::Byte
    } else {
        match op_of(instr) {
            OpCode::Load => poll_if(pc_addr(instr, r) == KBSR),
            OpCode::Ldr => poll_if(base_addr(instr, r) == KBSR),
            OpCode::Ldi => poll_if(pc_addr(instr, r) == KBSR || mem[pc_addr(instr, r) as int] == KBSR),
            OpCode::Sti => poll_if(pc_addr(instr, r) == KBSR),
            OpCode::Trap => match trap_code_of(instr & 0xFF) {
                Some(TrapCode::Getc) => InputDemand::Byte,
                Some(TrapCode::In) => InputDemand::PromptedByte,
                Some(TrapCode::Puts) => poll_if(scan_hits_kbsr(mem, r.r0, MAX_SIZE as nat)),
                Some(TrapCode::Putsp) => poll_if(scan_hits_kbsr(mem, r.r0, MAX_SIZE as nat)),
                _ => InputDemand::Idle,
            },
            _ => InputDemand::Idle,
        }
    }
}

fn string_hits_kbsr(memory: &Memory, start: u16) -> (r: bool)
    requires
        memory.wf(),
    ensures
        r == scan_hits_kbsr(memory@, start, MAX_SIZE as nat),
{
    let mut idx: u16 = start;
    let mut i: usize = 0;
    while i < MAX_SIZE
        invariant
            i <= MAX_SIZE,
            memory.wf(),
            scan_hits_kbsr(memory@, start, MAX_SIZE as nat) == scan_hits_kbsr(
                memory@,
                idx,
                (MAX_SIZE - i) as nat,
            ),
        decreases MAX_SIZE - i,
    {
        if idx == KBSR {
            return true;
        }
        if memory.peek(idx) == 0 {
            return false;
        }
        idx = add_wrapping(idx, 1);
        i = i + 1;
    }
    false
}

fn poll_demand(b: bool) -> (r: InputDemand)
    ensures
        r == (if b { InputDemand::Byte } else { InputDemand::Idle }),
{
    if b {
        InputDemand::Byte
    } else {
        InputDemand::Idle
    }
}

proof fn lemma_scan_without_poll(mem: Seq<u16>, idx: u16, fuel: nat, k1: Option<u8>, k2: Option<u8>, packed: bool)
    requires
        !scan_hits_kbsr(mem, idx, fuel),
    ensures
        scan(mem, idx, fuel, k1, packed) == scan(mem, idx, fuel, k2, packed),
    decreases fuel,
{
    if fuel > 0 && mem[idx as int] != 0 {
        lemma_scan_without_poll(mem, wrap_add(idx, 1), (fuel - 1) as nat, k1, k2, packed);
    }
}

/// A step for which `demand_of` asks no input reads none: whatever byte is
/// handed to it, the registers, memory, output and outcome are the same.
pub proof fn idle_step_ignores_key(regs: Registers, mem: Seq<u16>, k1: Option<u8>, k2: Option<u8>)
    requires
        mem.len() == MAX_SIZE,
        demand_of(regs, mem) == InputDemand::Idle,
    ensures
        step_effect(regs, mem, k1) == step_effect(regs, mem, k2),
{
    let instr = mem[regs.pc as int];
    let r = regs.with_reg(PC_INDEX, wrap_add(regs.pc, 1));
    if op_of(instr) == OpCode::Trap {
        let t = trap_code_of(instr & 0xFF);
        if t == Some(TrapCode::Puts) || t == Some(TrapCode::Putsp) {
            lemma_scan_without_poll(mem, r.r0, MAX_SIZE as nat, k1, k2, false);
            lemma_scan_without_poll(mem, r.r0, MAX_SIZE as nat, k1, k2, true);
        }
    }
}

/// A Halt trap ends the machine and touches nothing but the fetch's PC
/// increment: registers otherwise kept, memory kept, nothing printed.
pub proof fn halt_step(regs: Registers, mem: Seq<u16>, key: Option<u8>)
    requires
        mem.len() == MAX_SIZE,
        regs.pc != KBSR,
        mem[regs.pc as int] & 0xF0FF == 0xF025,
    ensures
        step_effect(regs, mem, key) == (
            regs.with_reg(PC_INDEX, wrap_add(regs.pc, 1)),
            mem,
            Seq::<u8>::empty(),
            Ok::<Flow, VmError>(Flow::Halted),
        ),
{
    let instr = mem[regs.pc as int];
    assert(instr & 0xF0FF == 0xF025 ==> instr >> 12 == 15 && instr & 0xFF == 0x25) by (bit_vector);
}

/// COND holds exactly one flag bit before a step, then also after it:
/// flag-setting instructions set one from their destination, the others
/// leave COND alone.
pub proof fn step_keeps_one_flag(regs: Registers, mem: Seq<u16>, key: Option<u8>)
    requires
        mem.len() == MAX_SIZE,
        regs.cond == 1 || regs.cond == 2 || regs.cond == 4,
    ensures
        ({
            let c = step_effect(regs, mem, key).0.cond;
            c == 1 || c == 2 || c == 4
        }),
{
    let instr = read_value(mem, regs.pc, key);
    assert((instr >> 9) & 7 <= 7) by (bit_vector);
}

/// A machine: its registers and its memory.
pub struct Machine {
    pub registers: Registers,
    pub memory: Memory,
}

impl Machine {
    /// Zeroed memory and registers, COND = Zero and PC = `START`.
    pub fn new() -> (r: Machine)
        ensures
            r.memory.wf(),
            forall|i: int| 0 <= i < MAX_SIZE ==> #[trigger] r.memory@[i] == 0,
            r.registers == (Registers {
                r0: 0,
                r1: 0,
                r2: 0,
                r3: 0,
                r4: 0,
                r5: 0,
                r6: 0,
                r7: 0,
                pc: START,
                cond: flag_bits(Flag::Zero),
            }),
    {
        let mut registers = Registers::new();
        registers.cond = Flag::Zero.bits();
        registers.pc = START;
        Machine { registers, memory: Memory::new() }
    }

    /// Loads the image `bytes` (see `load_image`) and points PC at its
    /// origin. Nothing changes when the image is refused.
    pub fn load_program(&mut self, bytes: &Vec<u8>) -> (r: Result<(), ImageError>)
        requires
            old(self).memory.wf(),
        ensures
            final(self).memory.wf(),
            ({
                let words = image_words(bytes@);
                if bytes@.len() < 2 {
                    &&& r == Err::<(), ImageError>(ImageError::MissingOrigin)
                    &&& final(self).memory@ == old(self).memory@
                    &&& final(self).registers == old(self).registers
                } else if bytes@.len() % 2 == 1 {
                    &&& r == Err::<(), ImageError>(ImageError::Truncated)
                    &&& final(self).memory@ == old(self).memory@
                    &&& final(self).registers == old(self).registers
                } else {
                    &&& r == Ok::<(), ImageError>(())
                    &&& final(self).memory@ == placed(old(self).memory@, words[0], words.drop_first())
                    &&& final(self).registers == old(self).registers.with_reg(PC_INDEX, words[0])
                }
            }),
    {
        match load_image(bytes, &mut self.memory) {
            Ok(origin) => {
                self.registers.pc = origin;
                Ok(())
            },
            Err(e) => Err(e),
        }
    }

    /// Whether the next step reads a byte from the input source: the
    /// caller reads it (after showing a prompt for `PromptedByte`) and hands
    /// it to `step`.
    pub fn input_demand(&self) -> (r: InputDemand)
        requires
            self.memory.wf(),
        ensures
            r == demand_of(self.registers, self.memory@),
    {
        let pc = self.registers.pc;
        if pc == KBSR {
            return InputDemand::Byte;
        }
        let instr = self.memory.peek(pc);
        let mut regs = self.registers;
        regs.pc = add_wrapping(pc, 1);
        match get_op_code(instr) {
            OpCode::Load => {
                let a = pc_address(instr, &regs);
                poll_demand(a == KBSR)
            },
            OpCode::Ldr => {
                let a = base_address(instr, &regs);
                poll_demand(a == KBSR)
            },
            OpCode::Ldi => {
                let a = pc_address(instr, &regs);
                poll_demand(a == KBSR || self.memory.peek(a) == KBSR)
            },
            OpCode::Sti => {
                let a = pc_address(instr, &regs);
                poll_demand(a == KBSR)
            },
            OpCode::Trap => match TrapCode::from_code(instr & 0xFF) {
                Some(TrapCode::Getc) => InputDemand::Byte,
                Some(TrapCode::In) => InputDemand::PromptedByte,
                Some(TrapCode::Puts) | Some(TrapCode::Putsp) => poll_demand(
                    string_hits_kbsr(&self.memory, regs.r0),
                ),
                _ => InputDemand::Idle,
            },
            _ => InputDemand::Idle,
        }
    }

    /// Runs one instruction. `key` is the byte that the input source gave
    /// when `input_demand` asked for one (`None` when it had none left); it
    /// is not looked at otherwise. Bytes to print are appended to `out`.
    pub fn step(&mut self, key: Option<u8>, out: &mut Vec<u8>) -> (r: Result<Flow, VmError>)
        requires
            old(self).memory.wf(),
        ensures
            ({
                let e = step_effect(old(self).registers, old(self).memory@, key);
                &&& final(self).memory.wf()
                &&& final(self).registers == e.0
                &&& final(self).memory@ == e.1
                &&& final(out)@ == old(out)@ + e.2
                &&& r == e.3
            }),
    {
        let instr = self.memory.read(self.registers.pc, key);
        self.registers.pc = add_wrapping(self.registers.pc, 1);
        let registers = &mut self.registers;
        let memory = &mut self.memory;
        let ghost o = out@;
        let done = Ok(Flow::Running);
        match get_op_code(instr) {
            OpCode::Br => br(instr, registers),
            OpCode::Add => crate::ops::add(instr, registers),
            OpCode::Load => load(instr, registers, memory, key),
            OpCode::Store => store(instr, registers, memory),
            OpCode::Jsr => jsr(instr, registers),
            OpCode::And => and(instr, registers),
            OpCode::Ldr => load_r(instr, registers, memory, key),
            OpCode::Str => store_r(instr, registers, memory),
            OpCode::Not => not(instr, registers),
            OpCode::Ldi => ldi(instr, registers, memory, key),
            OpCode::Sti => store_i(instr, registers, memory, key),
            OpCode::Jmp => jmp(instr, registers),
            OpCode::Lea => load_e(instr, registers),
            OpCode::Trap => {
                return trap(instr, registers, memory, key, out);
            },
            OpCode::Rti | OpCode::Res => {
                assert(out@ =~= o + Seq::<u8>::empty());
                return Err(VmError::UnsupportedOpcode(instr));
            },
        }
        assert(out@ =~= o + Seq::<u8>::empty());
        done
    }
}

} // verus!
