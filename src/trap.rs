//! The trap dispatcher: console input and output and halting.
use vstd::prelude::*;

use crate::memory::{after_read, Memory, MAX_SIZE};
use crate::registers::Registers;
use crate::word::{add_wrapping, wrap_add};

verus! {

/// The six traps, selected by the low byte of a Trap instruction.
#[derive(Debug, Clone, Copy, PartialEq, Eq, Structural)]
pub enum TrapCode {
    /// Read one byte into R0, without echo.
    Getc,
    /// Write the low byte of R0.
    Out,
    /// Write the string of one-character words at R0.
    Puts,
    /// Prompt, read one byte into R0 and echo it.
    In,
    /// Write the string of two-character words at R0.
    Putsp,
    /// Stop the machine.
    Halt,
}

/// Whether the machine keeps running after an instruction.
#[derive(Debug, Clone, Copy, PartialEq, Eq, Structural)]
pub enum Flow {
    Running,
    Halted,
}

/// The conditions that stop the machine with a fault.
#[derive(Debug, Clone, Copy, PartialEq, Eq, Structural)]
pub enum VmError {
    /// An instruction with an opcode that has no handler (the instruction).
    UnsupportedOpcode(u16),
    /// A Trap instruction with an unknown trap code (the code).
    UnsupportedTrap(u16),
    /// Getc or In found the input source exhausted.
    InputExhausted,
    /// Puts or Putsp found no terminating zero word in a whole sweep of
    /// memory from this address.
    UnterminatedString(u16),
}

/// The trap with code `c`, if any.
pub open spec fn trap_code_of(c: u16) -> Option<TrapCode> {
    if c == 0x20 {
        Some(TrapCode::Getc)
    } else if c == 0x21 {
        Some(TrapCode::Out)
    } else if c == 0x22 {
        Some(TrapCode::Puts)
    } else if c == 0x23 {
        Some(TrapCode::In)
    } else if c == 0x24 {
        Some(TrapCode::Putsp)
    } else if c == 0x25 {
        Some(TrapCode::Halt)
    } else {
        None
    }
}

impl TrapCode {
    /// The trap's code.
    pub fn code(&self) -> (r: u16)
        ensures
            trap_code_of(r) == Some(*self),
    {
        match self {
            TrapCode::Getc => 0x20,
            TrapCode::Out => 0x21,
            TrapCode::Puts => 0x22,
            TrapCode::In => 0x23,
            TrapCode::Putsp => 0x24,
            TrapCode::Halt => 0x25,
        }
    }

    /// The trap with code `c`, `None` for an unknown code.
    pub fn from_code(c: u16) -> (r: Option<TrapCode>)
        ensures
            r == trap_code_of(c),
    {
        match c {
            0x20 => Some(TrapCode::Getc),
            0x21 => Some(TrapCode::Out),
            0x22 => Some(TrapCode::Puts),
            0x23 => Some(TrapCode::In),
            0x24 => Some(TrapCode::Putsp),
            0x25 => Some(TrapCode::Halt),
            _ => None,
        }
    }
}

/// The bytes that one word of a string contributes: its low byte; with
/// `packed`, also its high byte when that is not zero.
pub open spec fn word_chars(c: u16, packed: bool) -> Seq<u8> {
    if packed && (c >> 8) != 0 {
        seq![(c & 0xFF) as u8, (c >> 8) as u8]
    } else {
        seq![(c & 0xFF) as u8]
    }
}

/// Reading a string from `idx` on, for at most `fuel` words: the memory
/// after the reads, the bytes written, and whether a zero word ended it.
pub open spec fn scan(mem: Seq<u16>, idx: u16, fuel: nat, key: Option<u8>, packed: bool) -> (
    Seq<u16>,
    Seq<u8>,
    bool,
)
    decreases fuel,
{
    if fuel == 0 {
        (mem, seq![], false)
    } else {
        let m1 = after_read(mem, idx, key);
        let c = m1[idx as int];
        if c == 0 {
            (m1, seq![], true)
        } else {
            let rest = scan(m1, wrap_add(idx, 1), (fuel - 1) as nat, key, packed);
            (rest.0, word_chars(c, packed) + rest.1, rest.2)
        }
    }
}

/// What a trap does: the registers, memory and output after it, and how
/// the machine goes on.
pub open spec fn trap_effect(instr: u16, regs: Registers, mem: Seq<u16>, key: Option<u8>) -> (
    Registers,
    Seq<u16>,
    Seq<u8>,
    Result<Flow, VmError>,
) {
    match trap_code_of(instr & 0xFF) {
        Some(TrapCode::Getc) => match key {
            Some(b) => (regs.with_reg(0, b as u16), mem, seq![], Ok(Flow::Running)),
            None => (regs, mem, seq![], Err(VmError::InputExhausted)),
        },
        Some(TrapCode::Out) => (regs, mem, seq![(regs.r0 & 0xFF) as u8], Ok(Flow::Running)),
        Some(TrapCode::Puts) => {
            let s = scan(mem, regs.r0, MAX_SIZE as nat, key, false);
            (regs, s.0, s.1, if s.2 { Ok(Flow::Running) } else { Err(VmError::UnterminatedString(regs.r0)) })
        },
        Some(TrapCode::In) => match key {
            Some(b) => (regs.with_reg(0, b as u16), mem, seq![b], Ok(Flow::Running)),
            None => (regs, mem, seq![], Err(VmError::InputExhausted)),
        },
        Some(TrapCode::Putsp) => {
            let s = scan(mem, regs.r0, MAX_SIZE as nat, key, true);
            (regs, s.0, s.1, if s.2 { Ok(Flow::Running) } else { Err(VmError::UnterminatedString(regs.r0)) })
        },
        Some(TrapCode::Halt) => (regs, mem, seq![], Ok(Flow::Halted)),
        None => (regs, mem, seq![], Err(VmError::UnsupportedTrap(instr & 0xFF))),
    }
}

fn push_word_chars(c: u16, packed: bool, out: &mut Vec<u8>)
    ensures
        final(out)@ == old(out)@ + word_chars(c, packed),
{
    out.push((c & 0xFF) as u8);
    if packed && (c >> 8) != 0 {
        out.push((c >> 8) as u8);
    }
    assert(final(out)@ =~= old(out)@ + word_chars(c, packed));
}

/// Writes the string at `start` to `out`; returns whether a zero word
/// ended it within one sweep of memory.
fn write_string(start: u16, memory: &mut Memory, key: Option<u8>, packed: bool, out: &mut Vec<u8>) -> (r: bool)
    requires
        old(memory).wf(),
    ensures
        ({
            let s = scan(old(memory)@, start, MAX_SIZE as nat, key, packed);
            &&& final(memory).wf()
            &&& final(memory)@ == s.0
            &&& final(out)@ == old(out)@ + s.1
            &&& r == s.2
        }),
{
    let ghost m0 = memory@;
    let ghost o0 = out@;
    let mut idx: u16 = start;
    let mut i: usize = 0;
    while i < MAX_SIZE
        invariant
            i <= MAX_SIZE,
            memory.wf(),
            m0 == old(memory)@,
            o0 == old(out)@,
            ({
                let s = scan(m0, start, MAX_SIZE as nat, key, packed);
                let t = scan(memory@, idx, (MAX_SIZE - i) as nat, key, packed);
                &&& s.0 == t.0
                &&& o0 + s.1 == out@ + t.1
                &&& s.2 == t.2
            }),
        decreases MAX_SIZE - i,
    {
        let ghost before = out@;
        let ghost mem_before = memory@;
        let c = memory.read(idx, key);
        if c == 0 {
            assert(scan(mem_before, idx, (MAX_SIZE - i) as nat, key, packed) == (
                memory@,
                Seq::<u8>::empty(),
                true,
            ));
            assert(out@ =~= out@ + Seq::<u8>::empty());
            return true;
        }
        push_word_chars(c, packed, out);
        proof {
            let t = scan(memory@, wrap_add(idx, 1), (MAX_SIZE - i - 1) as nat, key, packed);
            assert(before + (word_chars(c, packed) + t.1) =~= (before + word_chars(c, packed)) + t.1);
        }
        idx = add_wrapping(idx, 1);
        i = i + 1;
    }
    assert(out@ =~= out@ + Seq::<u8>::empty());
    false
}

/// Runs the trap selected by the low byte of `trap_instr`. `key` is the
/// byte that the input source gave for Getc, In or a keyboard poll, `None`
/// when it had none; bytes to print are appended to `out`.
pub fn trap(
    trap_instr: u16,
    registers: &mut Registers,
    memory: &mut Memory,
    key: Option<u8>,
    out: &mut Vec<u8>,
) -> (r: Result<Flow, VmError>)
    requires
        old(memory).wf(),
    ensures
        ({
            let e = trap_effect(trap_instr, *old(registers), old(memory)@, key);
            &&& final(memory).wf()
            &&& *final(registers) == e.0
            &&& final(memory)@ == e.1
            &&& final(out)@ == old(out)@ + e.2
            &&& r == e.3
        }),
{
    let code = trap_instr & 0xFF;
    match TrapCode::from_code(code) {
        Some(TrapCode::Getc) => match key {
            Some(b) => {
                registers.r0 = b as u16;
                assert(out@ =~= out@ + Seq::<u8>::empty());
                Ok(Flow::Running)
            },
            None => {
                assert(out@ =~= out@ + Seq::<u8>::empty());
                Err(VmError::InputExhausted)
            },
        },
        Some(TrapCode::Out) => {
            let ghost o = out@;
            out.push((registers.r0 & 0xFF) as u8);
            assert(out@ =~= o + seq![(registers.r0 & 0xFF) as u8]);
            Ok(Flow::Running)
        },
        Some(TrapCode::Puts) => {
            let start = registers.r0;
            if write_string(start, memory, key, false, out) {
                Ok(Flow::Running)
            } else {
                Err(VmError::UnterminatedString(start))
            }
        },
        Some(TrapCode::In) => match key {
            Some(b) => {
                let ghost o = out@;
                registers.r0 = b as u16;
                out.push(b);
                assert(out@ =~= o + seq![b]);
                Ok(Flow::Running)
            },
            None => {
                assert(out@ =~= out@ + Seq::<u8>::empty());
                Err(VmError::InputExhausted)
            },
        },
        Some(TrapCode::Putsp) => {
            let start = registers.r0;
            if write_string(start, memory, key, true, out) {
                Ok(Flow::Running)
            } else {
                Err(VmError::UnterminatedString(start))
            }
        },
        Some(TrapCode::Halt) => {
            assert(out@ =~= out@ + Seq::<u8>::empty());
            Ok(Flow::Halted)
        },
        None => {
            assert(out@ =~= out@ + Seq::<u8>::empty());
            Err(VmError::UnsupportedTrap(code))
        },
    }
}

} // verus!
