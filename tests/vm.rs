use lc3::machine::Machine;
use lc3::memory::{Memory, MemoryMappedRegisters, KBDR, KBSR};
use lc3::ops;
use lc3::registers::{Flag, Registers};
use lc3::trap::{trap, Flow, TrapCode, VmError};
use lc3::word::sign_extend;
use lc3::{get_op_code, load_image, ImageError, InputDemand, OpCode};

fn regs() -> Registers {
    let mut r = Registers::new();
    r.cond = Flag::Zero.bits();
    r.pc = 0x3001;
    r
}

#[test]
fn sign_extend_negative_fields() {
    assert_eq!(sign_extend(0x1F, 5), 0xFFFF);
    assert_eq!(sign_extend(0x10, 5), 0xFFF0);
    assert_eq!(sign_extend(0x100, 9), 0xFF00);
    assert_eq!(sign_extend(0x20, 6), 0xFFE0);
    assert_eq!(sign_extend(0x7FF, 11), 0xFFFF);
    assert_eq!(sign_extend(0x1, 1), 0xFFFF);
}

#[test]
fn sign_extend_positive_fields_unchanged() {
    assert_eq!(sign_extend(0x0F, 5), 0x0F);
    assert_eq!(sign_extend(0xFF, 9), 0xFF);
    assert_eq!(sign_extend(0x3FF, 11), 0x3FF);
    assert_eq!(sign_extend(0, 1), 0);
}

#[test]
fn sign_extend_full_width_is_identity() {
    for v in [0u16, 1, 0x7FFF, 0x8000, 0xFFFF, 0x1234] {
        assert_eq!(sign_extend(v, 16), v);
    }
}

#[test]
fn flags_follow_destination_value() {
    let mut r = regs();
    r.r3 = 0;
    r.update_flag(3);
    assert_eq!(r.cond, 2);
    r.r3 = 0x8001;
    r.update_flag(3);
    assert_eq!(r.cond, 4);
    r.r3 = 0x7FFF;
    r.update_flag(3);
    assert_eq!(r.cond, 1);
    assert_eq!(Flag::Pos.bits(), 1);
    assert_eq!(Flag::Zero.bits(), 2);
    assert_eq!(Flag::Neg.bits(), 4);
}

#[test]
fn register_indices_cover_all_ten() {
    let mut r = Registers::new();
    for i in 0u16..10 {
        r.update_register(i, 100 + i);
    }
    for i in 0u16..10 {
        assert_eq!(r.get_reg_value(i), 100 + i);
    }
    assert_eq!(r.pc, 108);
    assert_eq!(r.cond, 109);
    assert_eq!(r.r7, 107);
}

#[test]
fn add_immediate_mode() {
    let mut r = regs();
    r.r1 = 5;
    // ADD R0, R1, #-1
    ops::add(0x107F, &mut r);
    assert_eq!(r.r0, 4);
    assert_eq!(r.cond, Flag::Pos.bits());
}

#[test]
fn add_register_mode() {
    let mut r = regs();
    r.r1 = 3;
    r.r2 = 5;
    // ADD R0, R1, R2
    ops::add(0x1042, &mut r);
    assert_eq!(r.r0, 8);
    assert_eq!(r.cond, Flag::Pos.bits());
}

#[test]
fn add_wraps_and_sets_flags() {
    let mut r = regs();
    r.r1 = 0xFFFF;
    ops::add(0x1061, &mut r); // ADD R0, R1, #1
    assert_eq!(r.r0, 0);
    assert_eq!(r.cond, Flag::Zero.bits());
    r.r1 = 0x7FFF;
    ops::add(0x1061, &mut r);
    assert_eq!(r.r0, 0x8000);
    assert_eq!(r.cond, Flag::Neg.bits());
}

#[test]
fn and_both_modes() {
    let mut r = regs();
    r.r1 = 0x0F0F;
    r.r2 = 0x00FF;
    ops::and(0x5042, &mut r); // AND R0, R1, R2
    assert_eq!(r.r0, 0x000F);
    assert_eq!(r.cond, Flag::Pos.bits());
    ops::and(0x5060, &mut r); // AND R0, R1, #0
    assert_eq!(r.r0, 0);
    assert_eq!(r.cond, Flag::Zero.bits());
    ops::and(0x507F, &mut r); // AND R0, R1, #-1
    assert_eq!(r.r0, 0x0F0F);
}

#[test]
fn not_sets_flags_from_destination() {
    let mut r = regs();
    r.r1 = 0x00FF;
    // NOT R1, R1
    ops::not(0x927F, &mut r);
    assert_eq!(r.r1, 0xFF00);
    assert_eq!(r.cond, Flag::Neg.bits());
}

#[test]
fn not_into_other_register_keeps_source() {
    let mut r = regs();
    r.r1 = 0xFFFF;
    // NOT R2, R1
    ops::not(0x947F, &mut r);
    assert_eq!(r.r2, 0);
    assert_eq!(r.r1, 0xFFFF);
    assert_eq!(r.cond, Flag::Zero.bits());
}

#[test]
fn load_indirect_reads_twice() {
    let mut r = regs();
    let mut m = Memory::new();
    // LDI R2, #2 with PC = 0x3001
    m.write(0x3003, 0x4000);
    m.write(0x4000, 0x1234);
    ops::ldi(0xA402, &mut r, &mut m, None);
    assert_eq!(r.r2, 0x1234);
    assert_eq!(r.cond, Flag::Pos.bits());
}

#[test]
fn branch_taken_on_matching_flag() {
    let mut r = regs();
    r.cond = Flag::Neg.bits();
    ops::br(0x0805, &mut r); // BRn #5
    assert_eq!(r.pc, 0x3006);
    ops::br(0x09FE, &mut r); // BRn #-2
    assert_eq!(r.pc, 0x3004);
}

#[test]
fn branch_not_taken_without_matching_flag() {
    let mut r = regs();
    r.cond = Flag::Neg.bits();
    ops::br(0x0605, &mut r); // BRzp #5
    assert_eq!(r.pc, 0x3001);
}

#[test]
fn branch_through_step_only_advances_past_fetch() {
    let mut vm = Machine::new();
    vm.registers.cond = Flag::Neg.bits();
    vm.memory.write(0x3000, 0x0605);
    let mut out = Vec::new();
    assert_eq!(vm.step(None, &mut out), Ok(Flow::Running));
    assert_eq!(vm.registers.pc, 0x3001);
    vm.registers.pc = 0x3000;
    vm.memory.write(0x3000, 0x0805);
    assert_eq!(vm.step(None, &mut out), Ok(Flow::Running));
    assert_eq!(vm.registers.pc, 0x3006);
}

#[test]
fn branch_offset_wraps() {
    let mut r = regs();
    r.pc = 0xFFFF;
    r.cond = Flag::Pos.bits();
    ops::br(0x0202, &mut r); // BRp #2
    assert_eq!(r.pc, 0x0001);
}

#[test]
fn jump_and_subroutine() {
    let mut r = regs();
    r.r3 = 0x4000;
    ops::jmp(0xC0C0, &mut r); // JMP R3
    assert_eq!(r.pc, 0x4000);
    ops::jsr(0x4810, &mut r); // JSR #16
    assert_eq!(r.r7, 0x4000);
    assert_eq!(r.pc, 0x4010);
    r.r2 = 0x5000;
    ops::jsr(0x4080, &mut r); // JSRR R2
    assert_eq!(r.r7, 0x4010);
    assert_eq!(r.pc, 0x5000);
    ops::jsr(0x4FFF, &mut r); // JSR #-1
    assert_eq!(r.r7, 0x5000);
    assert_eq!(r.pc, 0x4FFF);
}

#[test]
fn load_family() {
    let mut r = regs();
    let mut m = Memory::new();
    m.write(0x3000, 0x8888);
    ops::load(0x21FF, &mut r, &mut m, None); // LD R0, #-1
    assert_eq!(r.r0, 0x8888);
    assert_eq!(r.cond, Flag::Neg.bits());
    r.r4 = 0x4000;
    m.write(0x3FFE, 7);
    ops::load_r(0x633E, &mut r, &mut m, None); // LDR R1, R4, #-2
    assert_eq!(r.r1, 7);
    assert_eq!(r.cond, Flag::Pos.bits());
    ops::load_e(0xE602, &mut r); // LEA R3, #2
    assert_eq!(r.r3, 0x3003);
    assert_eq!(r.cond, Flag::Pos.bits());
}

#[test]
fn store_family() {
    let mut r = regs();
    let mut m = Memory::new();
    r.r5 = 0xBEEF;
    ops::store(0x3A03, &mut r, &mut m); // ST R5, #3
    assert_eq!(m.peek(0x3004), 0xBEEF);
    r.r6 = 0x5000;
    ops::store_r(0x7BBF, &mut r, &mut m); // STR R5, R6, #-1
    assert_eq!(m.peek(0x4FFF), 0xBEEF);
    m.write(0x3000, 0x6000);
    ops::store_i(0xBBFF, &mut r, &mut m, None); // STI R5, #-1
    assert_eq!(m.peek(0x6000), 0xBEEF);
}

#[test]
fn opcode_decoding() {
    assert_eq!(get_op_code(0x0000), OpCode::Br);
    assert_eq!(get_op_code(0x1FFF), OpCode::Add);
    assert_eq!(get_op_code(0x8000), OpCode::Rti);
    assert_eq!(get_op_code(0xD000), OpCode::Res);
    assert_eq!(get_op_code(0xE123), OpCode::Lea);
    assert_eq!(get_op_code(0xF025), OpCode::Trap);
}

#[test]
fn keyboard_poll_on_status_read() {
    let mut m = Memory::new();
    assert_eq!(m.read(KBSR, Some(b'a')), 0x8000);
    assert_eq!(m.peek(KBDR), 0x61);
    assert_eq!(m.read(KBDR, None), 0x61);
    assert_eq!(m.read(KBSR, Some(0)), 0);
    assert_eq!(m.read(KBSR, None), 0);
    assert_eq!(MemoryMappedRegisters::Kbsr.address(), 0xFE00);
    assert_eq!(MemoryMappedRegisters::Kbdr.address(), 0xFE02);
}

#[test]
fn trap_codes_round_trip() {
    for t in [TrapCode::Getc, TrapCode::Out, TrapCode::Puts, TrapCode::In, TrapCode::Putsp, TrapCode::Halt] {
        assert_eq!(TrapCode::from_code(t.code()), Some(t));
    }
    assert_eq!(TrapCode::Halt.code(), 0x25);
    assert_eq!(TrapCode::from_code(0x26), None);
}

#[test]
fn trap_out_writes_low_byte() {
    let mut r = regs();
    let mut m = Memory::new();
    let mut out = Vec::new();
    r.r0 = 0x1241;
    assert_eq!(trap(0xF021, &mut r, &mut m, None, &mut out), Ok(Flow::Running));
    assert_eq!(out, vec![0x41]);
}

#[test]
fn trap_puts_and_putsp() {
    let mut r = regs();
    let mut m = Memory::new();
    let mut out = Vec::new();
    m.write(0x4000, b'h' as u16);
    m.write(0x4001, b'i' as u16);
    r.r0 = 0x4000;
    assert_eq!(trap(0xF022, &mut r, &mut m, None, &mut out), Ok(Flow::Running));
    assert_eq!(out, b"hi".to_vec());
    out.clear();
    m.write(0x5000, 0x6568); // "he"
    m.write(0x5001, 0x006C); // "l"
    m.write(0x5002, 0x6F6C); // "lo"
    r.r0 = 0x5000;
    assert_eq!(trap(0xF024, &mut r, &mut m, None, &mut out), Ok(Flow::Running));
    assert_eq!(out, b"hello".to_vec());
}

#[test]
fn trap_getc_and_in() {
    let mut r = regs();
    let mut m = Memory::new();
    let mut out = Vec::new();
    assert_eq!(trap(0xF020, &mut r, &mut m, Some(b'x'), &mut out), Ok(Flow::Running));
    assert_eq!(r.r0, 0x78);
    assert!(out.is_empty());
    assert_eq!(trap(0xF023, &mut r, &mut m, Some(b'y'), &mut out), Ok(Flow::Running));
    assert_eq!(r.r0, 0x79);
    assert_eq!(out, vec![b'y']);
}

#[test]
fn trap_errors() {
    let mut r = regs();
    let mut m = Memory::new();
    let mut out = Vec::new();
    assert_eq!(trap(0xF020, &mut r, &mut m, None, &mut out), Err(VmError::InputExhausted));
    assert_eq!(trap(0xF023, &mut r, &mut m, None, &mut out), Err(VmError::InputExhausted));
    assert_eq!(trap(0xF0FF, &mut r, &mut m, None, &mut out), Err(VmError::UnsupportedTrap(0xFF)));
    assert_eq!(trap(0xF025, &mut r, &mut m, None, &mut out), Ok(Flow::Halted));
}

#[test]
fn unterminated_string_is_a_fault() {
    let mut r = regs();
    let mut m = Memory::new();
    for a in 0..=0xFFFFu16 {
        if a != KBSR {
            m.write(a, 0x41);
        }
    }
    r.r0 = 0x0100;
    let mut out = Vec::new();
    // the sweep polls KBSR once; a key keeps the status word nonzero
    assert_eq!(trap(0xF022, &mut r, &mut m, Some(b'k'), &mut out), Err(VmError::UnterminatedString(0x0100)));
    assert_eq!(out.len(), 0x1_0000);
}

#[test]
fn unsupported_opcodes_are_faults() {
    let mut vm = Machine::new();
    vm.memory.write(0x3000, 0x8000);
    vm.memory.write(0x3001, 0xD000);
    let mut out = Vec::new();
    assert_eq!(vm.step(None, &mut out), Err(VmError::UnsupportedOpcode(0x8000)));
    assert_eq!(vm.step(None, &mut out), Err(VmError::UnsupportedOpcode(0xD000)));
}

#[test]
fn image_loading_sets_origin() {
    let mut vm = Machine::new();
    assert_eq!(vm.load_program(&vec![0x30, 0x00, 0x10, 0x01]), Ok(()));
    assert_eq!(vm.memory.peek(0x3000), 0x1001);
    assert_eq!(vm.registers.pc, 0x3000);
}

#[test]
fn image_loading_other_origin_and_wrap() {
    let mut m = Memory::new();
    assert_eq!(load_image(&vec![0xFF, 0xFF, 0x00, 0x01, 0x00, 0x02], &mut m), Ok(0xFFFF));
    assert_eq!(m.peek(0xFFFF), 1);
    assert_eq!(m.peek(0x0000), 2);
    assert_eq!(load_image(&vec![0x40, 0x00], &mut m), Ok(0x4000));
    assert_eq!(m.peek(0x4000), 0);
}

#[test]
fn image_errors() {
    let mut m = Memory::new();
    assert_eq!(load_image(&vec![], &mut m), Err(ImageError::MissingOrigin));
    assert_eq!(load_image(&vec![0x30], &mut m), Err(ImageError::MissingOrigin));
    assert_eq!(load_image(&vec![0x30, 0x00, 0x10], &mut m), Err(ImageError::Truncated));
    assert_eq!(m.peek(0x3000), 0);
}

#[test]
fn halt_at_origin_stops_with_registers_kept() {
    let mut vm = Machine::new();
    assert_eq!(vm.load_program(&vec![0x30, 0x00, 0xF0, 0x25]), Ok(()));
    let before = vm.registers;
    let mut out = Vec::new();
    assert_eq!(vm.input_demand(), InputDemand::Idle);
    assert_eq!(vm.step(None, &mut out), Ok(Flow::Halted));
    assert!(out.is_empty());
    let mut expected = before;
    expected.pc = 0x3001;
    assert_eq!(vm.registers, expected);
}

#[test]
fn small_program_prints_and_halts() {
    // LEA R0, #2 ; PUTS ; HALT ; "ok"
    let image = vec![0x30, 0x00, 0xE0, 0x02, 0xF0, 0x22, 0xF0, 0x25, 0x00, 0x6F, 0x00, 0x6B, 0x00, 0x00];
    let mut vm = Machine::new();
    assert_eq!(vm.load_program(&image), Ok(()));
    let mut out = Vec::new();
    let mut steps = 0;
    loop {
        assert_eq!(vm.input_demand(), InputDemand::Idle);
        match vm.step(None, &mut out) {
            Ok(Flow::Running) => steps += 1,
            Ok(Flow::Halted) => break,
            Err(e) => panic!("fault {:?}", e),
        }
    }
    assert_eq!(steps, 2);
    assert_eq!(out, b"ok".to_vec());
}

#[test]
fn input_demand_reports_reads() {
    let mut vm = Machine::new();
    vm.memory.write(0x3000, 0xF020); // GETC
    assert_eq!(vm.input_demand(), InputDemand::Byte);
    vm.memory.write(0x3000, 0xF023); // IN
    assert_eq!(vm.input_demand(), InputDemand::PromptedByte);
    // LDI R0 through a pointer to KBSR
    vm.memory.write(0x3000, 0xA001);
    vm.memory.write(0x3002, KBSR);
    assert_eq!(vm.input_demand(), InputDemand::Byte);
    vm.memory.write(0x3002, 0x4000);
    assert_eq!(vm.input_demand(), InputDemand::Idle);
    vm.registers.pc = KBSR;
    assert_eq!(vm.input_demand(), InputDemand::Byte);
}

#[test]
fn keyboard_status_loop_reads_key() {
    // LDI R1, #1 where the pointer holds KBSR
    let mut vm = Machine::new();
    vm.memory.write(0x3000, 0xA201);
    vm.memory.write(0x3002, KBSR);
    let mut out = Vec::new();
    assert_eq!(vm.step(Some(b'q'), &mut out), Ok(Flow::Running));
    assert_eq!(vm.registers.r1, 0x8000);
    assert_eq!(vm.registers.cond, Flag::Neg.bits());
    assert_eq!(vm.memory.peek(KBDR), b'q' as u16);
}

#[test]
fn idle_step_same_for_any_key() {
    let mut a = Machine::new();
    let mut b = Machine::new();
    for vm in [&mut a, &mut b] {
        vm.memory.write(0x3000, 0x2001); // LD R0, #1
        vm.memory.write(0x3002, 0x0042);
    }
    assert_eq!(a.input_demand(), InputDemand::Idle);
    let mut out_a = Vec::new();
    let mut out_b = Vec::new();
    assert_eq!(a.step(None, &mut out_a), b.step(Some(b'z'), &mut out_b));
    assert_eq!(a.registers, b.registers);
    assert_eq!(a.registers.r0, 0x42);
    assert_eq!(a.memory.peek(KBSR), b.memory.peek(KBSR));
    assert_eq!(out_a, out_b);
}
