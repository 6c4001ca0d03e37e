use i8080::alu::StatusFlag;
use i8080::decoder::{IoRequest, RunStop};
use i8080::processor::{I8080Console, I8080RegisterCode};
use i8080::processor::I8080RegisterCode::{Acc, B, C};
use i8080::processor::I8080RegisterCode16::{BC, HL, PC, SP};

fn console_with(program: &[u8]) -> I8080Console {
    let mut c = I8080Console::new();
    c.flash(program);
    c
}

fn flags_of(c: &I8080Console) -> i8080::alu::StatusFlagSet {
    I8080Console::flag_collect(c.code_reg_as_u8(I8080RegisterCode::Flag))
}

#[test]
fn lxi_mov_sta_program() {
    // LXI B, 0x1234; MOV A, B; STA 0x0010; HLT
    let mut c = console_with(&[0x01, 0x12, 0x34, 0x78, 0x32, 0x10, 0x00, 0x76]);
    assert_eq!(c.run(100), RunStop::Halted);
    assert_eq!(c.code_reg16_as_u16(BC), 0x1234);
    assert_eq!(c.memory_at(0x0010), 0x12);
}

#[test]
fn mvi_adi_program() {
    // MVI A, 0x3C; ADI 0xC4; HLT
    let mut c = console_with(&[0x3E, 0x3C, 0xC6, 0xC4, 0x76]);
    assert_eq!(c.run(100), RunStop::Halted);
    assert_eq!(c.code_reg_as_u8(I8080RegisterCode::Acc), 0);
    let f = flags_of(&c);
    assert!(f.contains(StatusFlag::Carry));
    assert!(f.contains(StatusFlag::Zero));
    assert!(f.contains(StatusFlag::Parity));
    assert!(f.contains(StatusFlag::AuxiliaryCarry));
    assert!(!f.contains(StatusFlag::Sign));
}

#[test]
fn call_then_ret() {
    // LXI SP, 0x4000; CALL 0x0100; HLT ... 0x0100: RET
    let mut program = vec![0u8; 0x101];
    program[..7].copy_from_slice(&[0x31, 0x40, 0x00, 0xCD, 0x00, 0x01, 0x76]);
    program[0x100] = 0xC9;
    let mut c = console_with(&program);
    assert_eq!(c.execute(), IoRequest::Nothing);
    let sp = c.code_reg16_as_u16(SP);
    assert_eq!(sp, 0x4000);
    assert_eq!(c.execute(), IoRequest::Nothing);
    assert_eq!(c.code_reg16_as_u16(PC), 0x0100);
    assert_eq!(c.code_reg16_as_u16(SP), 0x3FFE);
    assert_eq!(c.memory_at(0x3FFF), 0x00);
    assert_eq!(c.memory_at(0x3FFE), 0x06);
    assert_eq!(c.execute(), IoRequest::Nothing);
    assert_eq!(c.code_reg16_as_u16(PC), 0x0006);
    assert_eq!(c.code_reg16_as_u16(SP), sp);
    assert_eq!(c.run(10), RunStop::Halted);
}

#[test]
fn conditional_jump() {
    // XRA A (sets Zero); JZ 0x0010
    let mut c = console_with(&[0xAF, 0xCA, 0x10, 0x00]);
    c.execute();
    c.execute();
    assert_eq!(c.code_reg16_as_u16(PC), 0x0010);
    // ORI 1 (clears Zero); JZ 0x0010 falls through
    let mut c = console_with(&[0xF6, 0x01, 0xCA, 0x10, 0x00]);
    c.execute();
    c.execute();
    assert_eq!(c.code_reg16_as_u16(PC), 0x0005);
}

#[test]
fn restart_vectors() {
    // LXI SP, 0x1000; RST 5
    let mut c = console_with(&[0x31, 0x10, 0x00, 0xEF]);
    c.execute();
    c.execute();
    assert_eq!(c.code_reg16_as_u16(PC), 0x0028);
    assert_eq!(c.code_reg16_as_u16(SP), 0x0FFE);
    assert_eq!(c.memory_at(0x0FFE), 0x04);
    assert_eq!(c.memory_at(0x0FFF), 0x00);
}

#[test]
fn push_pop_psw_keeps_flag_layout() {
    // LXI SP, 0x2000; MVI A, 0x80; ORA A; PUSH PSW; POP B
    let mut c = console_with(&[0x31, 0x20, 0x00, 0x3E, 0x80, 0xB7, 0xF5, 0xC1]);
    for _ in 0..5 {
        c.execute();
    }
    assert_eq!(c.code_reg_as_u8(B), 0x80);
    assert_eq!(c.code_reg_as_u8(C), 0x82);
    assert_eq!(c.code_reg16_as_u16(SP), 0x2000);
}

#[test]
fn dad_sets_carry_only() {
    // LXI H, 0xFFFF; LXI B, 0x0002; DAD B
    let mut c = console_with(&[0x21, 0xFF, 0xFF, 0x01, 0x00, 0x02, 0x09]);
    for _ in 0..3 {
        c.execute();
    }
    assert_eq!(c.code_reg16_as_u16(HL), 0x0001);
    assert_eq!(c.code_reg_as_u8(I8080RegisterCode::Flag), 0x01);
}

#[test]
fn io_requests() {
    // MVI A, 0x41; OUT 1; IN 2; HLT
    let mut c = console_with(&[0x3E, 0x41, 0xD3, 0x01, 0xDB, 0x02, 0x76]);
    assert_eq!(c.run(100), RunStop::Output(0x41));
    assert_eq!(c.run(100), RunStop::Input);
    c.input(0x5A);
    assert_eq!(c.code_reg_as_u8(Acc), 0x5A);
    assert_eq!(c.run(100), RunStop::Halted);
    assert!(c.is_halted());
}

#[test]
fn step_limit() {
    // JMP 0x0000
    let mut c = console_with(&[0xC3, 0x00, 0x00]);
    assert_eq!(c.run(5), RunStop::StepLimit);
    assert!(!c.is_halted());
}

#[test]
fn daa_instruction() {
    // MVI A, 0x38; ADI 0x45; DAA; HLT
    let mut c = console_with(&[0x3E, 0x38, 0xC6, 0x45, 0x27, 0x76]);
    assert_eq!(c.run(100), RunStop::Halted);
    assert_eq!(c.code_reg_as_u8(Acc), 0x83);
}

#[test]
fn stc_cmc() {
    // STC; CMC; STC
    let mut c = console_with(&[0x37, 0x3F, 0x37]);
    c.execute();
    assert!(flags_of(&c).contains(StatusFlag::Carry));
    c.execute();
    assert!(!flags_of(&c).contains(StatusFlag::Carry));
    c.execute();
    assert!(flags_of(&c).contains(StatusFlag::Carry));
}

#[test]
fn shld_lhld() {
    // LXI H, 0x1234; SHLD 0x0100; LXI H, 0; LHLD 0x0100
    let mut c = console_with(&[0x21, 0x12, 0x34, 0x22, 0x00, 0x01, 0x21, 0, 0, 0x2A, 0x00, 0x01]);
    for _ in 0..4 {
        c.execute();
    }
    assert_eq!(c.memory_at(0x0100), 0x34);
    assert_eq!(c.memory_at(0x0101), 0x12);
    assert_eq!(c.code_reg16_as_u16(HL), 0x1234);
}
