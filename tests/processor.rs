use i8080::alu::StatusFlagSet;
use i8080::bus::DataBus;
use i8080::instruction::{
    AddressingRegisterInstruction, DataRegisterInstruction, Instruction, MemoryInstruction,
};
use i8080::memory::RamB8A16;
use i8080::processor::{
    I8080Console, I8080RegisterCode, ProcImmediateValue,
    ProcMemory,
};
use i8080::alu::StatusFlag::{AuxiliaryCarry, Carry, Parity, Zero};
use i8080::processor::I8080AluCode::Add;
use i8080::processor::I8080RegisterCode::{Acc, Flag, SpH, B, C, D, E, H, L};
use i8080::processor::I8080RegisterCode16::{BC, DE, HL, PC, SP};

#[test]
fn cpu_test() {
    let mut c = I8080Console::default();
    c.set_data(35);
    c.load_from_data(B);
    c.set_data(0x12);
    c.load_from_data(H);
    c.set_data(0x34);
    c.load_from_data(L);
    c.read_to_data(B);
    c.code_reg16_read_to_address(HL);
    c.store();
    assert_eq!(c.memory_at(0x1234), 35);
}

#[test]
fn processor_test() {
    let mut c = I8080Console::default();
    c.set_data(35);
    c.load_from_data(B);
    c.set_data(0x12);
    c.load_from_data(H);
    c.set_data(0x34);
    c.load_from_data(L);
    c.read_to_data(B);
    c.code_reg16_read_to_address(HL);
    c.store();
    assert_eq!(c.memory_at(0x1234), 35);
}

#[test]
fn i8080test() {
    let mut p = I8080Console::default();
    let p = &mut p;
    p.flash(&[1, 2, 3, 4]);
    MemoryInstruction::Fetch.execute(p);
    DataRegisterInstruction::load(L).execute(p);
    AddressingRegisterInstruction(HL).execute(p);
    MemoryInstruction::Fetch.execute(p);
    DataRegisterInstruction::load(Acc).execute(p);
    println!("{:?}", p.code_reg_mut(Acc));
}

fn cycled_memory() -> RamB8A16 {
    let mut memory = RamB8A16::default();
    memory.flash(&(0..=255u8).cycle().take(65535).collect::<Vec<_>>(), 0);
    memory
}

#[test]
fn movement() {
    let mut c = I8080Console::with_memory(cycled_memory());
    c.move_reg_immediate(B);
    c.move_reg_to_reg(C, B);
    assert_eq!(c.code_reg_as_u8(C), 0);
    c.move_reg_immediate(D);
    c.move_reg_to_reg(E, D);
    assert_eq!(c.code_reg_as_u8(E), 1);
    // load (0x0302) == 2
    c.move_reg_direct(Acc);
    assert_eq!(c.code_reg_as_u8(Acc), 2);
    // loadx (0x0504) == 0x0504
    c.move_reg16_direct(HL);
    assert_eq!(c.code_reg16_as_u16(HL), 0x0504);
}

#[test]
fn processor_alu() {
    let mut c = I8080Console::default();
    *c.code_reg_mut(Acc) = 20;
    *c.code_reg_mut(B) = 30;
    c.alu_with_reg(Add, B);
    assert_eq!(*c.code_reg_mut(Acc), 50);
    *c.code_reg_mut(Acc) = 192;
    *c.code_reg_mut(B) = 64;
    c.alu_with_reg(Add, B);
    assert_eq!(*c.code_reg_mut(Acc), 0);
    assert_eq!(
        I8080Console::flag_collect(*c.code_reg_mut(Flag)),
        StatusFlagSet::empty().with(Carry).with(Parity).with(Zero),
    );
    assert_eq!(*c.code_reg_mut(Flag), 0b0100_0111);
    c.flag_complement(Carry);
    assert_eq!(
        I8080Console::flag_collect(*c.code_reg_mut(Flag)),
        StatusFlagSet::empty().with(Parity).with(Zero),
    );
    c.flag_complement(Carry);
    assert_eq!(
        I8080Console::flag_collect(*c.code_reg_mut(Flag)),
        StatusFlagSet::empty().with(Carry).with(Parity).with(Zero),
    );
    c.flag_set(AuxiliaryCarry);
    assert_eq!(
        I8080Console::flag_collect(*c.code_reg_mut(Flag)),
        StatusFlagSet::empty().with(AuxiliaryCarry).with(Carry).with(Parity).with(Zero),
    );
}

#[test]
fn run() {
    let mut c = I8080Console::with_memory(cycled_memory());
    let stop = c.run(1_000_000);
    println!("{:?}", stop);
    println!("{}", c.code_reg16_as_u16(PC));
}

#[test]
fn scramble_collect_round_trip() {
    for x in 0..=255u8 {
        let b = (x | 2) & !0x28;
        assert_eq!(I8080Console::flag_scramble(I8080Console::flag_collect(b)), b);
    }
    assert_eq!(I8080Console::flag_scramble(StatusFlagSet::empty()), 2);
    assert_eq!(I8080Console::flag_scramble(StatusFlagSet::all()), 0b1101_0111);
}

#[test]
fn exchange_pairs() {
    let mut c = I8080Console::default();
    *c.code_reg_mut(H) = 0x12;
    *c.code_reg_mut(L) = 0x34;
    *c.code_reg_mut(D) = 0xAB;
    *c.code_reg_mut(E) = 0xCD;
    c.exchange16(HL, DE);
    assert_eq!(c.code_reg16_as_u16(HL), 0xABCD);
    assert_eq!(c.code_reg16_as_u16(DE), 0x1234);
}

#[test]
fn push_pop_round_trip() {
    let mut c = I8080Console::default();
    *c.code_reg_mut(B) = 0x12;
    *c.code_reg_mut(C) = 0x34;
    *c.code_reg_mut(SpH) = 0x20;
    c.push_reg16(BC);
    assert_eq!(c.code_reg16_as_u16(SP), 0x1FFE);
    assert_eq!(c.memory_at(0x1FFF), 0x12);
    assert_eq!(c.memory_at(0x1FFE), 0x34);
    c.pop_reg16(DE);
    assert_eq!(c.code_reg16_as_u16(DE), 0x1234);
    assert_eq!(c.code_reg16_as_u16(SP), 0x2000);
}

#[test]
fn flash_wraps_around() {
    let mut memory = RamB8A16::default();
    memory.flash(&[1, 2, 3], 0xFFFF);
    let c = I8080Console::with_memory(memory);
    assert_eq!(c.memory_at(0xFFFF), 1);
    assert_eq!(c.memory_at(0), 2);
    assert_eq!(c.memory_at(1), 3);
}

#[test]
fn register_pairs() {
    assert_eq!(D.pair(), [D, E]);
    assert_eq!(E.pair(), [D, E]);
    assert_eq!(Flag.pair(), [Acc, Flag]);
    assert_eq!(HL.split(), [H, L]);
    assert_eq!(SP.split(), [I8080RegisterCode::SpH, I8080RegisterCode::SpL]);
}

#[test]
fn immediate_value_fetch() {
    let mut c = I8080Console::default();
    c.flash(&[0x11, 0x22]);
    c.fetch_immediate_value();
    assert_eq!(c.get_data(), 0x11);
    c.fetch_immediate_value();
    assert_eq!(c.get_data(), 0x22);
    assert_eq!(c.code_reg16_as_u16(PC), 2);
}
