use jemulator::alu::{alu_add, alu_daa, alu_sub, alu_add_sp, alu_cb_shift, Shift};
use jemulator::dissasembler::{decode_prefixed, decode_unprefixed, Condition, Dissasembler, Instruction, Register, RegisterData, Take};
use jemulator::register::Registers;
use jemulator::util::{le_combine, BitOperations};

#[test]
fn tables_are_complete() {
    let d = Dissasembler::new();
    assert_eq!(d.unprefixed.len(), 256);
    assert_eq!(d.prefixed.len(), 256);
    for i in 0..256usize {
        assert_eq!(d.unprefixed[i].code as usize, i);
        assert_eq!(d.prefixed[i].code as usize, i);
        assert!(matches!(d.prefixed[i].extra_data, Take::Nothing));
        assert!(d.unprefixed[i].cycles >= 4);
    }
}

#[test]
fn decoder_entries() {
    assert!(matches!(decode_unprefixed(0x00).instruction, Instruction::NOP));
    let jr = decode_unprefixed(0x20);
    assert!(matches!(jr.instruction, Instruction::JR(Condition::NZ, _)));
    assert_eq!(jr.cycles, 8);
    assert_eq!(jr.branch_cycles, 12);
    assert!(matches!(jr.extra_data, Take::Eight));
    assert!(matches!(decode_unprefixed(0xFF).instruction, Instruction::RST(0x38)));
    assert!(matches!(decode_unprefixed(0x01).extra_data, Take::Sixteen));
    assert!(matches!(decode_unprefixed(0xCB).instruction, Instruction::PREFIX));
    assert!(matches!(decode_unprefixed(0xDD).instruction, Instruction::INVALID));
    let bit = decode_prefixed(0x46);
    assert!(matches!(bit.instruction, Instruction::BIT(0, RegisterData { register: Register::HL, pointer: true })));
    assert_eq!(bit.cycles, 12);
    assert_eq!(decode_prefixed(0x06).cycles, 16);
    assert!(matches!(decode_unprefixed(0x76).instruction, Instruction::HALT));
    assert!(matches!(decode_unprefixed(0x41).instruction, Instruction::LD(RegisterData { register: Register::B, pointer: false }, RegisterData { register: Register::C, pointer: false })));
}

#[test]
fn immediate_insertion_keeps_pointer_slot() {
    let mut i = decode_unprefixed(0xE0).instruction;
    let filled = i.insert_r1(RegisterData::from_reg(Register::Const8(0x44)));
    assert!(matches!(filled, Instruction::LDH(RegisterData { register: Register::Const8(0x44), pointer: true }, _)));
    let mut j = decode_unprefixed(0xC3).instruction;
    let filled = j.insert_r2(RegisterData::from_reg(Register::Const16(0x1234)));
    assert!(matches!(filled, Instruction::JP(Condition::Always, RegisterData { register: Register::Const16(0x1234), pointer: false })));
    assert!(Register::SP.is_16());
    assert!(!Register::A.is_16());
    assert!(matches!(RegisterData::empty().register, Register::Nothing));
}

#[test]
fn alu_exact_values() {
    assert_eq!(alu_add(0x3A, 0xC6, false), (0x00, 0xB0));
    assert_eq!(alu_add(0x0F, 0x00, true), (0x10, 0x20));
    assert_eq!(alu_sub(0x3E, 0x3E, false), (0x00, 0xC0));
    assert_eq!(alu_sub(0x3E, 0x40, false), (0xFE, 0x50));
    assert_eq!(alu_sub(0x10, 0x0F, true), (0x00, 0xE0));
    assert_eq!(alu_daa(0x70, 0x20), (0x76, 0x00));
    assert_eq!(alu_daa(0x9A, 0x00), (0x00, 0x90));
    assert_eq!(alu_add_sp(0xFFF8, 0x02), (0xFFFA, 0x00));
    assert_eq!(alu_cb_shift(Shift::Sra, 0x81, 0x00), (0xC0, 0x10));
    assert_eq!(alu_cb_shift(Shift::Srl, 0x01, 0x00), (0x00, 0x90));
    assert_eq!(alu_cb_shift(Shift::Rlc, 0x80, 0x00), (0x01, 0x10));
}

#[test]
fn register_pairs_round_trip() {
    let mut r = Registers::default();
    for x in [0x0000u16, 0x1234, 0xFFFF, 0x8001] {
        r.set_bc(x);
        assert_eq!(r.get_bc(), x);
        r.set_de(x);
        assert_eq!(r.get_de(), x);
        r.set_hl(x);
        assert_eq!(r.get_hl(), x);
        r.set_af(x);
        assert_eq!(r.get_af(), x & 0xFFF0);
    }
}

#[test]
fn flag_setters() {
    let mut r = Registers::default();
    r.set_z();
    r.set_c();
    assert_eq!(r.f, 0x90);
    assert!(r.get_z() && r.get_c() && !r.get_n() && !r.get_h());
    r.unset_z();
    r.set_n();
    r.set_h();
    assert_eq!(r.f, 0x70);
    r.unset_n();
    r.unset_h();
    r.unset_c();
    assert_eq!(r.f, 0x00);
}

#[test]
fn byte_helpers() {
    assert_eq!(le_combine(0x34, 0x12), 0x1234);
    assert_eq!(0xBEEFu16.split(), (0xBE, 0xEF));
}
