use jemulator::cpu::Cpu;
use jemulator::dissasembler::{Dissasembler, Register, RegisterData};

fn rom_with(program: &[u8]) -> Vec<u8> {
    let mut rom = vec![0u8; 0x8000];
    for (i, b) in program.iter().enumerate() {
        rom[0x100 + i] = *b;
    }
    rom
}

fn cpu_with(program: &[u8]) -> Cpu {
    match Cpu::from_rom(rom_with(program)) {
        Ok(c) => c,
        Err(_) => panic!("ROM refused"),
    }
}

#[test]
fn post_boot_registers() {
    let c = cpu_with(&[]);
    assert_eq!(c.registers.get_af(), 0x01B0);
    assert_eq!(c.registers.get_bc(), 0x0013);
    assert_eq!(c.registers.get_de(), 0x00D8);
    assert_eq!(c.registers.get_hl(), 0x014D);
    assert_eq!(c.registers.sp, 0xFFFE);
    assert_eq!(c.registers.pc, 0x0100);
}

#[test]
fn xor_a_clears_a_and_sets_only_z() {
    let d = Dissasembler::new();
    let mut c = cpu_with(&[0xAF]);
    c.registers.a = 0x5C;
    c.registers.f = 0x70;
    let t = c.tick(&d);
    assert_eq!(t, 4);
    assert_eq!(c.registers.a, 0);
    assert_eq!(c.registers.f, 0x80);
}

#[test]
fn add_hl_bc_half_carry_keeps_z() {
    let d = Dissasembler::new();
    let mut c = cpu_with(&[0x09, 0x09]);
    c.registers.set_hl(0x0FFF);
    c.registers.set_bc(0x0001);
    c.registers.f = 0x80;
    assert_eq!(c.tick(&d), 8);
    assert_eq!(c.registers.get_hl(), 0x1000);
    assert_eq!(c.registers.f & 0x20, 0x20);
    assert_eq!(c.registers.f & 0x80, 0x80);
    assert_eq!(c.registers.f & 0x40, 0);
    c.registers.f = 0x00;
    c.registers.set_hl(0x0FFF);
    c.tick(&d);
    assert_eq!(c.registers.f & 0x80, 0);
}

#[test]
fn daa_after_add_a_a() {
    let d = Dissasembler::new();
    let mut c = cpu_with(&[0x87, 0x27]);
    c.registers.a = 0x38;
    c.tick(&d);
    assert_eq!(c.registers.a, 0x70);
    c.tick(&d);
    assert_eq!(c.registers.a, 0x76);
    assert_eq!(c.registers.f & 0x80, 0);
    assert_eq!(c.registers.f & 0x20, 0);
    assert_eq!(c.registers.f & 0x10, 0);
}

#[test]
fn ld_hl_sp_plus_offset() {
    let d = Dissasembler::new();
    let mut c = cpu_with(&[0xF8, 0x02]);
    c.registers.sp = 0xFFF8;
    c.registers.f = 0xF0;
    assert_eq!(c.tick(&d), 12);
    assert_eq!(c.registers.get_hl(), 0xFFFA);
    assert_eq!(c.registers.f, 0x00);
    assert_eq!(c.registers.pc, 0x0102);
}

#[test]
fn ld_hl_sp_negative_offset_flags() {
    let d = Dissasembler::new();
    let mut c = cpu_with(&[0xF8, 0xFF]);
    c.registers.sp = 0x0001;
    c.tick(&d);
    assert_eq!(c.registers.get_hl(), 0x0000);
    assert_eq!(c.registers.f, 0x30);
}

#[test]
fn push_pop_round_trip() {
    let d = Dissasembler::new();
    let mut c = cpu_with(&[0xC5, 0x01, 0x00, 0x00, 0xC1, 0xF5, 0xF1]);
    c.registers.sp = 0xDFF0;
    c.registers.set_bc(0x1234);
    assert_eq!(c.tick(&d), 16);
    assert_eq!(c.registers.sp, 0xDFEE);
    assert_eq!(c.mmu.read_8(0xDFEF), 0x12);
    assert_eq!(c.mmu.read_8(0xDFEE), 0x34);
    c.tick(&d);
    assert_eq!(c.registers.get_bc(), 0);
    assert_eq!(c.tick(&d), 12);
    assert_eq!(c.registers.get_bc(), 0x1234);
    assert_eq!(c.registers.sp, 0xDFF0);
    c.registers.set_af(0xABCD);
    c.tick(&d);
    c.registers.a = 0;
    c.tick(&d);
    assert_eq!(c.registers.get_af(), 0xABC0);
    assert_eq!(c.registers.sp, 0xDFF0);
}

#[test]
fn pop_af_clears_low_nibble() {
    let d = Dissasembler::new();
    let mut c = cpu_with(&[0xF1]);
    c.registers.sp = 0xC000;
    c.mmu.write_8(0xC000, 0xFF);
    c.mmu.write_8(0xC001, 0x12);
    c.tick(&d);
    assert_eq!(c.registers.a, 0x12);
    assert_eq!(c.registers.f, 0xF0);
    assert_eq!(c.registers.f & 0x0F, 0);
}

#[test]
fn interrupt_service_highest_priority() {
    let d = Dissasembler::new();
    let mut c = cpu_with(&[0x00]);
    c.mmu.write_8(0xFFFF, 0x05);
    c.mmu.write_8(0xFF0F, 0x05);
    c.mmu.interupt.master = true;
    c.registers.sp = 0xD000;
    assert_eq!(c.tick(&d), 20);
    assert_eq!(c.registers.pc, 0x40);
    assert_eq!(c.mmu.read_8(0xFF0F), 0x04);
    assert!(!c.mmu.interupt.master);
    assert_eq!(c.registers.sp, 0xCFFE);
    assert_eq!(c.mmu.read_16(0xCFFE), 0x0100);
    c.mmu.interupt.master = true;
    assert_eq!(c.tick(&d), 20);
    assert_eq!(c.registers.pc, 0x50);
    assert_eq!(c.mmu.read_8(0xFF0F), 0x00);
}

#[test]
fn interrupt_not_serviced_without_master() {
    let d = Dissasembler::new();
    let mut c = cpu_with(&[0x00]);
    c.mmu.write_8(0xFFFF, 0x01);
    c.mmu.write_8(0xFF0F, 0x01);
    assert_eq!(c.tick(&d), 4);
    assert_eq!(c.registers.pc, 0x0101);
    assert_eq!(c.mmu.read_8(0xFF0F), 0x01);
}

#[test]
fn halt_wakes_without_servicing() {
    let d = Dissasembler::new();
    let mut c = cpu_with(&[0x76, 0x00]);
    c.mmu.write_8(0xFFFF, 0x01);
    c.mmu.write_8(0xFF0F, 0x00);
    c.tick(&d);
    assert!(c.halted);
    assert_eq!(c.registers.pc, 0x0101);
    for _ in 0..3 {
        assert_eq!(c.tick(&d), 4);
        assert!(c.halted);
        assert_eq!(c.registers.pc, 0x0101);
    }
    c.mmu.write_8(0xFF0F, 0x01);
    assert_eq!(c.tick(&d), 4);
    assert!(!c.halted);
    assert_eq!(c.registers.pc, 0x0101);
    assert_eq!(c.mmu.read_8(0xFF0F), 0x01);
    c.tick(&d);
    assert_eq!(c.registers.pc, 0x0102);
}

#[test]
fn ei_takes_effect_after_next_instruction() {
    let d = Dissasembler::new();
    let mut c = cpu_with(&[0xFB, 0x00, 0x00]);
    c.mmu.write_8(0xFFFF, 0x01);
    c.mmu.write_8(0xFF0F, 0x01);
    c.registers.sp = 0xD000;
    c.tick(&d);
    assert!(!c.mmu.interupt.master);
    c.tick(&d);
    assert!(c.mmu.interupt.master);
    assert_eq!(c.registers.pc, 0x0102);
    assert_eq!(c.tick(&d), 20);
    assert_eq!(c.registers.pc, 0x40);
}

#[test]
fn conditional_jump_cycles() {
    let d = Dissasembler::new();
    let mut c = cpu_with(&[0x20, 0x05]);
    c.registers.f = 0x00;
    assert_eq!(c.tick(&d), 12);
    assert_eq!(c.registers.pc, 0x0107);
    let mut c = cpu_with(&[0x20, 0x05]);
    c.registers.f = 0x80;
    assert_eq!(c.tick(&d), 8);
    assert_eq!(c.registers.pc, 0x0102);
    let mut c = cpu_with(&[0x18, 0xFE]);
    assert_eq!(c.tick(&d), 12);
    assert_eq!(c.registers.pc, 0x0100);
}

#[test]
fn call_and_ret() {
    let d = Dissasembler::new();
    let mut c = cpu_with(&[0xCD, 0x00, 0x02]);
    c.registers.sp = 0xD000;
    assert_eq!(c.tick(&d), 24);
    assert_eq!(c.registers.pc, 0x0200);
    assert_eq!(c.mmu.read_16(0xCFFE), 0x0103);
    c.ret(jemulator::dissasembler::Condition::Always);
    assert_eq!(c.registers.pc, 0x0103);
    assert_eq!(c.registers.sp, 0xD000);
}

#[test]
fn rst_pushes_and_jumps() {
    let d = Dissasembler::new();
    let mut c = cpu_with(&[0xFF]);
    c.registers.sp = 0xD000;
    assert_eq!(c.tick(&d), 16);
    assert_eq!(c.registers.pc, 0x38);
    assert_eq!(c.mmu.read_16(0xCFFE), 0x0101);
}

#[test]
fn cb_prefixed_instructions() {
    let d = Dissasembler::new();
    let mut c = cpu_with(&[0xCB, 0x37, 0xCB, 0x7F, 0xCB, 0x87, 0xCB, 0x11]);
    c.registers.a = 0xF1;
    assert_eq!(c.tick(&d), 8);
    assert_eq!(c.registers.a, 0x1F);
    assert_eq!(c.registers.f, 0x00);
    c.tick(&d);
    assert_eq!(c.registers.f & 0x80, 0x80);
    assert_eq!(c.registers.f & 0x20, 0x20);
    c.registers.a = 0x01;
    c.tick(&d);
    assert_eq!(c.registers.a, 0x00);
    c.registers.c = 0x80;
    c.registers.f = 0x10;
    c.tick(&d);
    assert_eq!(c.registers.c, 0x01);
    assert_eq!(c.registers.f, 0x10);
}

#[test]
fn memory_operands_through_hl() {
    let d = Dissasembler::new();
    let mut c = cpu_with(&[0x36, 0x0F, 0x34, 0x22, 0x3A]);
    c.registers.set_hl(0xC010);
    c.tick(&d);
    assert_eq!(c.mmu.read_8(0xC010), 0x0F);
    c.tick(&d);
    assert_eq!(c.mmu.read_8(0xC010), 0x10);
    assert_eq!(c.registers.f & 0x20, 0x20);
    c.registers.a = 0x77;
    c.tick(&d);
    assert_eq!(c.mmu.read_8(0xC010), 0x77);
    assert_eq!(c.registers.get_hl(), 0xC011);
    c.registers.set_hl(0xC010);
    c.registers.a = 0;
    c.tick(&d);
    assert_eq!(c.registers.a, 0x77);
    assert_eq!(c.registers.get_hl(), 0xC00F);
}

#[test]
fn stop_and_undefined_opcode_stop_the_system() {
    let d = Dissasembler::new();
    let mut c = cpu_with(&[0x10]);
    c.tick(&d);
    assert!(c.stopped);
    let mut c = cpu_with(&[0xD3]);
    c.tick(&d);
    assert!(c.stopped);
}

#[test]
fn flag_low_nibble_stays_clear() {
    let d = Dissasembler::new();
    let mut c = cpu_with(&[0x3C, 0x3D, 0x37, 0x3F, 0x2F, 0xC6, 0xFF, 0xD6, 0x01, 0x07, 0x1F]);
    for _ in 0..9 {
        c.tick(&d);
        assert_eq!(c.registers.f & 0x0F, 0);
    }
}

#[test]
fn direct_operand_helpers() {
    let mut c = cpu_with(&[]);
    c.registers.a = 0x10;
    c.registers.b = 0x20;
    c.subtract(RegisterData::from_reg(Register::B));
    assert_eq!(c.registers.a, 0xF0);
    assert_eq!(c.registers.f, 0x50);
    c.compare(RegisterData::from_reg(Register::Const8(0xF0)));
    assert_eq!(c.registers.a, 0xF0);
    assert_eq!(c.registers.f & 0x80, 0x80);
}

#[test]
fn run_frame_runs_a_frame() {
    let d = Dissasembler::new();
    let mut c = cpu_with(&[0x18, 0xFE]);
    let t = c.run_frame(&d);
    assert!(t >= 70224);
    assert!(!c.stopped);
}
