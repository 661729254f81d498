use jemulator::cartridge::RomLoadError;
use jemulator::mmu::{Memory, MMU};

fn blank_rom() -> Vec<u8> {
    vec![0u8; 0x8000]
}

fn bus() -> MMU {
    match MMU::new(blank_rom()) {
        Ok(m) => m,
        Err(_) => panic!("ROM refused"),
    }
}

#[test]
fn echo_region_mirrors_work_ram() {
    let mut m = bus();
    m.write_8(0xC123, 0x42);
    assert_eq!(m.read_8(0xE123), 0x42);
    m.write_8(0xFDFF, 0x99);
    assert_eq!(m.read_8(0xDDFF), 0x99);
    for addr in [0xE000u16, 0xE001, 0xF000, 0xFDFF] {
        assert_eq!(m.read_8(addr), m.read_8(addr - 0x2000));
    }
}

#[test]
fn unusable_region_reads_ff_and_ignores_writes() {
    let mut m = bus();
    m.write_8(0xFEA0, 0x12);
    assert_eq!(m.read_8(0xFEA0), 0xFF);
    assert_eq!(m.read_8(0xFEFF), 0xFF);
}

#[test]
fn dma_copies_a_page_into_oam() {
    let mut m = bus();
    m.write_8(0xFF40, 0x00);
    m.tick(4);
    for i in 0..160u16 {
        m.write_8(0xC100 + i, i as u8);
    }
    m.write_8(0xFF46, 0xC1);
    for i in 0..160u16 {
        assert_eq!(m.read_8(0xFE00 + i), i as u8);
    }
    assert_eq!(m.read_8(0xFF46), 0xC1);
}

#[test]
fn boot_rom_handoff() {
    let mut rom = blank_rom();
    rom[0] = 0x31;
    let mut m = match MMU::new(rom) {
        Ok(m) => m,
        Err(_) => panic!("ROM refused"),
    };
    let mut boot = vec![0u8; 0x100];
    boot[0] = 0xAA;
    m.load_boot_rom(boot);
    assert_eq!(m.read_8(0x0000), 0xAA);
    m.write_8(0xFF50, 0x01);
    assert_eq!(m.read_8(0x0000), 0x31);
    m.write_8(0xFF50, 0x00);
    assert_eq!(m.read_8(0x0000), 0x31);
}

#[test]
fn words_are_little_endian() {
    let mut m = bus();
    m.write_16(0xC000, 0xBEEF);
    assert_eq!(m.read_8(0xC000), 0xEF);
    assert_eq!(m.read_8(0xC001), 0xBE);
    assert_eq!(m.read_16(0xC000), 0xBEEF);
}

#[test]
fn high_ram_and_interrupt_registers() {
    let mut m = bus();
    m.write_8(0xFF80, 0x11);
    m.write_8(0xFFFE, 0x22);
    m.write_8(0xFFFF, 0x1F);
    assert_eq!(m.read_8(0xFF80), 0x11);
    assert_eq!(m.read_8(0xFFFE), 0x22);
    assert_eq!(m.read_8(0xFFFF), 0x1F);
}

#[test]
fn serial_output_is_collected() {
    let mut m = bus();
    m.write_8(0xFF01, b'P');
    m.write_8(0xFF02, 0x81);
    m.write_8(0xFF01, b'!');
    m.write_8(0xFF02, 0x81);
    assert_eq!(m.take_serial_output(), vec![b'P', b'!']);
    assert!(m.take_serial_output().is_empty());
}

#[test]
fn vram_locked_while_drawing() {
    let mut m = bus();
    m.write_8(0x8000, 0x5A);
    assert_eq!(m.read_8(0x8000), 0x5A);
    m.tick(80);
    assert_eq!(m.read_8(0xFF41) & 3, 3);
    assert_eq!(m.read_8(0x8000), 0xFF);
    m.write_8(0x8000, 0x00);
    m.tick(200);
    assert_eq!(m.read_8(0xFF41) & 3, 0);
    assert_eq!(m.read_8(0x8000), 0x5A);
}

#[test]
fn post_boot_io_registers() {
    let m = bus();
    assert_eq!(m.read_8(0xFF40), 0x91);
    assert_eq!(m.read_8(0xFF47), 0xFC);
    assert_eq!(m.read_8(0xFF48), 0xFF);
    assert_eq!(m.read_8(0xFF24), 0x77);
    assert_eq!(m.read_8(0xFF26), 0xF1);
    assert_eq!(m.read_8(0xFF13), 0xFF);
    assert_eq!(m.read_8(0xFFFF), 0x00);
}

#[test]
fn load_errors() {
    assert!(matches!(MMU::new(Vec::new()), Err(RomLoadError::Empty)));
    let mut rom = blank_rom();
    rom[0x147] = 0x04;
    assert!(matches!(MMU::new(rom), Err(RomLoadError::UnsupportedMbc(0x04))));
    let mut rom = blank_rom();
    rom[0x147] = 0x01;
    assert!(MMU::new(rom).is_ok());
}

#[test]
fn memory_trait_on_devices() {
    let m = bus();
    assert_eq!(m.timer.handle_read(0xFF05), 0);
    assert_eq!(m.joypad.handle_read(0xFF00), 0xFF);
}
