use jemulator::cartridge::Cartridge;
use jemulator::gpu::{ColorPixel, GPU};
use jemulator::interupts::{InteruptState, Interupt};
use jemulator::joypad::{ButtonEvent, ButtonEventWrapper, Joypad, KeyState};
use jemulator::mmu::{Memory, MMU};
use jemulator::timer::Timer;

#[test]
fn timer_overflow_reloads_and_requests_once() {
    let mut rom = vec![0u8; 0x8000];
    rom[0] = 0;
    let mut m = match MMU::new(rom) {
        Ok(m) => m,
        Err(_) => panic!("ROM refused"),
    };
    m.write_8(0xFF40, 0x00);
    m.write_8(0xFF0F, 0x00);
    m.write_8(0xFF06, 0xAB);
    m.write_8(0xFF05, 0xFE);
    m.write_8(0xFF07, 0x05);
    m.tick(16);
    assert_eq!(m.read_8(0xFF05), 0xFF);
    assert_eq!(m.read_8(0xFF0F) & 0x04, 0);
    m.tick(16);
    assert_eq!(m.read_8(0xFF05), 0xAB);
    assert_eq!(m.read_8(0xFF0F) & 0x04, 0x04);
    m.write_8(0xFF0F, 0x00);
    m.tick(8);
    assert_eq!(m.read_8(0xFF0F) & 0x04, 0);
}

#[test]
fn timer_update_returns_request_bit() {
    let mut t = Timer::default();
    t.handle_write(0xFF06, 0xAB);
    t.handle_write(0xFF05, 0xFE);
    t.handle_write(0xFF07, 0x05);
    assert_eq!(t.update_time(32), 0x04);
    assert_eq!(t.handle_read(0xFF05), 0xAB);
}

#[test]
fn timer_4096_hz_ignores_divider_writes() {
    let mut t = Timer::default();
    t.handle_write(0xFF07, 0x04);
    for _ in 0..3 {
        t.update_time(255);
    }
    t.update_time(200);
    assert_eq!(t.handle_read(0xFF05), 0);
    t.handle_write(0xFF04, 0x12);
    assert_eq!(t.handle_read(0xFF04), 0);
    t.update_time(59);
    assert_eq!(t.handle_read(0xFF05), 1);
    t.update_time(255);
    t.update_time(255);
    t.update_time(255);
    t.update_time(4);
    assert_eq!(t.handle_read(0xFF05), 1);
    t.update_time(255);
    assert_eq!(t.handle_read(0xFF05), 2);
}

#[test]
fn divider_rises_every_256() {
    let mut t = Timer::default();
    t.update_time(255);
    assert_eq!(t.handle_read(0xFF04), 0);
    t.update_time(1);
    assert_eq!(t.handle_read(0xFF04), 1);
    t.update_time(0);
    t.handle_write(0xFF07, 0x00);
    t.update_time(200);
    assert_eq!(t.handle_read(0xFF05), 0);
}

#[test]
fn joypad_press_and_release() {
    let mut j = Joypad::default();
    j.handle_write(0xFF00, 0xEF);
    assert_eq!(j.handle_read(0xFF00) & 0x0F, 0b1111);
    j.update_state(ButtonEventWrapper { event: ButtonEvent::Right, new_state: KeyState::Pressed });
    assert_eq!(j.handle_read(0xFF00) & 0x0F, 0b1110);
    assert!(j.take_interupt());
    j.update_state(ButtonEventWrapper { event: ButtonEvent::Right, new_state: KeyState::Released });
    assert_eq!(j.handle_read(0xFF00) & 0x0F, 0b1111);
    assert!(!j.take_interupt());
    j.update_state(ButtonEventWrapper { event: ButtonEvent::A, new_state: KeyState::Pressed });
    assert_eq!(j.handle_read(0xFF00) & 0x0F, 0b1111);
    assert!(!j.take_interupt());
    j.handle_write(0xFF00, 0xDF);
    assert_eq!(j.handle_read(0xFF00) & 0x0F, 0b1110);
}

#[test]
fn joypad_edge_reaches_interrupt_request() {
    let mut m = match MMU::new(vec![0u8; 0x8000]) {
        Ok(m) => m,
        Err(_) => panic!("ROM refused"),
    };
    m.write_8(0xFF40, 0x00);
    m.write_8(0xFF00, 0xEF);
    m.joypad.update_state(ButtonEventWrapper { event: ButtonEvent::Right, new_state: KeyState::Pressed });
    assert_eq!(m.read_8(0xFF00) & 0x0F, 0b1110);
    m.tick(4);
    assert_eq!(m.read_8(0xFF0F) & 0x10, 0x10);
    m.write_8(0xFF0F, 0);
    m.tick(4);
    assert_eq!(m.read_8(0xFF0F) & 0x10, 0);
}

#[test]
fn button_kinds() {
    assert!(ButtonEvent::A.is_button());
    assert!(!ButtonEvent::A.is_direction());
    assert!(ButtonEvent::Down.is_direction());
    assert!(ButtonEvent::Nothing.is_none());
}

#[test]
fn interrupt_controller_order() {
    let mut s = InteruptState::default();
    s.handle_write(0xFFFF, 0x1F);
    s.update_interupts(0x18);
    assert_eq!(s.pending(), Interupt::Serial);
    assert_eq!(s.do_interupts(), Interupt::Nothing);
    s.master = true;
    assert_eq!(s.do_interupts(), Interupt::Serial);
    assert_eq!(s.handle_read(0xFF0F), 0x10);
    assert!(!s.master);
    assert_eq!(Interupt::Joypad.vector(), 0x60);
    assert_eq!(Interupt::LCD.vector(), 0x48);
}

#[test]
fn frame_takes_70224_and_wraps_once() {
    let mut g = GPU::default();
    g.handle_write(0xFF40, 0x91);
    let mut wraps = 0;
    let mut vblanks = 0;
    let mut last = g.handle_read(0xFF44);
    let mut t = 0u32;
    while t < 70224 {
        let r = g.update_graphics(4);
        if r & 1 != 0 {
            vblanks += 1;
        }
        let ly = g.handle_read(0xFF44);
        if ly == 0 && last != 0 {
            wraps += 1;
        }
        last = ly;
        t += 4;
    }
    assert_eq!(wraps, 1);
    assert_eq!(vblanks, 1);
    assert_eq!(g.handle_read(0xFF44), 0);
    assert_eq!(g.ticks_on_line, 0);
}

#[test]
fn scanline_renders_background_tile() {
    let mut g = GPU::default();
    for row in 0..8u16 {
        g.handle_write(0x8010 + row * 2, 0xFF);
        g.handle_write(0x8010 + row * 2 + 1, 0x00);
    }
    g.handle_write(0x9800, 0x01);
    g.handle_write(0xFF47, 0xE4);
    g.handle_write(0xFF40, 0x91);
    g.update_graphics(80);
    let shade1 = ColorPixel { r: 0xA0, g: 0xA8, b: 0x40, a: 0xFF };
    let shade0 = ColorPixel { r: 0xD0, g: 0xD0, b: 0x58, a: 0xFF };
    assert_eq!(g.inner_ray[0], shade1);
    assert_eq!(g.inner_ray[7], shade1);
    assert_eq!(g.inner_ray[8], shade0);
}

#[test]
fn lcd_off_resets_line() {
    let mut g = GPU::default();
    g.handle_write(0xFF40, 0x80);
    g.update_graphics(255);
    g.update_graphics(255);
    assert_eq!(g.handle_read(0xFF44), 1);
    g.handle_write(0xFF40, 0x00);
    assert_eq!(g.update_graphics(4), 0);
    assert_eq!(g.handle_read(0xFF44), 0);
    assert_eq!(g.ticks_on_line, 0);
}

#[test]
fn cartridge_banking() {
    let mut rom = vec![0u8; 0x10000];
    rom[0x147] = 0x01;
    for bank in 1..4usize {
        rom[bank * 0x4000] = bank as u8;
    }
    let mut c = Cartridge::default();
    assert!(c.load_rom(rom).is_ok());
    assert_eq!(c.handle_read(0x4000), 1);
    c.handle_write(0x2000, 3);
    assert_eq!(c.handle_read(0x4000), 3);
    c.handle_write(0x2000, 0);
    assert_eq!(c.handle_read(0x4000), 1);
    assert_eq!(c.handle_read(0xA000), 0xFF);
    c.handle_write(0x0000, 0x0A);
    c.handle_write(0xA005, 0x77);
    assert_eq!(c.handle_read(0xA005), 0x77);
}

#[test]
fn mbc2_ram_nibbles() {
    let mut rom = vec![0u8; 0x8000];
    rom[0x147] = 0x05;
    let mut c = Cartridge::default();
    assert!(c.load_rom(rom).is_ok());
    c.handle_write(0x0000, 0x0A);
    c.handle_write(0xA001, 0xAB);
    assert_eq!(c.handle_read(0xA001), 0xFB);
    assert_eq!(c.handle_read(0xA201), 0xFB);
}

#[test]
fn cartridge_refuses_bad_images() {
    let mut c = Cartridge::default();
    assert!(c.load_rom(Vec::new()).is_err());
    let mut rom = vec![0u8; 0x200];
    rom[0x147] = 0x13;
    assert!(c.load_rom(rom).is_err());
    let small = vec![0x3Cu8; 0x10];
    assert!(c.load_rom(small).is_ok());
    assert_eq!(c.handle_read(0x000F), 0x3C);
    assert_eq!(c.handle_read(0x0010), 0x00);
}

#[test]
fn sprites_drawn_by_x_priority() {
    let mut g = GPU::default();
    for row in 0..8u16 {
        g.handle_write(0x8020 + row * 2, 0xFF);
        g.handle_write(0x8020 + row * 2 + 1, 0xFF);
        g.handle_write(0x8030 + row * 2, 0x0F);
        g.handle_write(0x8030 + row * 2 + 1, 0x00);
    }
    g.handle_write(0xFE00, 16);
    g.handle_write(0xFE01, 8);
    g.handle_write(0xFE02, 2);
    g.handle_write(0xFE03, 0);
    g.handle_write(0xFE04, 16);
    g.handle_write(0xFE05, 4);
    g.handle_write(0xFE06, 3);
    g.handle_write(0xFE07, 0);
    g.handle_write(0xFF48, 0xE4);
    g.handle_write(0xFF40, 0x93);
    g.update_graphics(80);
    let shade0 = ColorPixel { r: 0xD0, g: 0xD0, b: 0x58, a: 0xFF };
    let shade1 = ColorPixel { r: 0xA0, g: 0xA8, b: 0x40, a: 0xFF };
    let shade3 = ColorPixel { r: 0x40, g: 0x50, b: 0x10, a: 0xFF };
    assert_eq!(g.inner_ray[0], shade1);
    assert_eq!(g.inner_ray[3], shade1);
    assert_eq!(g.inner_ray[4], shade3);
    assert_eq!(g.inner_ray[7], shade3);
    assert_eq!(g.inner_ray[8], shade0);
}
