use feo_boy::bus::Bus;
use feo_boy::graphics::palette::{BackgroundPalette, Shade};
use feo_boy::graphics::SpriteSize;
use feo_boy::input::Button;
use feo_boy::memory::BIOS_SIZE;

fn check_read_write(address: u16, value: u8) {
    let mut bus = Bus::default();
    bus.write_byte(address, value);
    assert_eq!(bus.read_byte(address), value, "address {:#06x}", address);
}

#[test]
fn bus_read_write_ram() {
    let mut address: u32 = 0x8000;
    while address <= 0xFFFE {
        let a = address as u16;
        let ram = (0x8000..=0x9FFF).contains(&a)
            || (0xC000..=0xFDFF).contains(&a)
            || (0xFE00..=0xFE9F).contains(&a)
            || (0xFF80..=0xFFFE).contains(&a);
        if ram {
            check_read_write(a, (address % 251) as u8);
        }
        address += 97;
    }
}

#[test]
fn mod_read_write() {
    for address in 0u16..=0xFFFF {
        match address {
            0x0000..=0x7FFF | 0xA000..=0xBFFF | 0xFEA0..=0xFEFF | 0xFF00..=0xFFFF => {}
            address => {
                check_read_write(address, (address % 253) as u8);
                if address % 16 == 0 {
                    check_read_write(address, 0xFF);
                }
            }
        }
    }
}

#[test]
fn bus_echo_ram() {
    let mut bus = Bus::default();
    bus.write_byte(0xC123, 0x5A);
    assert_eq!(bus.read_byte(0xE123), 0x5A);
    bus.write_byte(0xE456, 0xA5);
    assert_eq!(bus.read_byte(0xC456), 0xA5);
}

#[test]
fn bus_words() {
    let mut bus = Bus::default();
    bus.write_word(0xC000, 0xBEEF);
    assert_eq!(bus.read_byte(0xC000), 0xEF);
    assert_eq!(bus.read_byte(0xC001), 0xBE);
    assert_eq!(bus.read_word(0xC000), 0xBEEF);
    assert_eq!(bus.timer.diff().0, 6);
}

#[test]
fn bus_tick_counts_time() {
    let mut bus = Bus::default();
    bus.tick(feo_boy::cpu::MCycles(64));
    assert_eq!(bus.timer.diff().0, 64);
    assert_eq!(bus.timer.reg.divider(), 1);
}

#[test]
fn bus_interrupt_registers() {
    let mut bus = Bus::default();
    bus.write_byte_no_tick(0xFFFF, 0x15);
    assert!(bus.interrupts.vblank.enabled);
    assert!(!bus.interrupts.lcd_status.enabled);
    assert!(bus.interrupts.timer.enabled);
    assert!(bus.interrupts.joypad.enabled);
    assert_eq!(bus.read_byte_no_tick(0xFFFF), 0xF5);

    bus.write_byte_no_tick(0xFF0F, 0x04);
    assert!(bus.interrupts.timer.requested);
    assert_eq!(bus.read_byte_no_tick(0xFF0F), 0xE4);
}

#[test]
fn bus_serial_output() {
    let mut bus = Bus::default();
    bus.serial_out = Some(Vec::new());
    bus.write_byte(0xFF01, b'O');
    bus.write_byte(0xFF02, 0x81);
    bus.write_byte(0xFF01, b'K');
    bus.write_byte(0xFF02, 0x81);
    assert_eq!(bus.serial_out, Some(b"OK".to_vec()));
}

#[test]
fn bus_timer_control_masked() {
    let mut bus = Bus::default();
    bus.write_byte_no_tick(0xFF07, 0xFF);
    assert_eq!(bus.read_byte_no_tick(0xFF07), 0x07);
}

#[test]
fn bus_memory_iterator() {
    let mut bus = Bus::default();
    bus.write_byte_no_tick(0xC000, 0x42);
    let mut iter = bus.iter();
    let mut count: u32 = 0;
    let mut at_c000: u8 = 0;
    while let Some(byte) = iter.next() {
        if count == 0xC000 {
            at_c000 = byte;
        }
        count += 1;
    }
    assert_eq!(count, 0x10000);
    assert_eq!(at_c000, 0x42);
}

#[test]
fn bus_bios() {
    let mut bus = Bus::default();
    assert!(bus.mmu.bios_mapped);

    let mut bios = [0; BIOS_SIZE];
    bios[0] = 1;
    bios[0xff] = 2;
    bus.mmu.load_bios(&bios).unwrap();

    assert_eq!(bus.mmu.read_byte(0x0000), 1);
    assert_eq!(bus.mmu.read_byte(0x00FF), 2);

    bus.write_byte(0xFF50, 1);
    assert!(!bus.mmu.bios_mapped);
}

#[test]
fn mod_bios() {
    let mut bus = Bus::default();
    assert!(bus.mmu.bios_mapped);

    let mut bios = [0; BIOS_SIZE];
    bios[0] = 1;
    bios[0xff] = 2;
    bus.mmu.load_bios(&bios).unwrap();

    assert_eq!(bus.mmu.read_byte(0x0000), 1);
    assert_eq!(bus.mmu.read_byte(0x00FF), 2);

    bus.write_byte(0xFF50, 1);
    assert!(!bus.mmu.bios_mapped);
}

#[test]
fn bus_background_palette_register() {
    let mut bus = Bus::default();
    bus.write_byte(0xFF47, 0b10010011);

    assert_eq!(
        bus.ppu.bg_palette,
        BackgroundPalette::new([Shade::Black, Shade::White, Shade::LightGray, Shade::DarkGray])
    );
}

#[test]
fn mod_background_palette_register() {
    let mut bus = Bus::default();
    bus.write_byte(0xFF47, 0b10010011);

    assert_eq!(
        bus.ppu.bg_palette,
        BackgroundPalette::new([Shade::Black, Shade::White, Shade::LightGray, Shade::DarkGray,])
    );
}

#[test]
fn mod_stat_register() {
    let mut bus = Bus::default();
    bus.ppu.control.display_enabled = true;
    bus.ppu.line = 40;
    bus.ppu.line_compare = 40;
    bus.ppu.lcd_status_interrupts.vblank = true;

    assert_eq!(bus.read_byte(0xFF41), 0b00010110);
}

#[test]
fn bus_window_position() {
    let mut bus = Bus::default();
    bus.write_byte(0xFF4B, 7);
    assert_eq!(bus.ppu.window.x, 0);
}

#[test]
fn mod_window_position() {
    let mut bus = Bus::default();
    bus.write_byte(0xFF4B, 7);
    assert_eq!(bus.ppu.window.x, 0);
}

#[test]
fn bus_dma_transfer() {
    let mut bus = Bus::default();

    for i in 0..0xA0 {
        bus.write_byte(0x8000 + (i as u16), i as u8);
    }

    bus.write_byte(0xFF46, 0x80);

    for i in 0..0xA0 {
        assert_eq!(bus.read_byte(0xFE00 + (i as u16)), i as u8);
    }
}

#[test]
fn mod_dma_transfer() {
    let mut bus = Bus::default();

    for i in 0..0xA0 {
        bus.write_byte(0x8000 + (i as u16), i as u8);
    }

    bus.write_byte(0xFF46, 0x80);

    for i in 0..0xA0 {
        assert_eq!(bus.read_byte(0xFE00 + (i as u16)), i as u8);
    }
}

#[test]
fn bus_button_press() {
    let mut bus = Bus::default();
    assert_eq!(bus.read_byte(0xFF00) & 0x3F, 0x0F);

    bus.button_state.press(Button::Right);
    assert_eq!(bus.read_byte(0xFF00) & 0x3F, 0x0F);

    bus.write_byte(0xFF00, 0x20);
    assert_eq!(bus.read_byte(0xFF00) & 0x3F, 0x2E);

    bus.button_state.release(Button::Right);
    assert_eq!(bus.read_byte(0xFF00) & 0x3F, 0x2F);
}

#[test]
fn mod_button_press() {
    let mut bus = Bus::default();
    assert_eq!(bus.read_byte(0xFF00) & 0x3F, 0x0F);

    bus.button_state.press(Button::Right);
    assert_eq!(bus.read_byte(0xFF00) & 0x3F, 0x0F);

    bus.write_byte(0xFF00, 0x20);
    assert_eq!(bus.read_byte(0xFF00) & 0x3F, 0x2E);

    bus.button_state.release(Button::Right);
    assert_eq!(bus.read_byte(0xFF00) & 0x3F, 0x2F);
}

#[test]
fn bus_multi_press() {
    let mut bus = Bus::default();

    bus.button_state.press(Button::Left);
    bus.button_state.press(Button::B);
    assert_eq!(bus.read_byte(0xFF00) & 0x3F, 0x0F);

    bus.write_byte(0xFF00, 0x30);
    assert_eq!(bus.read_byte(0xFF00) & 0x3F, 0x3D);

    bus.button_state.press(Button::A);
    assert_eq!(bus.read_byte(0xFF00) & 0x3F, 0x3C);
}

#[test]
fn mod_multi_press() {
    let mut bus = Bus::default();

    bus.button_state.press(Button::Left);
    bus.button_state.press(Button::B);
    assert_eq!(bus.read_byte(0xFF00) & 0x3F, 0x0F);

    bus.write_byte(0xFF00, 0x30);
    assert_eq!(bus.read_byte(0xFF00) & 0x3F, 0x3D);

    bus.button_state.press(Button::A);
    assert_eq!(bus.read_byte(0xFF00) & 0x3F, 0x3C);
}

#[test]
fn lcd_control() {
    let mut bus = Bus::default();

    bus.write_byte(0xFF40, 0b0000_0000);
    assert!(!bus.ppu.control.display_enabled);
    bus.write_byte(0xFF40, 0b1000_0000);
    assert!(bus.ppu.control.display_enabled);

    bus.write_byte(0xFF40, 0b0000_0000);
    assert_eq!(u16::from(bus.ppu.control.window_map_start), 0x9800);
    bus.write_byte(0xFF40, 0b0100_0000);
    assert_eq!(u16::from(bus.ppu.control.window_map_start), 0x9C00);

    bus.write_byte(0xFF40, 0b0000_0000);
    assert!(!bus.ppu.control.window_enabled);
    bus.write_byte(0xFF40, 0b0010_0000);
    assert!(bus.ppu.control.window_enabled);

    bus.write_byte(0xFF40, 0b0000_0000);
    assert_eq!(u16::from(bus.ppu.control.tile_data_start), 0x8800);
    bus.write_byte(0xFF40, 0b0001_0000);
    assert_eq!(u16::from(bus.ppu.control.tile_data_start), 0x8000);

    bus.write_byte(0xFF40, 0b0000_0000);
    assert_eq!(u16::from(bus.ppu.control.bg_map_start), 0x9800);
    bus.write_byte(0xFF40, 0b0000_1000);
    assert_eq!(u16::from(bus.ppu.control.bg_map_start), 0x9C00);

    bus.write_byte(0xFF40, 0b0000_0000);
    assert_eq!(bus.ppu.control.sprite_size, SpriteSize::Small);
    bus.write_byte(0xFF40, 0b0000_0100);
    assert_eq!(bus.ppu.control.sprite_size, SpriteSize::Large);

    bus.write_byte(0xFF40, 0b0000_0000);
    assert!(!bus.ppu.control.sprites_enabled);
    bus.write_byte(0xFF40, 0b0000_0010);
    assert!(bus.ppu.control.sprites_enabled);

    bus.write_byte(0xFF40, 0b0000_0000);
    assert!(!bus.ppu.control.background_enabled);
    bus.write_byte(0xFF40, 0b0000_0001);
    assert!(bus.ppu.control.background_enabled);
}

#[test]
fn bus_memory_text() {
    let mut bus = Bus::default();
    bus.write_byte_no_tick(0xC000, 0xAB);
    bus.write_byte_no_tick(0xC011, 0x07);
    let text = bus.to_string();
    let lines: Vec<&str> = text.lines().collect();
    assert_eq!(lines.len(), 0x10000 / 32);
    let line = lines[0xC000 / 32];
    assert!(line.starts_with("c000 ab 00 "));
    assert!(line.contains(" c010 00 07 "));
    assert_eq!(line.len(), 2 * 5 + 32 * 3);
    assert!(text.ends_with('\n'));
    assert!(text.starts_with("0000 "));
}

#[test]
fn mod_memory_dump() {
    let bus = Bus::default();
    bus.to_string();
}

#[test]
fn bus_memory_dump() {
    let bus = Bus::default();
    bus.to_string();
}

#[test]
fn interrupt_registers_read_back() {
    for address in [0xFF0Fu16, 0xFFFF] {
        for byte in 0..=255u8 {
            let mut bus = Bus::default();
            bus.write_byte_no_tick(address, byte);
            assert_eq!(bus.read_byte_no_tick(address), byte | 0xE0);
        }
    }
}

#[test]
fn power_on_joypad() {
    let bus = Bus::default();
    assert_eq!(bus.read_byte_no_tick(0xFF00) & 0x3F, 0x0F);
    assert!(!bus.button_state.pressed.iter().any(|p| *p));
}

#[test]
fn whole_memory_iteration() {
    let mut bus = Bus::default();
    bus.write_byte_no_tick(0xC000, 0x42);
    let mut iter = bus.iter();
    let mut count = 0u32;
    while let Some(byte) = iter.next() {
        assert_eq!(byte, bus.read_byte_no_tick(count as u16));
        count += 1;
    }
    assert_eq!(count, 0x10000);
    assert_eq!(iter.next(), None);
}
