use feo_boy::memory::Addressable;
use feo_boy::graphics::palette::{BackgroundPalette, Shade};
use feo_boy::graphics::{pixel_color, Mode, Ppu, TileDataStart};

#[test]
fn chram() {
    let mut ppu = Ppu::new();

    ppu.mem.chram[0] = 1;
    assert_eq!(ppu.read_byte(0x8000), 1);

    ppu.mem.chram[0x17FF] = 2;
    assert_eq!(ppu.read_byte(0x97FF), 2);
}

#[test]
fn graphics_oam() {
    let mut ppu = Ppu::new();

    ppu.mem.oam[0] = 1;
    assert_eq!(ppu.read_byte(0xFE00), 1);

    ppu.mem.oam[0x9F] = 2;
    assert_eq!(ppu.read_byte(0xFE9F), 2);
}

#[test]
fn shade() {
    let palette = BackgroundPalette::new([Shade::White, Shade::LightGray, Shade::DarkGray, Shade::Black]);
    // The tile row 0x8B4E: low byte 0x4E, high byte 0x8B.
    let shade = |x: u8| palette.get(pixel_color(0x4E, 0x8B, x));

    assert_eq!(shade(0), Shade::DarkGray);
    assert_eq!(shade(1), Shade::LightGray);
    assert_eq!(shade(2), Shade::White);
    assert_eq!(shade(3), Shade::White);
    assert_eq!(shade(4), Shade::Black);
    assert_eq!(shade(5), Shade::LightGray);
    assert_eq!(shade(6), Shade::Black);
    assert_eq!(shade(7), Shade::DarkGray);
}

#[test]
fn tile_data_address() {
    let mut ppu = Ppu::new();
    ppu.control.tile_data_start = TileDataStart::Low;
    assert_eq!(ppu.tile_data_address(0), 0x8000);
    assert_eq!(ppu.tile_data_address(37), 0x8250);
    assert_eq!(ppu.tile_data_address(u8::MAX), 0x8FF0);

    let mut ppu = Ppu::new();
    ppu.control.tile_data_start = TileDataStart::High;
    assert_eq!(ppu.tile_data_address(0), 0x9000);
    assert_eq!(ppu.tile_data_address(37), 0x9250);
    assert_eq!(ppu.tile_data_address(u8::MAX), 0x8FF0);
}

#[test]
fn tile_wrapping() {
    let mut ppu = Ppu::new();
    ppu.control.display_enabled = true;
    ppu.control.background_enabled = true;
    ppu.line = 100;
    ppu.bg_scroll.x = 200;
    ppu.bg_scroll.y = 200;

    ppu.render_tiles();

    let mut ppu = Ppu::new();
    ppu.control.display_enabled = true;
    ppu.control.window_enabled = true;
    ppu.line = 143;
    ppu.window.x = 200;
    ppu.window.y = 143;

    ppu.render_tiles();
}

#[test]
fn lcd_disabled() {
    let ppu = Ppu::new();
    assert!(!ppu.control.display_enabled);
    assert_eq!(ppu.mode(), 1);
}

#[test]
fn ppu_mode_cycle() {
    let mut ppu = Ppu::new();
    let mut interrupts = feo_boy::cpu::Interrupts::default();
    ppu.control.display_enabled = true;
    assert_eq!(ppu.mode(), 2);
    for _ in 0..80 {
        ppu.step(&mut interrupts);
    }
    assert_eq!(ppu.mode, Mode::ScanlineVram);
    for _ in 0..172 {
        ppu.step(&mut interrupts);
    }
    assert_eq!(ppu.mode, Mode::HorizontalBlank);
    for _ in 0..204 {
        ppu.step(&mut interrupts);
    }
    assert_eq!(ppu.mode, Mode::ScanlineOam);
    assert_eq!(ppu.line, 1);
}

#[test]
fn ppu_vblank_interrupt() {
    let mut ppu = Ppu::new();
    let mut interrupts = feo_boy::cpu::Interrupts::default();
    ppu.control.display_enabled = true;
    for _ in 0..(144 * 456) {
        ppu.step(&mut interrupts);
    }
    assert_eq!(ppu.mode, Mode::VerticalBlank);
    assert_eq!(ppu.line, 144);
    assert!(interrupts.vblank.requested);
    for _ in 0..(10 * 456) {
        ppu.step(&mut interrupts);
    }
    assert_eq!(ppu.line, 0);
    assert_eq!(ppu.mode, Mode::ScanlineOam);
}

#[test]
fn ppu_render_frame() {
    let ppu = Ppu::new();
    let mut frame = vec![0u8; 160 * 144 * 4];
    ppu.render(&mut frame);
    assert_eq!(&frame[0..4], &Shade::White.to_rgba());
}

#[test]
fn ppu_words() {
    let mut ppu = Ppu::new();
    ppu.write_byte(0x8000, 0xAB);
    ppu.write_byte(0x8001, 0xCD);
    assert_eq!(ppu.read_word(0x8000), 0xCDAB);

    ppu.write_word(0xFE10, 0xABCD);
    assert_eq!(ppu.read_byte(0xFE10), 0xCD);
    assert_eq!(ppu.read_byte(0xFE11), 0xAB);
    assert_eq!(ppu.read_word(0xFE10), 0xABCD);
}

#[test]
fn palette_conversions() {
    let palette = BackgroundPalette::from(0b10010011u8);
    assert_eq!(
        palette,
        BackgroundPalette::new([Shade::Black, Shade::White, Shade::LightGray, Shade::DarkGray])
    );
    let byte: u8 = palette.into();
    assert_eq!(byte, 0b10010011);

    let sprites = feo_boy::graphics::palette::SpritePalette::from(0xE4u8);
    assert_eq!(sprites.get(0), None);
    assert_eq!(sprites.get(3), Some(Shade::Black));
    let byte: u8 = sprites.into();
    assert_eq!(byte, 0xE4);
}

#[test]
fn graphics_defaults() {
    assert_eq!(TileDataStart::default(), TileDataStart::High);
    assert_eq!(feo_boy::graphics::TileMapStart::default(), feo_boy::graphics::TileMapStart::Low);
    assert_eq!(feo_boy::graphics::SpriteSize::default(), feo_boy::graphics::SpriteSize::Small);
    assert_eq!(Mode::default(), Mode::VerticalBlank);
    let screen = feo_boy::graphics::ScreenBuffer::default();
    assert_eq!(screen.0.len(), 160 * 144);
    assert!(screen.0.iter().all(|s| *s == Shade::White));
    let mem = feo_boy::graphics::VideoMemory::default();
    assert!(mem.chram.iter().all(|b| *b == 0));
    assert_eq!(mem.oam.len(), 0xA0);
}
