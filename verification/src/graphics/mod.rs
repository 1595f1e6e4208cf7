//! Graphics: the picture processing unit (PPU).

pub mod palette;

use vstd::prelude::*;

use crate::bytes::{bit, byte_of_bits, pack_bits, ByteExt};
use crate::cpu::{InterruptState, Interrupts};
use crate::memory::Addressable;

pub use self::palette::{BackgroundPalette, Shade, SpritePalette};

verus! {

/// The width of the Game Boy screen.
pub const SCREEN_WIDTH: usize = 160;

/// The height of the Game Boy screen.
pub const SCREEN_HEIGHT: usize = 144;

/// The width and height of the Game Boy screen.
pub const SCREEN_DIMENSIONS: (u32, u32) = (160, 144);

/// The start of sprite memory (OAM).
pub const SPRITE_START: u16 = 0xFE00;

/// The start of the sprite tile data.
pub const SPRITE_TILE_DATA_START: u16 = 0x8000;

/// The size of the background maps.
pub const BG_MAP_SIZE: usize = 0x800;

/// The size of the character RAM.
pub const CHRAM_SIZE: usize = 0x1800;

/// The size of sprite memory.
pub const OAM_SIZE: usize = 0xA0;

/// Determines under which conditions the LCDC status interrupt fires.
#[derive(Debug, Clone, Copy, PartialEq, Eq, Structural)]
pub struct LcdcStatusInterrupts {
    /// Fires during H-Blank.
    pub hblank: bool,
    /// Fires during V-Blank.
    pub vblank: bool,
    /// Fires when OAM is being transferred.
    pub oam: bool,
    /// Fires when LYC = LY.
    pub ly_lyc_coincidence: bool,
}

/// The location of the window or background tile map.
#[derive(Debug, Clone, Copy, PartialEq, Eq, Structural)]
pub enum TileMapStart {
    /// The low tile map (0x9800).
    Low,
    /// The high tile map (0x9C00).
    High,
}

impl Default for TileMapStart {
    /// The low tile map.
    fn default() -> (r: Self)
        ensures
            r == TileMapStart::Low,
    {
        TileMapStart::Low
    }
}

impl TileMapStart {
    pub open spec fn spec_address(self) -> u16 {
        match self {
            TileMapStart::Low => 0x9800,
            TileMapStart::High => 0x9C00,
        }
    }

    /// The address of the start of the tile map.
    pub fn address(&self) -> (r: u16)
        ensures
            r == self.spec_address(),
    {
        match *self {
            TileMapStart::Low => 0x9800,
            TileMapStart::High => 0x9C00,
        }
    }
}

impl From<TileMapStart> for u16 {
    fn from(start: TileMapStart) -> (r: u16) {
        start.address()
    }
}

impl vstd::std_specs::convert::FromSpecImpl<TileMapStart> for u16 {
    open spec fn obeys_from_spec() -> bool {
        true
    }

    open spec fn from_spec(start: TileMapStart) -> u16 {
        start.spec_address()
    }
}

/// The location of the window and background tile data.
#[derive(Debug, Clone, Copy, PartialEq, Eq, Structural)]
pub enum TileDataStart {
    /// The low address (0x8000). Offsets are unsigned.
    Low,
    /// The high address (0x8800). Offsets are signed.
    High,
}

impl Default for TileDataStart {
    /// The high tile data, with signed offsets.
    fn default() -> (r: Self)
        ensures
            r == TileDataStart::High,
    {
        TileDataStart::High
    }
}

impl TileDataStart {
    pub open spec fn spec_address(self) -> u16 {
        match self {
            TileDataStart::Low => 0x8000,
            TileDataStart::High => 0x8800,
        }
    }

    /// The address of the start of the tile data.
    pub fn address(&self) -> (r: u16)
        ensures
            r == self.spec_address(),
    {
        match *self {
            TileDataStart::Low => 0x8000,
            TileDataStart::High => 0x8800,
        }
    }
}

impl From<TileDataStart> for u16 {
    fn from(start: TileDataStart) -> (r: u16) {
        start.address()
    }
}

impl vstd::std_specs::convert::FromSpecImpl<TileDataStart> for u16 {
    open spec fn obeys_from_spec() -> bool {
        true
    }

    open spec fn from_spec(start: TileDataStart) -> u16 {
        start.spec_address()
    }
}

/// The available sizes of sprites.
#[derive(Debug, Clone, Copy, PartialEq, Eq, Structural)]
pub enum SpriteSize {
    /// 8x8
    Small,
    /// 8x16
    Large,
}

impl Default for SpriteSize {
    /// 8x8 sprites.
    fn default() -> (r: Self)
        ensures
            r == SpriteSize::Small,
    {
        SpriteSize::Small
    }
}

/// Core LCD settings: the `LCDC` register.
#[derive(Debug, Clone, Copy, PartialEq, Eq, Structural)]
pub struct LcdControl {
    /// Whether the LCD is operating.
    pub display_enabled: bool,
    /// True if window memory should be displayed.
    pub window_enabled: bool,
    /// True if sprites should be displayed.
    pub sprites_enabled: bool,
    /// True if the background should be displayed.
    pub background_enabled: bool,
    /// The start of the window tile map.
    pub window_map_start: TileMapStart,
    /// The start of the background and window tile data.
    pub tile_data_start: TileDataStart,
    /// The start of the background tile map.
    pub bg_map_start: TileMapStart,
    /// The size of the sprites being used.
    pub sprite_size: SpriteSize,
}

/// The `LCDC` settings a byte holds.
pub open spec fn lcd_control_of(byte: u8) -> LcdControl {
    LcdControl {
        display_enabled: bit(byte, 7),
        window_map_start: if bit(byte, 6) { TileMapStart::High } else { TileMapStart::Low },
        window_enabled: bit(byte, 5),
        tile_data_start: if bit(byte, 4) { TileDataStart::Low } else { TileDataStart::High },
        bg_map_start: if bit(byte, 3) { TileMapStart::High } else { TileMapStart::Low },
        sprite_size: if bit(byte, 2) { SpriteSize::Large } else { SpriteSize::Small },
        sprites_enabled: bit(byte, 1),
        background_enabled: bit(byte, 0),
    }
}

/// The byte of the `LCDC` register.
pub open spec fn lcd_control_byte(c: LcdControl) -> u8 {
    byte_of_bits(
        c.background_enabled,
        c.sprites_enabled,
        c.sprite_size == SpriteSize::Large,
        c.bg_map_start == TileMapStart::High,
        c.tile_data_start == TileDataStart::Low,
        c.window_enabled,
        c.window_map_start == TileMapStart::High,
        c.display_enabled,
    )
}

impl LcdControl {
    /// The LCD off, with the default maps, data and sprite size.
    pub fn new() -> (r: Self)
        ensures
            r == lcd_control_of(0),
    {
        proof {
            reveal(bit);
        }
        LcdControl {
            display_enabled: false,
            window_enabled: false,
            sprites_enabled: false,
            background_enabled: false,
            window_map_start: TileMapStart::Low,
            tile_data_start: TileDataStart::High,
            bg_map_start: TileMapStart::Low,
            sprite_size: SpriteSize::Small,
        }
    }

    /// The `LCDC` register byte.
    pub fn as_byte(&self) -> (r: u8)
        ensures
            r == lcd_control_byte(*self),
    {
        pack_bits(
            self.background_enabled,
            self.sprites_enabled,
            self.sprite_size == SpriteSize::Large,
            self.bg_map_start == TileMapStart::High,
            self.tile_data_start == TileDataStart::Low,
            self.window_enabled,
            self.window_map_start == TileMapStart::High,
            self.display_enabled,
        )
    }

    /// The settings of an `LCDC` register byte.
    pub fn from_byte(byte: u8) -> (r: Self)
        ensures
            r == lcd_control_of(byte),
    {
        let b7 = byte.has_bit_set(7);
        let b6 = byte.has_bit_set(6);
        let b5 = byte.has_bit_set(5);
        let b4 = byte.has_bit_set(4);
        let b3 = byte.has_bit_set(3);
        let b2 = byte.has_bit_set(2);
        let b1 = byte.has_bit_set(1);
        let b0 = byte.has_bit_set(0);
        LcdControl {
            display_enabled: b7,
            window_map_start: if b6 { TileMapStart::High } else { TileMapStart::Low },
            window_enabled: b5,
            tile_data_start: if b4 { TileDataStart::Low } else { TileDataStart::High },
            bg_map_start: if b3 { TileMapStart::High } else { TileMapStart::Low },
            sprite_size: if b2 { SpriteSize::Large } else { SpriteSize::Small },
            sprites_enabled: b1,
            background_enabled: b0,
        }
    }
}

/// Writing the `LCDC` byte that the settings read as gives back the same settings.
pub proof fn lemma_lcd_control_roundtrip(c: LcdControl)
    ensures
        lcd_control_of(lcd_control_byte(c)) == c,
{
    reveal(bit);
    crate::bytes::lemma_bits_of_byte(
        c.background_enabled,
        c.sprites_enabled,
        c.sprite_size == SpriteSize::Large,
        c.bg_map_start == TileMapStart::High,
        c.tile_data_start == TileDataStart::Low,
        c.window_enabled,
        c.window_map_start == TileMapStart::High,
        c.display_enabled,
    );
}

/// An X/Y coordinate pair.
#[derive(Debug, Clone, Copy, PartialEq, Eq, Structural)]
pub struct Position {
    pub x: u8,
    pub y: u8,
}

/// The operation modes of the PPU.
#[derive(Debug, Clone, Copy, PartialEq, Eq, Structural)]
pub enum Mode {
    /// Horizontal blank (mode 0).
    HorizontalBlank,
    /// Vertical blank (mode 1).
    VerticalBlank,
    /// Scanline, accessing OAM (mode 2).
    ScanlineOam,
    /// Scanline, accessing VRAM (mode 3).
    ScanlineVram,
}

impl Default for Mode {
    /// Vertical blank.
    fn default() -> (r: Self)
        ensures
            r == Mode::VerticalBlank,
    {
        Mode::VerticalBlank
    }
}

/// The number of a mode.
pub open spec fn mode_number(m: Mode) -> u8 {
    match m {
        Mode::HorizontalBlank => 0,
        Mode::VerticalBlank => 1,
        Mode::ScanlineOam => 2,
        Mode::ScanlineVram => 3,
    }
}

/// The color number (0-3) of a pixel of a tile row: bit `7 - x` of the first byte is its low
/// bit, bit `7 - x` of the second byte its high bit.
pub open spec fn color_number(lo: u8, hi: u8, x: int) -> int {
    (if bit(lo, 7 - x) { 1int } else { 0 }) + (if bit(hi, 7 - x) { 2int } else { 0 })
}

/// The color number (0-3) of pixel `tile_x` (0 is leftmost) of a tile row.
pub fn pixel_color(lo: u8, hi: u8, tile_x: u8) -> (r: u8)
    requires
        tile_x <= 7,
    ensures
        r == color_number(lo, hi, tile_x as int),
{
    let color_bit = 7 - tile_x;
    let low: u8 = if lo.has_bit_set(color_bit) { 1 } else { 0 };
    let high: u8 = if hi.has_bit_set(color_bit) { 2 } else { 0 };
    low + high
}

/// The shade of pixel `k` of a sprite row, or `None` for the transparent color 0.
fn sprite_shade(lo: u8, hi: u8, x_flip: bool, palette: &SpritePalette, k: u8) -> (r: Option<Shade>)
    requires
        k < 8,
    ensures
        ({
            let c = color_number(lo, hi, if x_flip { 7 - k } else { k as int });
            r == (if c == 0 { None } else { Some(palette.0@[c]) })
        }),
{
    let tile_x = if x_flip { 7 - k } else { k };
    let color = pixel_color(lo, hi, tile_x);
    assert(color < 4) by {
        reveal(bit);
    }
    palette.get(color)
}

/// The sprites drawn depend on memory, palettes and settings, not on the pixels drawn so far.
proof fn lemma_sprite_layer_ignores_pixels(a: Ppu, b: Ppu, n: int, x: int)
    requires
        a == (Ppu { pixels: ScreenBuffer(a.pixels.0), ..b }),
    ensures
        a.sprite_layer(n, x) == b.sprite_layer(n, x),
    decreases n,
{
    reveal(Ppu::sprite_at);
    if n > 0 {
        lemma_sprite_layer_ignores_pixels(a, b, n - 1, x);
    }
}

/// The memory managed by the PPU.
#[derive(Debug)]
pub struct VideoMemory {
    /// Background data: two 32x32 tile maps of 1024 bytes each.
    pub bg_map: Vec<u8>,
    /// Character RAM: 8x8 pixel tile data, 16 bytes per tile.
    pub chram: Vec<u8>,
    /// Object attribute memory (OAM): four bytes per sprite.
    pub oam: Vec<u8>,
}

impl Default for VideoMemory {
    /// All video memory zeroed.
    fn default() -> (r: Self)
        ensures
            r.bg_map@ == Seq::new(BG_MAP_SIZE as nat, |i: int| 0u8),
            r.chram@ == Seq::new(CHRAM_SIZE as nat, |i: int| 0u8),
            r.oam@ == Seq::new(OAM_SIZE as nat, |i: int| 0u8),
    {
        let r = VideoMemory { bg_map: vec![0; BG_MAP_SIZE], chram: vec![0; CHRAM_SIZE], oam: vec![0; OAM_SIZE] };
        assert(r.bg_map@ =~= Seq::new(BG_MAP_SIZE as nat, |i: int| 0u8));
        assert(r.chram@ =~= Seq::new(CHRAM_SIZE as nat, |i: int| 0u8));
        assert(r.oam@ =~= Seq::new(OAM_SIZE as nat, |i: int| 0u8));
        r
    }
}

/// The pixels to be rendered on the screen, row by row.
#[derive(Debug)]
pub struct ScreenBuffer(pub Vec<Shade>);

impl Default for ScreenBuffer {
    /// A white screen.
    fn default() -> (r: Self)
        ensures
            r.0@ == Seq::new((SCREEN_WIDTH * SCREEN_HEIGHT) as nat, |i: int| Shade::White),
    {
        let r = ScreenBuffer(vec![Shade::White; SCREEN_WIDTH * SCREEN_HEIGHT]);
        assert(r.0@ =~= Seq::new((SCREEN_WIDTH * SCREEN_HEIGHT) as nat, |i: int| Shade::White));
        r
    }
}

/// The picture processing unit.
#[derive(Debug)]
pub struct Ppu {
    /// Video memory.
    pub mem: VideoMemory,
    /// The `LCDC` settings.
    pub control: LcdControl,
    /// The current mode of the PPU operation.
    pub mode: Mode,
    /// The number of clock cycles spent in the current mode.
    pub modeclock: u32,
    /// The background palette.
    pub bg_palette: BackgroundPalette,
    /// The two sprite palettes.
    pub sprite_palette: [SpritePalette; 2],
    /// The current line position of the PPU. The last visible line is 143.
    pub line: u8,
    /// The position in the 256x256 background that is displayed at the upper left.
    pub bg_scroll: Position,
    /// The upper left position of the window area.
    pub window: Position,
    /// The value compared against the current line (`LYC`).
    pub line_compare: u8,
    /// The conditions under which the LCDC status interrupt fires.
    pub lcd_status_interrupts: LcdcStatusInterrupts,
    /// The pixels to be rendered on the screen.
    pub pixels: ScreenBuffer,
}

/// The addresses the PPU answers: video RAM, sprite memory and the LCD registers.
pub open spec fn is_ppu_address(address: u16) -> bool {
    (0x8000 <= address <= 0x9FFF) || (0xFE00 <= address <= 0xFE9F) || (0xFF40 <= address <= 0xFF4B)
}

impl Ppu {
    /// The power-on state: zeroed video memory, the LCD off with every setting zero, OAM search
    /// at the top line, white palettes and a white screen.
    pub open spec fn is_initial(self) -> bool {
        &&& self.mode == Mode::ScanlineOam
        &&& self.modeclock == 0
        &&& self.line == 0
        &&& self.line_compare == 0
        &&& self.control == lcd_control_of(0)
        &&& self.bg_scroll == (Position { x: 0, y: 0 })
        &&& self.window == (Position { x: 0, y: 0 })
        &&& self.lcd_status_interrupts == (LcdcStatusInterrupts {
            hblank: false,
            vblank: false,
            oam: false,
            ly_lyc_coincidence: false,
        })
        &&& forall|i: int| 0 <= i < CHRAM_SIZE ==> self.mem.chram@[i] == 0
        &&& forall|i: int| 0 <= i < BG_MAP_SIZE ==> self.mem.bg_map@[i] == 0
        &&& forall|i: int| 0 <= i < OAM_SIZE ==> self.mem.oam@[i] == 0
        &&& self.bg_palette.0@ == seq![Shade::White, Shade::White, Shade::White, Shade::White]
        &&& self.sprite_palette[0].0@ == seq![Shade::White, Shade::White, Shade::White, Shade::White]
        &&& self.sprite_palette[1].0@ == seq![Shade::White, Shade::White, Shade::White, Shade::White]
        &&& forall|i: int| 0 <= i < SCREEN_WIDTH * SCREEN_HEIGHT ==> self.pixels.0@[i] == Shade::White
    }

    /// The buffers have their sizes; the line stays on the screen's 154 lines, and on the 144
    /// visible ones outside V-blank.
    pub open spec fn wf(self) -> bool {
        &&& self.mem.bg_map@.len() == BG_MAP_SIZE
        &&& self.mem.chram@.len() == CHRAM_SIZE
        &&& self.mem.oam@.len() == OAM_SIZE
        &&& self.pixels.0@.len() == SCREEN_WIDTH * SCREEN_HEIGHT
        &&& self.line <= 153
        &&& (self.mode != Mode::VerticalBlank ==> self.line <= 143)
        &&& self.modeclock < 456
    }

    /// The mode number that the STAT register reports: mode 1 while the display is off.
    pub open spec fn spec_mode(self) -> u8 {
        if self.control.display_enabled { mode_number(self.mode) } else { 1 }
    }

    /// The `STAT` register: the mode, the LY = LYC coincidence (bit 2) and the interrupt
    /// conditions (bits 3-6).
    pub open spec fn spec_stat(self) -> u8 {
        byte_of_bits(
            self.spec_mode() % 2 == 1,
            self.spec_mode() / 2 == 1,
            self.line == self.line_compare,
            self.lcd_status_interrupts.hblank,
            self.lcd_status_interrupts.vblank,
            self.lcd_status_interrupts.oam,
            self.lcd_status_interrupts.ly_lyc_coincidence,
            false,
        )
    }

    /// The byte that reading a PPU address gives.
    pub open spec fn spec_read(self, address: u16) -> u8 {
        if 0x8000 <= address <= 0x97FF {
            self.mem.chram@[address - 0x8000]
        } else if 0x9800 <= address <= 0x9FFF {
            self.mem.bg_map@[address - 0x9800]
        } else if 0xFE00 <= address <= 0xFE9F {
            self.mem.oam@[address - 0xFE00]
        } else if address == 0xFF40 {
            lcd_control_byte(self.control)
        } else if address == 0xFF41 {
            self.spec_stat()
        } else if address == 0xFF42 {
            self.bg_scroll.y
        } else if address == 0xFF43 {
            self.bg_scroll.x
        } else if address == 0xFF44 {
            self.line
        } else if address == 0xFF45 {
            self.line_compare
        } else if address == 0xFF47 {
            palette::register_of_shades(self.bg_palette.0@)
        } else if address == 0xFF48 {
            palette::register_of_shades(self.sprite_palette[0].0@)
        } else if address == 0xFF49 {
            palette::register_of_shades(self.sprite_palette[1].0@)
        } else if address == 0xFF4A {
            self.window.y
        } else if address == 0xFF4B {
            ((self.window.x + 7) % 256) as u8
        } else {
            0xFF
        }
    }

    /// The PPU after a write to an LCD register (`0xFF40-0xFF4B`) other than the palettes.
    /// `LY` is read-only, and the DMA register is handled by the bus.
    pub open spec fn register_written(self, address: u16, byte: u8) -> Ppu {
        if address == 0xFF40 {
            Ppu { control: lcd_control_of(byte), ..self }
        } else if address == 0xFF41 {
            Ppu {
                lcd_status_interrupts: LcdcStatusInterrupts {
                    hblank: bit(byte, 3),
                    vblank: bit(byte, 4),
                    oam: bit(byte, 5),
                    ly_lyc_coincidence: bit(byte, 6),
                },
                ..self
            }
        } else if address == 0xFF42 {
            Ppu { bg_scroll: Position { y: byte, ..self.bg_scroll }, ..self }
        } else if address == 0xFF43 {
            Ppu { bg_scroll: Position { x: byte, ..self.bg_scroll }, ..self }
        } else if address == 0xFF45 {
            Ppu { line_compare: byte, ..self }
        } else if address == 0xFF4A {
            Ppu { window: Position { y: byte, ..self.window }, ..self }
        } else if address == 0xFF4B {
            Ppu { window: Position { x: ((byte + 256 - 7) % 256) as u8, ..self.window }, ..self }
        } else {
            self
        }
    }

    /// Creates a new picture processing unit with cleared memory and the LCD off.
    pub fn new() -> (r: Ppu)
        ensures
            r.wf(),
            r.is_initial(),
    {
        Ppu {
            mem: VideoMemory { bg_map: vec![0; BG_MAP_SIZE], chram: vec![0; CHRAM_SIZE], oam: vec![0; OAM_SIZE] },
            control: LcdControl::new(),
            mode: Mode::ScanlineOam,
            modeclock: 0,
            bg_palette: BackgroundPalette::default(),
            sprite_palette: [SpritePalette::default(), SpritePalette::default()],
            line: 0,
            bg_scroll: Position { x: 0, y: 0 },
            window: Position { x: 0, y: 0 },
            line_compare: 0,
            lcd_status_interrupts: LcdcStatusInterrupts {
                hblank: false,
                vblank: false,
                oam: false,
                ly_lyc_coincidence: false,
            },
            pixels: ScreenBuffer(vec![Shade::White; SCREEN_WIDTH * SCREEN_HEIGHT]),
        }
    }

    /// Returns the number of the current graphics mode; mode 1 while the display is off.
    pub fn mode(&self) -> (r: u8)
        ensures
            r == self.spec_mode(),
    {
        if self.control.display_enabled {
            match self.mode {
                Mode::HorizontalBlank => 0,
                Mode::VerticalBlank => 1,
                Mode::ScanlineOam => 2,
                Mode::ScanlineVram => 3,
            }
        } else {
            1
        }
    }

    /// What a write to a PPU address does: `after` is the PPU after writing `byte` at `address`.
    pub open spec fn write_relation(self, address: u16, byte: u8, after: Ppu) -> bool {
        &&& 0x8000 <= address <= 0x97FF ==> after.mem.chram@ == self.mem.chram@.update(address - 0x8000, byte)
            && after == (Ppu { mem: VideoMemory { chram: after.mem.chram, ..self.mem }, ..self })
        &&& 0x9800 <= address <= 0x9FFF ==> after.mem.bg_map@ == self.mem.bg_map@.update(address - 0x9800, byte)
            && after == (Ppu { mem: VideoMemory { bg_map: after.mem.bg_map, ..self.mem }, ..self })
        &&& 0xFE00 <= address <= 0xFE9F ==> after.mem.oam@ == self.mem.oam@.update(address - 0xFE00, byte)
            && after == (Ppu { mem: VideoMemory { oam: after.mem.oam, ..self.mem }, ..self })
        &&& address == 0xFF47 ==> after.bg_palette.0@ == palette::shades_of_register(byte)
            && after == (Ppu { bg_palette: after.bg_palette, ..self })
        &&& address == 0xFF48 ==> after.sprite_palette[0].0@ == palette::shades_of_register(byte)
            && after.sprite_palette[1] == self.sprite_palette[1]
            && after == (Ppu { sprite_palette: after.sprite_palette, ..self })
        &&& address == 0xFF49 ==> after.sprite_palette[1].0@ == palette::shades_of_register(byte)
            && after.sprite_palette[0] == self.sprite_palette[0]
            && after == (Ppu { sprite_palette: after.sprite_palette, ..self })
        &&& 0xFF40 <= address <= 0xFF4B && address != 0xFF47 && address != 0xFF48 && address != 0xFF49
            ==> after == self.register_written(address, byte)
    }

    /// The start of the data of a tile. With the high tile data, the identifier is a signed
    /// offset from tile 128.
    pub open spec fn spec_tile_data_address(self, tile_id: u8) -> int {
        match self.control.tile_data_start {
            TileDataStart::Low => 0x8000 + tile_id * 16,
            TileDataStart::High => 0x8800 + ((tile_id + 128) % 256) * 16,
        }
    }

    /// Given a tile identifier, returns the starting address of the tile.
    pub fn tile_data_address(&self, tile_id: u8) -> (r: u16)
        ensures
            r == self.spec_tile_data_address(tile_id),
            0x8000 <= r <= 0x97F0,
    {
        match self.control.tile_data_start {
            TileDataStart::Low => 0x8000 + (tile_id as u16) * 16,
            TileDataStart::High => 0x8800 + (((tile_id as u16) + 128) % 256) * 16,
        }
    }

    /// Whether the current line shows the window.
    pub open spec fn uses_window(self) -> bool {
        self.control.window_enabled && self.window.y <= self.line
    }

    /// The row of the background (or window) map that the current line shows.
    pub open spec fn map_y(self) -> int {
        if self.uses_window() {
            (self.window.y + self.line) % 256
        } else {
            (self.bg_scroll.y + self.line) % 256
        }
    }

    /// The column of the background (or window) map that screen column `x` shows.
    pub open spec fn map_x(self, x: int) -> int {
        if self.uses_window() && x >= self.window.x {
            x - self.window.x
        } else {
            (x + self.bg_scroll.x) % 256
        }
    }

    /// The shade of the background or window at screen column `x` of the current line.
    pub open spec fn bg_pixel(self, x: int) -> Shade {
        let y = self.map_y();
        let mx = self.map_x(x);
        let map_start = if self.uses_window() {
            self.control.window_map_start.spec_address()
        } else {
            self.control.bg_map_start.spec_address()
        };
        let tile_id = self.mem.bg_map@[map_start + (y / 8) * 32 + mx / 8 - 0x9800];
        let row = self.spec_tile_data_address(tile_id) + (y % 8) * 2 - 0x8000;
        self.bg_palette.0@[color_number(self.mem.chram@[row], self.mem.chram@[row + 1], mx % 8)]
    }

    /// The shade of the pixel at column `mx` and row `my` of the 256x256 picture that the tile
    /// map starting at `map_start` shows: 32x32 tiles of 8x8 pixels, through the background
    /// palette.
    pub open spec fn map_pixel(self, map_start: int, mx: int, my: int) -> Shade {
        let tile_id = self.mem.bg_map@[map_start + (my / 8) * 32 + mx / 8 - 0x9800];
        let row = self.spec_tile_data_address(tile_id) + (my % 8) * 2 - 0x8000;
        self.bg_palette.0@[color_number(self.mem.chram@[row], self.mem.chram@[row + 1], mx % 8)]
    }

    /// The shade of the background or window at screen column `x` of the current line.
    #[verifier::spinoff_prover]
    #[verifier::rlimit(40)]
    fn tile_pixel(&self, x: u8) -> (r: Shade)
        requires
            self.wf(),
            x < 160,
        ensures
            r == self.bg_pixel(x as int),
    {
        let using_window = self.control.window_enabled && self.window.y <= self.line;
        let y_position: u16 = if using_window {
            self.window.y.wrapping_add(self.line) as u16
        } else {
            self.bg_scroll.y.wrapping_add(self.line) as u16
        };
        let tile_row_offset: u16 = (y_position / 8) * 32;
        let map_start = if using_window {
            self.control.window_map_start.address()
        } else {
            self.control.bg_map_start.address()
        };
        let x_position: u8 = if using_window && x >= self.window.x {
            x - self.window.x
        } else {
            x.wrapping_add(self.bg_scroll.x)
        };
        assert(y_position == self.map_y());
        assert(x_position == self.map_x(x as int));
        assert(y_position < 256);
        assert(tile_row_offset <= 992);
        let tile_offset = (x_position / 8) as u16;
        assert(tile_offset < 32);
        let map_index = (map_start + tile_row_offset + tile_offset - 0x9800) as usize;
        assert(map_index < 0x800);
        let tile_id = self.mem.bg_map[map_index];
        let tile_address = self.tile_data_address(tile_id);
        let tile_line = (y_position % 8) * 2;
        assert(tile_line <= 14);
        let row = (tile_address + tile_line - 0x8000) as usize;
        assert(row + 1 < 0x1800);
        let color = pixel_color(self.mem.chram[row], self.mem.chram[row + 1], x_position % 8);
        assert(color < 4) by {
            reveal(bit);
        }
        self.bg_palette.get(color)
    }

    /// Draws the background or window of the current line, one tile at a time.
    pub fn render_tiles(&mut self)
        requires
            old(self).wf(),
            old(self).line <= 143,
        ensures
            final(self).wf(),
            *final(self) == (Ppu { pixels: ScreenBuffer(final(self).pixels.0), ..*old(self) }),
            forall|i: int| 0 <= i < SCREEN_WIDTH * SCREEN_HEIGHT ==> #[trigger] final(self).pixels.0@[i] == (
                if old(self).line * 160 <= i < old(self).line * 160 + 160 {
                    old(self).bg_pixel(i - old(self).line * 160)
                } else {
                    old(self).pixels.0@[i]
                }),
    {
        let ghost start = *self;
        let line_start = (self.line as usize) * SCREEN_WIDTH;
        let mut x: u8 = 0;
        while x < 160
            invariant
                x <= 160,
                self.wf(),
                start.line <= 143,
                *self == (Ppu { pixels: ScreenBuffer(self.pixels.0), ..start }),
                line_start == start.line * 160,
                forall|i: int| 0 <= i < SCREEN_WIDTH * SCREEN_HEIGHT ==> #[trigger] self.pixels.0@[i] == (
                    if line_start <= i < line_start + x {
                        start.bg_pixel(i - line_start)
                    } else {
                        start.pixels.0@[i]
                    }),
            decreases 160 - x,
        {
            let shade = self.tile_pixel(x);
            self.pixels.0.set(line_start + x as usize, shade);
            x = x + 1;
        }
    }

    /// The screen row of the top of sprite `n`.
    pub open spec fn sprite_y(self, n: int) -> int {
        (self.mem.oam@[4 * n] + 256 - 16) % 256
    }

    /// The screen column of the left of sprite `n`.
    pub open spec fn sprite_x(self, n: int) -> int {
        (self.mem.oam@[4 * n + 1] + 256 - 8) % 256
    }

    /// The height of the sprites.
    pub open spec fn sprite_height(self) -> int {
        if self.control.sprite_size == SpriteSize::Large { 16 } else { 8 }
    }

    /// Whether sprite `n` covers the current line.
    pub open spec fn sprite_on_line(self, n: int) -> bool {
        self.sprite_y(n) <= self.line < self.sprite_y(n) + self.sprite_height()
    }

    /// The index into character RAM of the tile row of sprite `n` on the current line. Flipped
    /// vertically, the row counts from the bottom.
    pub open spec fn sprite_row(self, n: int) -> int {
        let attributes = self.mem.oam@[4 * n + 3];
        let row = if bit(attributes, 6) {
            (self.sprite_y(n) + self.sprite_height() - self.line) * 2
        } else {
            (self.line - self.sprite_y(n)) * 2
        };
        self.mem.oam@[4 * n + 2] * 16 + row
    }

    /// The shade that sprite `n` puts at screen column `x` of the current line, if any: color 0
    /// is transparent, and columns past the screen's edge are not drawn.
    #[verifier::opaque]
    pub open spec fn sprite_at(self, n: int, x: int) -> Option<Shade> {
        if self.sprite_on_line(n) && self.sprite_x(n) <= x < self.sprite_x(n) + 8 && x < 160 {
            let attributes = self.mem.oam@[4 * n + 3];
            let k = x - self.sprite_x(n);
            let row = self.sprite_row(n);
            let c = color_number(
                self.mem.chram@[row],
                self.mem.chram@[row + 1],
                if bit(attributes, 5) { 7 - k } else { k },
            );
            let palette = if bit(attributes, 4) { self.sprite_palette[1] } else { self.sprite_palette[0] };
            if c == 0 { None } else { Some(palette.0@[c]) }
        } else {
            None
        }
    }

    /// The shade that the sprites `0..n` put at screen column `x`: the highest-numbered one that
    /// draws there.
    pub open spec fn sprite_layer(self, n: int, x: int) -> Option<Shade>
        decreases n,
    {
        if n <= 0 {
            None
        } else {
            match self.sprite_at(n - 1, x) {
                Some(s) => Some(s),
                None => self.sprite_layer(n - 1, x),
            }
        }
    }

    /// Draws sprite `n` on the current line.
    fn draw_sprite(&mut self, n: u8)
        requires
            old(self).wf(),
            old(self).line <= 143,
            n < 40,
        ensures
            final(self).wf(),
            *final(self) == (Ppu { pixels: ScreenBuffer(final(self).pixels.0), ..*old(self) }),
            forall|i: int| 0 <= i < SCREEN_WIDTH * SCREEN_HEIGHT ==> #[trigger] final(self).pixels.0@[i] == (
                if old(self).line * 160 <= i < old(self).line * 160 + 160 {
                    match old(self).sprite_at(n as int, i - old(self).line * 160) {
                        Some(s) => s,
                        None => old(self).pixels.0@[i],
                    }
                } else {
                    old(self).pixels.0@[i]
                }),
    {
        let ghost start = *self;
        let index = (n as usize) * 4;
        let y_position = self.mem.oam[index].wrapping_sub(16) as u16;
        let x_position = self.mem.oam[index + 1].wrapping_sub(8) as u16;
        let tile_location = self.mem.oam[index + 2] as u16;
        let attributes = self.mem.oam[index + 3];
        let y_flip = attributes.has_bit_set(6);
        let x_flip = attributes.has_bit_set(5);
        let upper = attributes.has_bit_set(4);
        let y_size: u16 = match self.control.sprite_size {
            SpriteSize::Small => 8,
            SpriteSize::Large => 16,
        };
        let line = self.line as u16;
        assert(y_position == self.sprite_y(n as int));
        assert(x_position == self.sprite_x(n as int));
        if !(line >= y_position && line < y_position + y_size) {
            assert forall|x: int| #[trigger] start.sprite_at(n as int, x) is None by {
                reveal(Ppu::sprite_at);
            }
            return;
        }
        let current_line: u16 = if y_flip {
            (y_position + y_size - line) * 2
        } else {
            (line - y_position) * 2
        };
        let row = (tile_location * 16 + current_line) as usize;
        assert(row == self.sprite_row(n as int));
        let lo = self.mem.chram[row];
        let hi = self.mem.chram[row + 1];
        let palette = if upper { self.sprite_palette[1] } else { self.sprite_palette[0] };
        let line_start = (self.line as usize) * SCREEN_WIDTH;
        assert forall|x: int| x < x_position implies #[trigger] start.sprite_at(n as int, x) is None by {
            reveal(Ppu::sprite_at);
        }
        let mut k: u16 = 0;
        while k < 8
            invariant
                k <= 8,
                self.wf(),
                start.line <= 143,
                *self == (Ppu { pixels: ScreenBuffer(self.pixels.0), ..start }),
                line_start == start.line * 160,
                start.sprite_on_line(n as int),
                x_position == start.sprite_x(n as int),
                row == start.sprite_row(n as int),
                lo == start.mem.chram@[row as int],
                hi == start.mem.chram@[row + 1],
                x_flip == bit(start.mem.oam@[4 * n + 3], 5),
                palette == (if bit(start.mem.oam@[4 * n + 3], 4) { start.sprite_palette[1] } else { start.sprite_palette[0] }),
                forall|i: int| 0 <= i < SCREEN_WIDTH * SCREEN_HEIGHT ==> #[trigger] self.pixels.0@[i] == (
                    if line_start <= i < line_start + 160 && i - line_start < x_position + k {
                        match start.sprite_at(n as int, i - line_start) {
                            Some(s) => s,
                            None => start.pixels.0@[i],
                        }
                    } else {
                        start.pixels.0@[i]
                    }),
            decreases 8 - k,
        {
            let pixel = x_position + k;
            let shade = sprite_shade(lo, hi, x_flip, &palette, k as u8);
            if pixel < 160 {
                assert(shade == start.sprite_at(n as int, pixel as int)) by {
                    reveal(Ppu::sprite_at);
                }
                match shade {
                    Some(shade) => {
                        self.pixels.0.set(line_start + pixel as usize, shade);
                    },
                    None => {},
                }
            }
            k = k + 1;
        }
        assert forall|x: int| !(x_position <= x < x_position + 8) implies #[trigger] start.sprite_at(n as int, x) is None by {
            reveal(Ppu::sprite_at);
        }
    }

    /// Renders the sprites on the current line; a higher-numbered sprite is drawn over a lower
    /// one.
    pub fn render_sprite(&mut self)
        requires
            old(self).wf(),
            old(self).line <= 143,
        ensures
            final(self).wf(),
            *final(self) == (Ppu { pixels: ScreenBuffer(final(self).pixels.0), ..*old(self) }),
            forall|i: int| 0 <= i < SCREEN_WIDTH * SCREEN_HEIGHT ==> #[trigger] final(self).pixels.0@[i] == (
                if old(self).line * 160 <= i < old(self).line * 160 + 160 {
                    match old(self).sprite_layer(40, i - old(self).line * 160) {
                        Some(s) => s,
                        None => old(self).pixels.0@[i],
                    }
                } else {
                    old(self).pixels.0@[i]
                }),
    {
        let ghost start = *self;
        let mut n: u8 = 0;
        while n < 40
            invariant
                n <= 40,
                self.wf(),
                start.line <= 143,
                *self == (Ppu { pixels: ScreenBuffer(self.pixels.0), ..start }),
                forall|i: int| 0 <= i < SCREEN_WIDTH * SCREEN_HEIGHT ==> #[trigger] self.pixels.0@[i] == (
                    if start.line * 160 <= i < start.line * 160 + 160 {
                        match start.sprite_layer(n as int, i - start.line * 160) {
                            Some(s) => s,
                            None => start.pixels.0@[i],
                        }
                    } else {
                        start.pixels.0@[i]
                    }),
            decreases 40 - n,
        {
            let ghost before = *self;
            assert forall|x: int| #[trigger] before.sprite_at(n as int, x) == start.sprite_at(n as int, x) by {
                reveal(Ppu::sprite_at);
            }
            self.draw_sprite(n);
            n = n + 1;
        }
    }

    /// The shade at screen column `x` of the current line once the line is rendered: the
    /// sprites over the background or window, as far as each is enabled.
    #[verifier::opaque]
    pub open spec fn rendered_pixel(self, x: int, before: Shade) -> Shade {
        let base = if self.control.background_enabled || self.control.window_enabled {
            self.bg_pixel(x)
        } else {
            before
        };
        if self.control.sprites_enabled {
            match self.sprite_layer(40, x) {
                Some(s) => s,
                None => base,
            }
        } else {
            base
        }
    }

    /// Renders the current line, when the display is on.
    pub fn renderscan(&mut self)
        requires
            old(self).wf(),
            old(self).line <= 143,
        ensures
            final(self).wf(),
            *final(self) == (Ppu { pixels: ScreenBuffer(final(self).pixels.0), ..*old(self) }),
            forall|i: int| 0 <= i < SCREEN_WIDTH * SCREEN_HEIGHT ==> #[trigger] final(self).pixels.0@[i] == (
                if old(self).control.display_enabled && old(self).line * 160 <= i < old(self).line * 160 + 160 {
                    old(self).rendered_pixel(i - old(self).line * 160, old(self).pixels.0@[i])
                } else {
                    old(self).pixels.0@[i]
                }),
    {
        proof {
            reveal(Ppu::rendered_pixel);
        }
        if !self.control.display_enabled {
            return;
        }
        let ghost start = *self;
        if self.control.background_enabled || self.control.window_enabled {
            self.render_tiles();
        }
        let ghost middle = *self;
        if self.control.sprites_enabled {
            self.render_sprite();
            assert forall|n: int, x: int| #![auto] middle.sprite_layer(n, x) == start.sprite_layer(n, x) by {
                lemma_sprite_layer_ignores_pixels(middle, start, n, x);
            }
        }
    }

    /// Whether the current mode ends with the next clock cycle.
    pub open spec fn mode_ends(self) -> bool {
        self.modeclock + 1 >= match self.mode {
            Mode::HorizontalBlank => 204int,
            Mode::VerticalBlank => 456,
            Mode::ScanlineOam => 80,
            Mode::ScanlineVram => 172,
        }
    }

    /// The line after the next clock cycle.
    pub open spec fn next_line(self) -> u8 {
        if !self.mode_ends() {
            self.line
        } else {
            match self.mode {
                Mode::HorizontalBlank => (self.line + 1) as u8,
                Mode::VerticalBlank => if self.line + 1 > 153 { 0 } else { (self.line + 1) as u8 },
                _ => self.line,
            }
        }
    }

    /// The mode after the next clock cycle.
    pub open spec fn next_mode(self) -> Mode {
        if !self.mode_ends() {
            self.mode
        } else {
            match self.mode {
                Mode::HorizontalBlank => if self.line + 1 > 143 { Mode::VerticalBlank } else { Mode::ScanlineOam },
                Mode::VerticalBlank => if self.line + 1 > 153 { Mode::ScanlineOam } else { Mode::VerticalBlank },
                Mode::ScanlineOam => Mode::ScanlineVram,
                Mode::ScanlineVram => Mode::HorizontalBlank,
            }
        }
    }

    /// The mode clock after the next clock cycle.
    pub open spec fn next_modeclock(self) -> u32 {
        if self.mode_ends() { 0 } else { (self.modeclock + 1) as u32 }
    }

    /// Whether the next clock cycle changes the mode.
    pub open spec fn mode_changes(self) -> bool {
        self.next_mode() != self.mode
    }

    /// The interrupt requests after entering `mode` on `line`: V-blank always requests the
    /// V-blank interrupt; the LCD status interrupt is requested when the condition selected for
    /// the new mode, or the LY = LYC coincidence, holds.
    pub open spec fn interrupts_on_mode(self, i: Interrupts, mode: Mode, line: u8) -> Interrupts {
        let cond = match mode {
            Mode::HorizontalBlank => self.lcd_status_interrupts.hblank,
            Mode::VerticalBlank => self.lcd_status_interrupts.vblank,
            Mode::ScanlineOam => self.lcd_status_interrupts.oam,
            Mode::ScanlineVram => false,
        };
        let lcd = i.lcd_status.requested || cond || (self.lcd_status_interrupts.ly_lyc_coincidence && line
            == self.line_compare);
        Interrupts {
            vblank: InterruptState {
                requested: i.vblank.requested || mode == Mode::VerticalBlank,
                ..i.vblank
            },
            lcd_status: InterruptState { requested: lcd, ..i.lcd_status },
            ..i
        }
    }

    /// Advances the mode state machine by one clock cycle, rendering the line when VRAM transfer
    /// ends. Returns whether the mode changed.
    fn advance(&mut self) -> (changed: bool)
        requires
            old(self).wf(),
        ensures
            final(self).wf(),
            ({
                &&& changed == old(self).mode_changes()
                &&& final(self).mode == old(self).next_mode()
                &&& final(self).modeclock == old(self).next_modeclock()
                &&& final(self).line == old(self).next_line()
                &&& *final(self) == (Ppu {
                    mode: final(self).mode,
                    modeclock: final(self).modeclock,
                    line: final(self).line,
                    pixels: ScreenBuffer(final(self).pixels.0),
                    ..*old(self)
                })
                &&& if old(self).mode == Mode::ScanlineVram && old(self).mode_ends() {
                    forall|i: int| 0 <= i < SCREEN_WIDTH * SCREEN_HEIGHT ==> #[trigger] final(self).pixels.0@[i] == (
                        if old(self).control.display_enabled && old(self).line * 160 <= i < old(self).line * 160 + 160 {
                            old(self).rendered_pixel(i - old(self).line * 160, old(self).pixels.0@[i])
                        } else {
                            old(self).pixels.0@[i]
                        })
                } else {
                    final(self).pixels == old(self).pixels
                }
            }),
    {
        if self.mode == Mode::ScanlineVram && self.modeclock + 1 >= 172 {
            self.finish_transfer();
            true
        } else {
            self.advance_timing()
        }
    }

    /// Advances the mode state machine by one clock cycle, outside the end of VRAM transfer.
    fn advance_timing(&mut self) -> (changed: bool)
        requires
            old(self).wf(),
            !(old(self).mode == Mode::ScanlineVram && old(self).mode_ends()),
        ensures
            final(self).wf(),
            changed == old(self).mode_changes(),
            *final(self) == (Ppu {
                mode: old(self).next_mode(),
                modeclock: old(self).next_modeclock(),
                line: old(self).next_line(),
                ..*old(self)
            }),
    {
        let mc = self.modeclock + 1;
        let mut mode = self.mode;
        let mut modeclock = mc;
        let mut line = self.line;
        let mut changed = false;
        match self.mode {
            Mode::HorizontalBlank => {
                if mc >= 204 {
                    modeclock = 0;
                    line = self.line + 1;
                    mode = if line > 143 { Mode::VerticalBlank } else { Mode::ScanlineOam };
                    changed = true;
                }
            },
            Mode::VerticalBlank => {
                if mc >= 456 {
                    modeclock = 0;
                    if self.line + 1 > 153 {
                        line = 0;
                        mode = Mode::ScanlineOam;
                        changed = true;
                    } else {
                        line = self.line + 1;
                    }
                }
            },
            Mode::ScanlineOam => {
                if mc >= 80 {
                    modeclock = 0;
                    mode = Mode::ScanlineVram;
                    changed = true;
                }
            },
            Mode::ScanlineVram => {},
        }
        self.mode = mode;
        self.modeclock = modeclock;
        self.line = line;
        changed
    }

    /// Ends VRAM transfer: renders the line and enters H-blank.
    fn finish_transfer(&mut self)
        requires
            old(self).wf(),
            old(self).mode == Mode::ScanlineVram,
        ensures
            final(self).wf(),
            *final(self) == (Ppu {
                mode: Mode::HorizontalBlank,
                modeclock: 0,
                pixels: ScreenBuffer(final(self).pixels.0),
                ..*old(self)
            }),
            forall|i: int| 0 <= i < SCREEN_WIDTH * SCREEN_HEIGHT ==> #[trigger] final(self).pixels.0@[i] == (
                if old(self).control.display_enabled && old(self).line * 160 <= i < old(self).line * 160 + 160 {
                    old(self).rendered_pixel(i - old(self).line * 160, old(self).pixels.0@[i])
                } else {
                    old(self).pixels.0@[i]
                }),
    {
        self.renderscan();
        self.modeclock = 0;
        self.mode = Mode::HorizontalBlank;
    }

    /// Requests the interrupts for having just entered the current mode.
    fn request_interrupts(&self, interrupts: &mut Interrupts)
        ensures
            *final(interrupts) == self.interrupts_on_mode(*old(interrupts), self.mode, self.line),
    {
        let cond = match self.mode {
            Mode::HorizontalBlank => self.lcd_status_interrupts.hblank,
            Mode::VerticalBlank => self.lcd_status_interrupts.vblank,
            Mode::ScanlineOam => self.lcd_status_interrupts.oam,
            Mode::ScanlineVram => false,
        };
        let lcd = interrupts.lcd_status.requested || cond || (self.lcd_status_interrupts.ly_lyc_coincidence
            && self.line == self.line_compare);
        let vb = interrupts.vblank.requested || self.mode == Mode::VerticalBlank;
        interrupts.vblank = InterruptState { requested: vb, enabled: interrupts.vblank.enabled };
        interrupts.lcd_status = InterruptState { requested: lcd, enabled: interrupts.lcd_status.enabled };
    }

    /// What one clock cycle of the PPU does: `after` and `j` are the PPU and the interrupts
    /// after a step from `self` and `i`.
    ///
    /// The mode, mode clock and line advance; the interrupts of the new mode are requested when
    /// the mode changes; and the current line is rendered when the VRAM transfer ends.
    pub open spec fn step_relation(self, i: Interrupts, after: Ppu, j: Interrupts) -> bool {
        &&& after.mode == self.next_mode()
        &&& after.modeclock == self.next_modeclock()
        &&& after.line == self.next_line()
        &&& after == (Ppu {
            mode: after.mode,
            modeclock: after.modeclock,
            line: after.line,
            pixels: ScreenBuffer(after.pixels.0),
            ..self
        })
        &&& j == (if self.mode_changes() {
            self.interrupts_on_mode(i, self.next_mode(), self.next_line())
        } else {
            i
        })
        &&& if self.mode == Mode::ScanlineVram && self.mode_ends() {
            forall|k: int| 0 <= k < SCREEN_WIDTH * SCREEN_HEIGHT ==> #[trigger] after.pixels.0@[k] == (
                if self.control.display_enabled && self.line * 160 <= k < self.line * 160 + 160 {
                    self.rendered_pixel(k - self.line * 160, self.pixels.0@[k])
                } else {
                    self.pixels.0@[k]
                })
        } else {
            after.pixels == self.pixels
        }
    }

    /// `trace` lists the states of `n` clock cycles of the PPU, from `self` and `i` to `after`
    /// and `j`.
    pub open spec fn is_trace(self, i: Interrupts, after: Ppu, j: Interrupts, n: nat, trace: Seq<(Ppu, Interrupts)>) -> bool {
        &&& trace.len() == n + 1
        &&& trace[0] == (self, i)
        &&& trace[n as int] == (after, j)
        &&& forall|k: int| 0 <= k < n ==> #[trigger] trace[k].0.step_relation(trace[k].1, trace[k + 1].0, trace[k + 1].1)
    }

    /// `n` clock cycles of the PPU: `after` and `j` are reached from `self` and `i` by `n`
    /// steps.
    pub open spec fn steps_relation(self, i: Interrupts, after: Ppu, j: Interrupts, n: nat) -> bool {
        exists|trace: Seq<(Ppu, Interrupts)>| #[trigger] self.is_trace(i, after, j, n, trace)
    }

    /// No step leaves the PPU where it is.
    pub proof fn lemma_steps_zero(self, i: Interrupts)
        ensures
            self.steps_relation(i, self, i, 0),
    {
        assert(self.is_trace(i, self, i, 0, seq![(self, i)]));
    }

    /// One more step after `n` steps makes `n + 1` steps.
    pub proof fn lemma_steps_extend(self, i: Interrupts, p: Ppu, k: Interrupts, after: Ppu, j: Interrupts, n: nat)
        requires
            self.steps_relation(i, p, k, n),
            p.step_relation(k, after, j),
        ensures
            self.steps_relation(i, after, j, n + 1),
    {
        let trace = choose|trace: Seq<(Ppu, Interrupts)>| #[trigger] self.is_trace(i, p, k, n, trace);
        let longer = trace.push((after, j));
        assert forall|m: int| 0 <= m < n + 1 implies #[trigger] longer[m].0.step_relation(longer[m].1, longer[m + 1].0, longer[m + 1].1) by {
            if m < n {
                assert(trace[m].0.step_relation(trace[m].1, trace[m + 1].0, trace[m + 1].1));
            }
        }
        assert(self.is_trace(i, after, j, n + 1, longer));
    }

    /// The PPU and interrupts agree with `self` and `i` on everything that a step keeps.
    pub open spec fn same_but_timing(self, i: Interrupts, after: Ppu, j: Interrupts) -> bool {
        &&& after == (Ppu {
            mode: after.mode,
            modeclock: after.modeclock,
            line: after.line,
            pixels: ScreenBuffer(after.pixels.0),
            ..self
        })
        &&& j == (Interrupts {
            vblank: InterruptState { requested: j.vblank.requested, ..i.vblank },
            lcd_status: InterruptState { requested: j.lcd_status.requested, ..i.lcd_status },
            ..i
        })
    }

    proof fn lemma_trace_frame(self, i: Interrupts, after: Ppu, j: Interrupts, n: nat, trace: Seq<(Ppu, Interrupts)>, m: int)
        requires
            self.is_trace(i, after, j, n, trace),
            0 <= m <= n,
        ensures
            self.same_but_timing(i, trace[m].0, trace[m].1),
        decreases m,
    {
        if m > 0 {
            self.lemma_trace_frame(i, after, j, n, trace, m - 1);
            let k = m - 1;
            assert(trace[k].0.step_relation(trace[k].1, trace[k + 1].0, trace[k + 1].1));
            assert(k + 1 == m);
        }
    }

    /// Stepping the PPU changes only its mode, mode clock, line and pixels, and among the
    /// interrupts only the requests of the V-blank and LCD status interrupts.
    pub proof fn lemma_steps_frame(self, i: Interrupts, after: Ppu, j: Interrupts, n: nat)
        requires
            self.steps_relation(i, after, j, n),
        ensures
            self.same_but_timing(i, after, j),
    {
        let trace = choose|trace: Seq<(Ppu, Interrupts)>| #[trigger] self.is_trace(i, after, j, n, trace);
        self.lemma_trace_frame(i, after, j, n, trace, n as int);
    }

    /// Performs one clock cycle of the PPU.
    ///
    /// The PPU cycles through OAM search (80 cycles), VRAM transfer (172 cycles, after which the
    /// line is rendered) and H-blank (204 cycles) for each of the 144 visible lines, then spends
    /// 10 lines of 456 cycles in V-blank.
    pub fn step(&mut self, interrupts: &mut Interrupts)
        requires
            old(self).wf(),
        ensures
            final(self).wf(),
            old(self).step_relation(*old(interrupts), *final(self), *final(interrupts)),
    {
        let changed = self.advance();
        if changed {
            self.request_interrupts(interrupts);
        }
    }

    /// Writes the screen as RGBA pixels, row by row, into a frame buffer.
    pub fn render(&self, frame: &mut [u8])
        requires
            self.wf(),
            old(frame)@.len() == SCREEN_WIDTH * SCREEN_HEIGHT * 4,
        ensures
            final(frame)@.len() == old(frame)@.len(),
            forall|i: int| 0 <= i < SCREEN_WIDTH * SCREEN_HEIGHT * 4 ==> #[trigger] final(frame)@[i]
                == palette::rgba_of(self.pixels.0@[i / 4])[i % 4],
    {
        let mut p: usize = 0;
        while p < SCREEN_WIDTH * SCREEN_HEIGHT
            invariant
                p <= SCREEN_WIDTH * SCREEN_HEIGHT,
                self.wf(),
                frame@.len() == SCREEN_WIDTH * SCREEN_HEIGHT * 4,
                forall|i: int| 0 <= i < 4 * p ==> #[trigger] frame@[i] == palette::rgba_of(self.pixels.0@[i / 4])[i % 4],
            decreases SCREEN_WIDTH * SCREEN_HEIGHT - p,
        {
            let rgba = self.pixels.0[p].to_rgba();
            frame[4 * p] = rgba[0];
            frame[4 * p + 1] = rgba[1];
            frame[4 * p + 2] = rgba[2];
            frame[4 * p + 3] = rgba[3];
            p = p + 1;
        }
    }
}

impl Addressable for Ppu {
    open spec fn can_read(&self, address: u16) -> bool {
        self.wf() && is_ppu_address(address)
    }

    open spec fn byte_at(&self, address: u16) -> u8 {
        self.spec_read(address)
    }

    open spec fn can_write(&self, address: u16, byte: u8) -> bool {
        self.wf() && is_ppu_address(address)
    }

    open spec fn wrote(&self, address: u16, byte: u8, after: Self) -> bool {
        after.wf() && self.write_relation(address, byte, after)
    }

    /// Reads a byte of graphics memory or an LCD register.
    fn read_byte(&self, address: u16) -> (r: u8) {
        if address <= 0x97FF {
            self.mem.chram[(address - 0x8000) as usize]
        } else if address <= 0x9FFF {
            self.mem.bg_map[(address - 0x9800) as usize]
        } else if address <= 0xFE9F {
            self.mem.oam[(address - 0xFE00) as usize]
        } else {
            match address {
                0xFF40 => self.control.as_byte(),
                0xFF41 => {
                    let mode = self.mode();
                    pack_bits(
                        mode % 2 == 1,
                        mode / 2 == 1,
                        self.line == self.line_compare,
                        self.lcd_status_interrupts.hblank,
                        self.lcd_status_interrupts.vblank,
                        self.lcd_status_interrupts.oam,
                        self.lcd_status_interrupts.ly_lyc_coincidence,
                        false,
                    )
                },
                0xFF42 => self.bg_scroll.y,
                0xFF43 => self.bg_scroll.x,
                0xFF44 => self.line,
                0xFF45 => self.line_compare,
                0xFF47 => self.bg_palette.as_byte(),
                0xFF48 => self.sprite_palette[0].as_byte(),
                0xFF49 => self.sprite_palette[1].as_byte(),
                0xFF4A => self.window.y,
                0xFF4B => self.window.x.wrapping_add(7),
                _ => 0xFF,
            }
        }
    }

    /// Writes a byte of graphics memory or an LCD register.
    fn write_byte(&mut self, address: u16, byte: u8) {
        if address <= 0x97FF {
            self.mem.chram.set((address - 0x8000) as usize, byte);
        } else if address <= 0x9FFF {
            self.mem.bg_map.set((address - 0x9800) as usize, byte);
        } else if address <= 0xFE9F {
            self.mem.oam.set((address - 0xFE00) as usize, byte);
        } else {
            match address {
                0xFF40 => {
                    self.control = LcdControl::from_byte(byte);
                },
                0xFF41 => {
                    let hblank = byte.has_bit_set(3);
                    let vblank = byte.has_bit_set(4);
                    let oam = byte.has_bit_set(5);
                    let ly_lyc_coincidence = byte.has_bit_set(6);
                    self.lcd_status_interrupts = LcdcStatusInterrupts { hblank, vblank, oam, ly_lyc_coincidence };
                },
                0xFF42 => {
                    self.bg_scroll = Position { y: byte, x: self.bg_scroll.x };
                },
                0xFF43 => {
                    self.bg_scroll = Position { x: byte, y: self.bg_scroll.y };
                },
                0xFF45 => {
                    self.line_compare = byte;
                },
                0xFF47 => {
                    self.bg_palette = BackgroundPalette::from_byte(byte);
                },
                0xFF48 => {
                    self.sprite_palette = [SpritePalette::from_byte(byte), self.sprite_palette[1]];
                },
                0xFF49 => {
                    self.sprite_palette = [self.sprite_palette[0], SpritePalette::from_byte(byte)];
                },
                0xFF4A => {
                    self.window = Position { y: byte, x: self.window.x };
                },
                0xFF4B => {
                    self.window = Position { x: byte.wrapping_sub(7), y: self.window.y };
                },
                _ => {},
            }
        }
    }
}

/// Scrolling: outside the window, screen column `x` of line `LY` shows the pixel at column
/// `(x + SCX) mod 256` and row `(LY + SCY) mod 256` of the background map. On a line that shows
/// the window, a column `x` at or right of `WX` shows column `x - WX` and row `(WY + LY) mod 256`
/// of the window map.
pub proof fn lemma_scrolled_pixel(ppu: Ppu, x: int)
    requires
        0 <= x < 160,
    ensures
        !(ppu.control.window_enabled && ppu.window.y <= ppu.line) ==> ppu.bg_pixel(x) == ppu.map_pixel(
            ppu.control.bg_map_start.spec_address() as int,
            (x + ppu.bg_scroll.x) % 256,
            (ppu.line + ppu.bg_scroll.y) % 256,
        ),
        ppu.control.window_enabled && ppu.window.y <= ppu.line && x >= ppu.window.x ==> ppu.bg_pixel(x)
            == ppu.map_pixel(
            ppu.control.window_map_start.spec_address() as int,
            x - ppu.window.x,
            (ppu.window.y + ppu.line) % 256,
        ),
{
}

} // verus!
